use pad_visuals::ports::pick_port;
use pad_visuals::ports::select_port;
use pad_visuals::ports::PortError;
use pad_visuals::ports::Verdict;

fn named(names: &[&str]) -> Vec<Option<String>> {
    names.iter().map(|n| Some(n.to_string())).collect()
}

#[test]
fn first_matching_port_is_chosen() {
    let names = named(&[
        "Midi Through:Midi Through Port-0 14:0",
        "Ableton Push 2:Ableton Push 2 Live Port 24:0",
        "Ableton Push 2:Ableton Push 2 User Port",
        "Other:Other User Port",
    ]);
    assert_eq!(select_port(&names, "User Port$"), Ok(2));
}

#[test]
fn the_pattern_is_a_regular_expression() {
    let names = named(&["User Port 24:1", "x User Port", "USER PORT"]);
    assert_eq!(select_port(&names, "User Port$"), Ok(1));
    assert_eq!(select_port(&names, "^User"), Ok(0));
    assert_eq!(select_port(&names, "(?i)user port$"), Ok(1));
    assert_eq!(select_port(&names, "^[A-Z ]+$"), Ok(2));
    assert_eq!(select_port(&names, "24:1$"), Ok(0));
}

#[test]
fn no_matching_port() {
    let names = named(&["Midi Through", "Live Port"]);
    assert_eq!(select_port(&names, "User Port$"), Err(PortError::NotFound));
    assert_eq!(select_port(&Vec::new(), "User Port$"), Err(PortError::NotFound));
}

#[test]
fn unreadable_name_before_a_match_fails() {
    let names = vec![Some("Midi Through".to_string()), None, Some("Push User Port".to_string())];
    assert_eq!(select_port(&names, "User Port$"), Err(PortError::Unreadable(1)));
}

#[test]
fn unreadable_name_after_a_match_is_never_read() {
    let names = vec![Some("Push User Port".to_string()), None];
    assert_eq!(select_port(&names, "User Port$"), Ok(0));
}

#[test]
fn invalid_pattern_is_reported() {
    let names = named(&["Push User Port"]);
    assert_eq!(select_port(&names, "User (Port"), Err(PortError::BadPattern));
    assert_eq!(select_port(&Vec::new(), "User (Port"), Err(PortError::NotFound));
}

#[test]
fn pick_port_goes_by_the_first_decisive_verdict() {
    assert_eq!(pick_port(&vec![]), Err(PortError::NotFound));
    assert_eq!(pick_port(&vec![Verdict::Miss, Verdict::Miss]), Err(PortError::NotFound));
    assert_eq!(pick_port(&vec![Verdict::Miss, Verdict::Hit, Verdict::Hit]), Ok(1));
    assert_eq!(pick_port(&vec![Verdict::Hit, Verdict::Unreadable]), Ok(0));
    assert_eq!(
        pick_port(&vec![Verdict::Miss, Verdict::Unreadable, Verdict::Hit]),
        Err(PortError::Unreadable(1))
    );
    assert_eq!(
        pick_port(&vec![Verdict::Invalid, Verdict::Hit]),
        Err(PortError::BadPattern)
    );
    assert_eq!(
        pick_port(&vec![Verdict::Miss, Verdict::Miss, Verdict::Invalid]),
        Err(PortError::BadPattern)
    );
}
