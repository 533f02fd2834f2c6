use pad_visuals::animation::Animation;
use pad_visuals::config::EntityConfig;
use pad_visuals::distance::Distance;
use pad_visuals::fixed::Fixed;
use pad_visuals::status::status_text;
use pad_visuals::status::Markers;

fn text(config: &EntityConfig, markers: Markers) -> String {
    status_text(config, markers).iter().collect()
}

fn plain() -> Markers {
    Markers { animation: ' ', thickness: ' ', rate: ' ', duration: ' ' }
}

#[test]
fn status_of_the_default_configuration() {
    assert_eq!(
        text(&EntityConfig::default(), plain()),
        "  0 Linear/Euclidean\n  a=1.00\n  b=0.00\n  d=15.0f\n"
    );
}

#[test]
fn status_marks_each_line() {
    let markers = Markers { animation: '*', thickness: ' ', rate: '*', duration: ' ' };
    assert_eq!(
        text(&EntityConfig::default(), markers),
        "* 0 Linear/Euclidean\n  a=1.00\n* b=0.00\n  d=15.0f\n"
    );
    let markers = Markers { animation: ' ', thickness: '*', rate: ' ', duration: '*' };
    assert_eq!(
        text(&EntityConfig::default(), markers),
        "  0 Linear/Euclidean\n* a=1.00\n  b=0.00\n* d=15.0f\n"
    );
}

#[test]
fn status_resolves_selectors() {
    let config = EntityConfig {
        kind: 13,
        hue: Fixed::from_whole(10),
        duration: Fixed { raw: 123_456_789 },
        alpha: Fixed { raw: 2_345_678 },
        beta: Fixed { raw: -50_000 },
        distance: 10,
    };
    assert_eq!(
        text(&config, plain()),
        "  13 DropTheBass/Bishop\n  a=2.35\n  b=-0.05\n  d=123.5f\n"
    );
    let config = EntityConfig { kind: 255, distance: 255, ..config };
    assert_eq!(
        text(&config, plain()),
        "  255 Linear/Rook\n  a=2.35\n  b=-0.05\n  d=123.5f\n"
    );
}

#[test]
fn status_rounds_halves_away_from_zero() {
    let config = EntityConfig {
        alpha: Fixed { raw: 5_000 },
        beta: Fixed { raw: -5_000 },
        duration: Fixed { raw: 49_999 },
        ..EntityConfig::default()
    };
    assert_eq!(text(&config, plain()), "  0 Linear/Euclidean\n  a=0.01\n  b=-0.01\n  d=0.0f\n");
    let config = EntityConfig {
        alpha: Fixed { raw: 4_999 },
        beta: Fixed { raw: -4_999 },
        duration: Fixed { raw: 9_950_000 },
        ..EntityConfig::default()
    };
    assert_eq!(text(&config, plain()), "  0 Linear/Euclidean\n  a=0.00\n  b=-0.00\n  d=10.0f\n");
}

#[test]
fn status_of_extreme_values() {
    let config = EntityConfig {
        alpha: Fixed { raw: i64::MAX },
        beta: Fixed { raw: i64::MIN },
        duration: Fixed { raw: 1_009_999 },
        ..EntityConfig::default()
    };
    assert_eq!(
        text(&config, plain()),
        "  0 Linear/Euclidean\n  a=9223372036854.78\n  b=-9223372036854.78\n  d=1.0f\n"
    );
}

#[test]
fn names_of_animations_and_metrics() {
    assert_eq!(Animation::Linear.name(), "Linear");
    assert_eq!(Animation::VWave.name(), "VWave");
    assert_eq!(Animation::Stream.name(), "Stream");
    assert_eq!(Animation::DropTheBass.name(), "DropTheBass");
    assert_eq!(Animation::Cross.name(), "Cross");
    assert_eq!(Distance::Euclidean.name(), "Euclidean");
    assert_eq!(Distance::Chebyshev.name(), "Chebyshev");
    assert_eq!(Distance::Manhattan.name(), "Manhattan");
    assert_eq!(Distance::Rook.name(), "Rook");
    assert_eq!(Distance::Bishop.name(), "Bishop");
}
