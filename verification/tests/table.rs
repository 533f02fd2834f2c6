use pad_visuals::config::EntityConfig;
use pad_visuals::fixed::Fixed;
use pad_visuals::table::ParameterTable;
use pad_visuals::table::PADS;

fn tinted(hue: i32) -> EntityConfig {
    EntityConfig { hue: Fixed::from_whole(hue), ..EntityConfig::default() }
}

#[test]
fn a_new_table_is_empty() {
    let table = ParameterTable::new();
    assert_eq!(PADS, 64);
    for pad in 0..=255u8 {
        assert_eq!(table.get(pad), None);
        assert!(!table.contains_key(pad));
    }
    assert!(table.entries().is_empty());
}

#[test]
fn insert_writes_and_overwrites() {
    let mut table = ParameterTable::new();
    assert!(table.insert(3, tinted(10)));
    assert_eq!(table.get(3), Some(tinted(10)));
    assert!(table.insert(3, tinted(20)));
    assert_eq!(table.get(3), Some(tinted(20)));
    assert_eq!(table.get(2), None);
    assert!(table.contains_key(3));
}

#[test]
fn insert_refuses_pads_off_the_grid() {
    let mut table = ParameterTable::new();
    assert!(table.insert(63, tinted(1)));
    assert!(!table.insert(64, tinted(2)));
    assert!(!table.insert(255, tinted(3)));
    assert_eq!(table.entries(), vec![(63, tinted(1))]);
}

#[test]
fn reading_an_absent_entry_creates_the_default() {
    let mut table = ParameterTable::new();
    assert_eq!(table.get_or_default(7), EntityConfig::default());
    assert_eq!(table.get(7), Some(EntityConfig::default()));
    assert_eq!(table.get_or_default(7), EntityConfig::default());
    assert_eq!(table.entries(), vec![(7, EntityConfig::default())]);
}

#[test]
fn reading_a_present_entry_leaves_it() {
    let mut table = ParameterTable::new();
    table.insert(7, tinted(33));
    assert_eq!(table.get_or_default(7), tinted(33));
    assert_eq!(table.entries(), vec![(7, tinted(33))]);
}

#[test]
fn reading_off_the_grid_creates_nothing() {
    let mut table = ParameterTable::new();
    assert_eq!(table.get_or_default(64), EntityConfig::default());
    assert!(table.entries().is_empty());
}

#[test]
fn entries_come_in_pad_order() {
    let mut table = ParameterTable::new();
    table.insert(40, tinted(1));
    table.insert(0, tinted(2));
    table.insert(63, tinted(3));
    table.insert(12, tinted(4));
    assert_eq!(
        table.entries(),
        vec![(0, tinted(2)), (12, tinted(4)), (40, tinted(1)), (63, tinted(3))]
    );
}

#[test]
fn a_table_from_entries_holds_them() {
    let entries = vec![(5, tinted(1)), (0, tinted(2)), (5, tinted(3))];
    let table = ParameterTable::from_entries(&entries).expect("all pads are on the grid");
    assert_eq!(table.entries(), vec![(0, tinted(2)), (5, tinted(3))]);
    let empty = ParameterTable::from_entries(&Vec::new()).expect("nothing is off the grid");
    assert!(empty.entries().is_empty());
}

#[test]
fn a_table_from_entries_refuses_pads_off_the_grid() {
    assert!(ParameterTable::from_entries(&vec![(3, tinted(1)), (64, tinted(2))]).is_none());
    assert!(ParameterTable::from_entries(&vec![(255, tinted(1))]).is_none());
    assert!(ParameterTable::from_entries(&vec![(63, tinted(1))]).is_some());
}

#[test]
fn entries_round_trip() {
    let mut table = ParameterTable::new();
    table.insert(9, tinted(90));
    table.insert(2, tinted(20));
    table.get_or_default(30);
    let listed = table.entries();
    let again = ParameterTable::from_entries(&listed).expect("a table lists pads of the grid");
    assert_eq!(again.entries(), listed);
}
