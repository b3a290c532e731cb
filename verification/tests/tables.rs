use application_portal::table::Table;
use application_portal::{CheckIn, Database, DraftApplication};
use chrono::{NaiveDate, NaiveDateTime};

fn time(second: u32) -> NaiveDateTime {
    NaiveDate::from_ymd_opt(2024, 5, 23).unwrap().and_hms_opt(2, 37, second).unwrap()
}

fn mark(event: &str, participant_id: i32, second: u32) -> CheckIn {
    CheckIn { event: String::from(event), participant_id, at: time(second) }
}

#[test]
fn a_new_table_is_empty() {
    let table: Table<CheckIn> = Table::new();
    assert!(!table.contains("wh-2024", 3));
    assert_eq!(table.get("wh-2024", 3), None);
    assert!(table.select("wh-2024").is_empty());
}

#[test]
fn a_table_holds_one_row_for_each_key() {
    let mut table: Table<CheckIn> = Table::new();
    table.put(mark("wh-2024", 3, 1));
    table.put(mark("wh-2024", 4, 2));
    table.put(mark("wh-2025", 3, 3));
    table.put(mark("wh-2024", 3, 4));
    assert_eq!(table.get("wh-2024", 3), Some(&mark("wh-2024", 3, 4)));
    assert_eq!(table.get("wh-2024", 4), Some(&mark("wh-2024", 4, 2)));
    assert_eq!(table.get("wh-2025", 3), Some(&mark("wh-2025", 3, 3)));
    assert_eq!(table.get("wh-2025", 4), None);
    assert!(table.contains("wh-2025", 3));
    assert!(!table.contains("wh-2025", 4));
    let mut found = table.select("wh-2024");
    found.sort_by_key(|row| row.participant_id);
    assert_eq!(found, vec![mark("wh-2024", 3, 4), mark("wh-2024", 4, 2)]);
    assert_eq!(table.select("wh-2025"), vec![mark("wh-2025", 3, 3)]);
    assert!(table.select("wh").is_empty());
}

#[test]
fn removing_takes_out_one_row_at_most() {
    let mut table: Table<CheckIn> = Table::new();
    table.put(mark("wh-2024", 3, 1));
    table.put(mark("wh-2024", 4, 2));
    table.put(mark("wh-2024", 5, 3));
    table.remove("wh-2024", 4);
    assert_eq!(table.get("wh-2024", 4), None);
    assert_eq!(table.get("wh-2024", 3), Some(&mark("wh-2024", 3, 1)));
    assert_eq!(table.get("wh-2024", 5), Some(&mark("wh-2024", 5, 3)));
    table.remove("wh-2024", 4);
    table.remove("wh-2025", 3);
    assert_eq!(table.select("wh-2024").len(), 2);
    table.remove("wh-2024", 3);
    table.remove("wh-2024", 5);
    assert!(table.select("wh-2024").is_empty());
}

#[test]
fn a_copy_of_a_table_is_its_own() {
    let mut table: Table<CheckIn> = Table::new();
    table.put(mark("wh-2024", 3, 1));
    let mut copy = table.duplicate();
    assert_eq!(copy.get("wh-2024", 3), Some(&mark("wh-2024", 3, 1)));
    copy.put(mark("wh-2024", 3, 9));
    copy.put(mark("wh-2024", 4, 9));
    assert_eq!(table.get("wh-2024", 3), Some(&mark("wh-2024", 3, 1)));
    assert_eq!(table.get("wh-2024", 4), None);
}

#[test]
fn a_new_store_holds_nothing() {
    let db = Database::new();
    assert!(!DraftApplication::is_stored("wh-2024", 3, &db));
    assert!(db.applications.select("wh-2024").is_empty());
    assert!(db.check_ins.select("wh-2024").is_empty());
    assert_eq!(db.emails.get(3), None);
}
