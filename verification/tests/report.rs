//! Tests of the report model: the day table, the signature rules, and the
//! checked weekday enumeration.

use fits::common::{Weekday, WeeklyReport};

#[test]
fn new_report_has_seven_empty_days() {
    let report = WeeklyReport::new(false, 10, None);
    let days = report.get_days();
    assert_eq!(days.len(), 7);
    for list in days {
        assert!(list.is_empty());
    }
}

#[test]
fn add_day_revokes_signature_and_advances_last_update() {
    let mut report = WeeklyReport::new(false, 42, None);
    report.set_signed();
    assert!(report.is_signed());
    let before = report.get_last_update();
    report.add_day(Weekday::Wednesday, "walked the dog");
    assert!(!report.is_signed());
    assert!(report.get_last_update() >= before);
    assert_eq!(
        report.get_days()[Weekday::Wednesday.index()],
        vec!["walked the dog".to_string()]
    );
}

#[test]
fn add_day_appends_to_the_back() {
    let mut report = WeeklyReport::new(false, 1, None);
    report.add_day(Weekday::Monday, "early");
    report.add_day(Weekday::Monday, "late");
    assert_eq!(
        report.get_days()[Weekday::Monday.index()],
        vec!["early".to_string(), "late".to_string()]
    );
}

#[test]
fn set_days_revokes_signature_and_keeps_timestamp() {
    let mut report = WeeklyReport::new(false, 55, None);
    report.set_signed();
    let before = report.get_last_update();
    let mut table = vec![Vec::new(); 7];
    table[Weekday::Saturday.index()] = vec!["rested".to_string()];
    report.set_days(table);
    assert!(!report.is_signed());
    assert_eq!(report.get_timestamp(), 55);
    assert!(report.get_last_update() >= before);
    assert_eq!(
        report.get_days()[Weekday::Saturday.index()],
        vec!["rested".to_string()]
    );
}

#[test]
fn from_raw_parts_keeps_every_field() {
    let mut table = vec![Vec::new(); 7];
    table[Weekday::Thursday.index()] = vec!["typed".to_string()];
    let report = WeeklyReport::from_raw_parts(true, 11, 22, table);
    assert!(report.is_signed());
    assert_eq!(report.get_timestamp(), 11);
    assert_eq!(report.get_last_update(), 22);
    assert_eq!(
        report.get_days()[Weekday::Thursday.index()],
        vec!["typed".to_string()]
    );
}

#[test]
fn revoke_signature_flips_only_the_flag() {
    let mut report = WeeklyReport::new(false, 5, None);
    report.set_signed();
    report.revoke_signature();
    assert!(!report.is_signed());
    assert_eq!(report.get_timestamp(), 5);
}

#[test]
fn weekday_positions_round_trip() {
    let all = [
        Weekday::Monday,
        Weekday::Tuesday,
        Weekday::Wednesday,
        Weekday::Thursday,
        Weekday::Friday,
        Weekday::Saturday,
        Weekday::Sunday,
    ];
    for (i, day) in all.iter().enumerate() {
        assert_eq!(day.index(), i);
        assert_eq!(Weekday::from_index(i), Some(*day));
    }
    assert_eq!(Weekday::from_index(7), None);
    assert_eq!(Weekday::from_index(100), None);
}
