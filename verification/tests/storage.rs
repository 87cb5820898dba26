//! Tests of the storage actor: saving, reading, backups, and the command
//! protocol, all through the public connector interface.

use fits::common::{LocalError, Weekday, WeeklyReport};
use fits::db::{create_db, DbAnswer, DbCommand, DbConnector, StorageError};

#[test]
fn read_on_fresh_store_is_empty() {
    let (conn, actor) = DbConnector::open_in_memory().unwrap();
    let handle = conn.submit(DbCommand::Read(i64::MIN..i64::MAX)).unwrap();
    drop(conn);
    while actor.serve_one() {}
    match handle.wait().unwrap() {
        DbAnswer::Read(reports) => assert_eq!(reports.len(), 0),
        _ => panic!("expected a read answer"),
    }
}

#[test]
fn store_and_read_back_one_report() {
    // 2025-08-11T00:00:00Z as Unix seconds.
    let t1: i64 = 1754870400;
    let (conn, actor) = DbConnector::open_in_memory().unwrap();
    let mut report = WeeklyReport::new(false, t1, None);
    report.add_day(Weekday::Monday, "Attended standup");
    let save = conn.submit(DbCommand::Save { data: vec![report] }).unwrap();
    let read = conn.submit(DbCommand::Read(t1..t1 + 1)).unwrap();
    let covering = conn.submit(DbCommand::Backup(t1..t1 + 1)).unwrap();
    let disjoint = conn.submit(DbCommand::Backup(t1 + 100..t1 + 200)).unwrap();
    drop(conn);
    while actor.serve_one() {}
    assert!(matches!(save.wait().unwrap(), DbAnswer::Done));
    match read.wait().unwrap() {
        DbAnswer::Read(reports) => {
            assert_eq!(reports.len(), 1);
            assert!(!reports[0].is_signed());
            assert_eq!(reports[0].get_timestamp(), t1);
            let days = reports[0].get_days();
            assert_eq!(days[Weekday::Monday.index()], vec!["Attended standup".to_string()]);
            for d in 1..7 {
                assert!(days[d].is_empty());
            }
        }
        _ => panic!("expected a read answer"),
    }
    match covering.wait().unwrap() {
        DbAnswer::Backup(bytes) => assert!(!bytes.is_empty()),
        _ => panic!("expected a backup answer"),
    }
    match disjoint.wait().unwrap() {
        DbAnswer::Backup(bytes) => assert!(bytes.is_empty()),
        _ => panic!("expected a backup answer"),
    }
}

#[test]
fn round_trip_preserves_content_and_day_order() {
    let (conn, actor) = DbConnector::open_in_memory().unwrap();
    let mut r1 = WeeklyReport::new(false, 2000, None);
    r1.add_day(Weekday::Tuesday, "first");
    r1.add_day(Weekday::Tuesday, "second");
    r1.add_day(Weekday::Friday, "third");
    r1.set_signed();
    r1.set_last_update(777);
    let mut r2 = WeeklyReport::new(false, 1000, None);
    r2.add_day(Weekday::Sunday, "solo");
    let r2_update = r2.get_last_update();
    let save = conn.submit(DbCommand::Save { data: vec![r1, r2] }).unwrap();
    let read = conn.submit(DbCommand::Read(0..3000)).unwrap();
    drop(conn);
    while actor.serve_one() {}
    assert!(matches!(save.wait().unwrap(), DbAnswer::Done));
    match read.wait().unwrap() {
        DbAnswer::Read(reports) => {
            assert_eq!(reports.len(), 2);
            // Newest first.
            assert_eq!(reports[0].get_timestamp(), 2000);
            assert!(reports[0].is_signed());
            assert_eq!(reports[0].get_last_update(), 777);
            let days = reports[0].get_days();
            assert_eq!(
                days[Weekday::Tuesday.index()],
                vec!["first".to_string(), "second".to_string()]
            );
            assert_eq!(days[Weekday::Friday.index()], vec!["third".to_string()]);
            assert!(days[Weekday::Monday.index()].is_empty());
            assert_eq!(reports[1].get_timestamp(), 1000);
            assert!(!reports[1].is_signed());
            assert_eq!(reports[1].get_last_update(), r2_update);
            assert_eq!(
                reports[1].get_days()[Weekday::Sunday.index()],
                vec!["solo".to_string()]
            );
        }
        _ => panic!("expected a read answer"),
    }
}

#[test]
fn read_range_excludes_other_weeks() {
    let (conn, actor) = DbConnector::open_in_memory().unwrap();
    let mut r1 = WeeklyReport::new(false, 100, None);
    r1.add_day(Weekday::Monday, "in range");
    let mut r2 = WeeklyReport::new(false, 900, None);
    r2.add_day(Weekday::Monday, "out of range");
    let save = conn.submit(DbCommand::Save { data: vec![r2, r1] }).unwrap();
    let read = conn.submit(DbCommand::Read(50..150)).unwrap();
    drop(conn);
    while actor.serve_one() {}
    assert!(matches!(save.wait().unwrap(), DbAnswer::Done));
    match read.wait().unwrap() {
        DbAnswer::Read(reports) => {
            assert_eq!(reports.len(), 1);
            assert_eq!(reports[0].get_timestamp(), 100);
        }
        _ => panic!("expected a read answer"),
    }
}

#[test]
fn each_caller_gets_its_own_answer() {
    let (conn, actor) = DbConnector::open_in_memory().unwrap();
    let conn2 = conn.clone();
    let mut r = WeeklyReport::new(false, 7, None);
    r.add_day(Weekday::Monday, "a");
    let h1 = conn.submit(DbCommand::Save { data: vec![r] }).unwrap();
    let h2 = conn2.submit(DbCommand::Read(100..200)).unwrap();
    let h3 = conn.submit(DbCommand::Backup(0..10)).unwrap();
    drop(conn);
    drop(conn2);
    while actor.serve_one() {}
    // Three commands, three answers, each on its own channel and each of
    // the kind its command asks for.
    assert!(matches!(h1.wait().unwrap(), DbAnswer::Done));
    match h2.wait().unwrap() {
        DbAnswer::Read(reports) => assert!(reports.is_empty()),
        _ => panic!("expected a read answer"),
    }
    match h3.wait().unwrap() {
        DbAnswer::Backup(bytes) => assert!(!bytes.is_empty()),
        _ => panic!("expected a backup answer"),
    }
}

#[test]
fn saving_a_duplicate_timestamp_fails_cleanly() {
    let (conn, actor) = DbConnector::open_in_memory().unwrap();
    let mut original = WeeklyReport::new(false, 500, None);
    original.add_day(Weekday::Monday, "original");
    let mut imposter = WeeklyReport::new(false, 500, None);
    imposter.add_day(Weekday::Tuesday, "imposter");
    let h1 = conn.submit(DbCommand::Save { data: vec![original] }).unwrap();
    let h2 = conn.submit(DbCommand::Save { data: vec![imposter] }).unwrap();
    let h3 = conn.submit(DbCommand::Read(500..501)).unwrap();
    drop(conn);
    while actor.serve_one() {}
    assert!(matches!(h1.wait().unwrap(), DbAnswer::Done));
    assert!(matches!(
        h2.wait().unwrap(),
        DbAnswer::Failed(StorageError::WriteFailed)
    ));
    // The failed save left the store untouched.
    match h3.wait().unwrap() {
        DbAnswer::Read(reports) => {
            assert_eq!(reports.len(), 1);
            let days = reports[0].get_days();
            assert_eq!(days[Weekday::Monday.index()], vec!["original".to_string()]);
            assert!(days[Weekday::Tuesday.index()].is_empty());
        }
        _ => panic!("expected a read answer"),
    }
}

#[test]
fn saving_equal_timestamps_in_one_batch_fails_without_partial_data() {
    let (conn, actor) = DbConnector::open_in_memory().unwrap();
    let mut r1 = WeeklyReport::new(false, 800, None);
    r1.add_day(Weekday::Monday, "one");
    let mut r2 = WeeklyReport::new(false, 800, None);
    r2.add_day(Weekday::Tuesday, "two");
    let save = conn.submit(DbCommand::Save { data: vec![r1, r2] }).unwrap();
    let read = conn.submit(DbCommand::Read(0..10000)).unwrap();
    drop(conn);
    while actor.serve_one() {}
    assert!(matches!(
        save.wait().unwrap(),
        DbAnswer::Failed(StorageError::WriteFailed)
    ));
    match read.wait().unwrap() {
        DbAnswer::Read(reports) => assert!(reports.is_empty()),
        _ => panic!("expected a read answer"),
    }
}

#[test]
fn backup_bytes_are_the_documented_layout() {
    let (conn, actor) = DbConnector::open_in_memory().unwrap();
    let mut r = WeeklyReport::new(false, 3, None);
    r.add_day(Weekday::Monday, "ab");
    r.set_signed();
    r.set_last_update(9);
    let save = conn.submit(DbCommand::Save { data: vec![r] }).unwrap();
    let backup = conn.submit(DbCommand::Backup(0..10)).unwrap();
    drop(conn);
    while actor.serve_one() {}
    assert!(matches!(save.wait().unwrap(), DbAnswer::Done));
    match backup.wait().unwrap() {
        DbAnswer::Backup(bytes) => {
            let expected = vec![
                // The report row: timestamp 3, signed, last update 9.
                3, 0, 0, 0, 0, 0, 0, 0, 1, 9, 0, 0, 0, 0, 0, 0, 0,
                // The activity row: timestamp 3, Monday, "ab" length-prefixed.
                3, 0, 0, 0, 0, 0, 0, 0, 0, 2, 0, 0, 0, 0, 0, 0, 0, 97, 98,
            ];
            assert_eq!(bytes, expected);
        }
        _ => panic!("expected a backup answer"),
    }
}

#[test]
fn open_on_a_missing_file_is_connection_failed() {
    let result = DbConnector::open("target/no_such_directory/absent.sqlite");
    assert!(matches!(result, Err(StorageError::ConnectionFailed)));
}

#[test]
fn create_db_refuses_an_existing_path() {
    // The current directory certainly exists already.
    assert!(matches!(create_db("."), Err(LocalError::AlreadyExists)));
}

#[test]
fn create_db_sets_up_a_fresh_store() {
    // A memory store vanishes again on close; creation itself must succeed.
    assert!(create_db(":memory:").is_ok());
}

#[test]
fn a_dropped_answer_handle_does_not_disturb_the_actor() {
    let (conn, actor) = DbConnector::open_in_memory().unwrap();
    let abandoned = conn.submit(DbCommand::Read(0..1)).unwrap();
    drop(abandoned);
    let kept = conn.submit(DbCommand::Read(0..1)).unwrap();
    drop(conn);
    // The actor must survive answering into the abandoned channel and go on
    // to serve the next request.
    while actor.serve_one() {}
    assert!(matches!(kept.wait().unwrap(), DbAnswer::Read(_)));
}

#[test]
fn answers_survive_a_finished_actor() {
    // The actor may be gone before the caller looks at its answer.
    let (conn, actor) = DbConnector::open_in_memory().unwrap();
    let handle = conn.submit(DbCommand::Read(0..1)).unwrap();
    drop(conn);
    while actor.serve_one() {}
    drop(actor);
    assert!(matches!(handle.wait().unwrap(), DbAnswer::Read(_)));
}
