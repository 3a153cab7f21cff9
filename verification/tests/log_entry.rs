use silent_backup::guard::{check_single_instance, wide_name, ERROR_ALREADY_EXISTS};
use silent_backup::log_entry::{compose, compose_at, log_file_path, logs_dir_name, time_date};
use silent_backup::timestamp::Timestamp;

fn first_of_march() -> Timestamp {
    Timestamp { year: 2024, month: 3, day: 1, hour: 10, minute: 0, second: 0 }
}

#[test]
fn entry_names_date_and_time() {
    assert_eq!(time_date(&first_of_march()), "DATE:2024-03-01 TIME:10:00:00");
    let late = Timestamp { year: 1999, month: 12, day: 31, hour: 23, minute: 59, second: 58 };
    assert_eq!(time_date(&late), "DATE:1999-12-31 TIME:23:59:58");
}

#[test]
fn directory_is_named_after_the_day() {
    assert_eq!(logs_dir_name(&first_of_march()), "2024-03-01-LOGS");
}

#[test]
fn file_is_named_after_time_and_category() {
    assert_eq!(
        log_file_path(&first_of_march(), "SUCCESS"),
        "2024-03-01-LOGS\\10-00-00-SUCCESS.json"
    );
    let early = Timestamp { year: 2025, month: 1, day: 2, hour: 3, minute: 4, second: 5 };
    assert_eq!(log_file_path(&early, "ERROR"), "2025-01-02-LOGS\\03-04-05-ERROR.json");
}

#[test]
fn composed_entry_holds_all_parts() {
    let file = compose_at(&first_of_march(), "ERROR", "Backup transaction failed: x");
    assert_eq!(file.dir, "2024-03-01-LOGS");
    assert_eq!(file.path, "2024-03-01-LOGS\\10-00-00-ERROR.json");
    assert_eq!(file.entry.log_type, "ERROR");
    assert_eq!(file.entry.time_date, "DATE:2024-03-01 TIME:10:00:00");
    assert_eq!(file.entry.logs, "Backup transaction failed: x");
}

#[test]
fn entry_made_now_speaks_of_one_instant() {
    let file = compose("SUCCESS", "done");
    assert_eq!(file.entry.log_type, "SUCCESS");
    assert_eq!(file.entry.logs, "done");
    assert_eq!(file.dir.len(), 15);
    assert!(file.dir.ends_with("-LOGS"));
    let date = &file.dir[..10];
    assert!(file.path.starts_with(&format!("{}\\", file.dir)));
    assert!(file.path.ends_with("-SUCCESS.json"));
    let time = &file.path[16..24];
    assert_eq!(file.entry.time_date, format!("DATE:{} TIME:{}", date, time.replace('-', ":")));
}

#[test]
fn sole_instance_only_when_the_marker_is_new() {
    assert!(check_single_instance(false, 0));
    assert!(check_single_instance(false, 5));
    assert!(!check_single_instance(false, ERROR_ALREADY_EXISTS));
    assert!(!check_single_instance(false, 183));
    assert!(!check_single_instance(true, 0));
    assert!(!check_single_instance(true, 183));
}

#[test]
fn wide_name_is_utf16_with_a_zero_at_the_end() {
    for name in ["", "a", "Global\\SilentBackupAppMutex", "\u{e9}\u{20ac}", "\u{1F600}x\u{10FFFF}\u{10000}\u{FFFF}"] {
        let expected: Vec<u16> = name.encode_utf16().chain(std::iter::once(0)).collect();
        assert_eq!(wide_name(name), expected);
    }
    assert_eq!(wide_name("A\u{1F600}"), vec![0x41, 0xD83D, 0xDE00, 0]);
}
