use silent_backup::outcome::{Category, LogRecord, TransactionOutcome};
use silent_backup::scheduler::{BackupSpec, Command, Scheduler, Signal, Stage};
use silent_backup::settings::{AppSettings, Backup, Settings, DEFAULT_CONFIG};
use silent_backup::transaction::{ErrorKind, TransactionError};

fn spec(interval_secs: u64) -> BackupSpec {
    BackupSpec {
        source_path: "/data/docs".to_string(),
        destination_root: "/backups".to_string(),
        interval_secs,
    }
}

fn failure(n: usize) -> TransactionOutcome {
    TransactionOutcome::Failure { message: format!("failure {n}") }
}

#[test]
fn failing_ticks_are_all_recorded_and_slept() {
    let mut scheduler = Scheduler::new(spec(90));
    assert_eq!(scheduler.command(), Command::RunTransaction);
    let mut records = Vec::new();
    let mut sleeps = Vec::new();
    let ticks = 7;
    for n in 0..ticks {
        match scheduler.step(Signal::Finished(failure(n))) {
            Command::Record(record) => records.push(record),
            other => panic!("expected a record, got {other:?}"),
        }
        match scheduler.step(Signal::Recorded) {
            Command::Sleep(seconds) => sleeps.push(seconds),
            other => panic!("expected a sleep, got {other:?}"),
        }
        assert_eq!(scheduler.step(Signal::Woke), Command::RunTransaction);
    }
    assert_eq!(records.len(), ticks);
    assert_eq!(sleeps, vec![90; ticks]);
    for (n, record) in records.iter().enumerate() {
        assert_eq!(record.category, Category::Error);
        assert_eq!(record.category.as_str(), "ERROR");
        assert_eq!(record.message, format!("Backup transaction failed: failure {n}"));
    }
    assert_eq!(*scheduler.stage(), Stage::Running);
}

#[test]
fn success_is_recorded_and_slept_like_a_failure() {
    let mut scheduler = Scheduler::new(spec(0));
    let outcome = TransactionOutcome::Success { final_path: "/backups/x".to_string() };
    assert_eq!(
        scheduler.step(Signal::Finished(outcome)),
        Command::Record(LogRecord {
            category: Category::Success,
            message: "Backup completed successfully to: /backups/x".to_string(),
        })
    );
    assert_eq!(scheduler.step(Signal::Recorded), Command::Sleep(0));
    assert_eq!(scheduler.step(Signal::Woke), Command::RunTransaction);
}

#[test]
fn record_that_cannot_be_written_stops_the_loop() {
    let mut scheduler = Scheduler::new(spec(5));
    scheduler.step(Signal::Finished(failure(0)));
    assert_eq!(
        scheduler.step(Signal::RecordFailed("no space".to_string())),
        Command::Stop("no space".to_string())
    );
    assert_eq!(scheduler.step(Signal::Woke), Command::Stop("no space".to_string()));
    assert_eq!(scheduler.step(Signal::Recorded), Command::Stop("no space".to_string()));
    assert_eq!(scheduler.step(Signal::Finished(failure(1))), Command::Stop("no space".to_string()));
    assert_eq!(*scheduler.stage(), Stage::Stopped("no space".to_string()));
}

#[test]
fn signal_that_answers_nothing_changes_nothing() {
    let mut scheduler = Scheduler::new(spec(5));
    assert_eq!(scheduler.step(Signal::Woke), Command::RunTransaction);
    assert_eq!(scheduler.step(Signal::Recorded), Command::RunTransaction);
    assert_eq!(scheduler.step(Signal::RecordFailed("x".to_string())), Command::RunTransaction);
    let record = scheduler.step(Signal::Finished(failure(3)));
    assert_eq!(scheduler.step(Signal::Woke), record);
    assert_eq!(scheduler.step(Signal::Finished(failure(4))), record);
    assert_eq!(scheduler.step(Signal::Recorded), Command::Sleep(5));
    assert_eq!(scheduler.step(Signal::Recorded), Command::Sleep(5));
    assert_eq!(scheduler.step(Signal::Finished(failure(5))), Command::Sleep(5));
}

#[test]
fn scheduler_keeps_its_spec() {
    let scheduler = Scheduler::new(spec(42));
    assert_eq!(scheduler.source_path(), "/data/docs");
    assert_eq!(scheduler.destination_root(), "/backups");
    assert_eq!(scheduler.interval_secs(), 42);
}

#[test]
fn outcomes_are_classified() {
    assert_eq!(
        TransactionOutcome::classify(Ok("/backups/x".to_string())),
        TransactionOutcome::Success { final_path: "/backups/x".to_string() }
    );
    let error = TransactionError::new(ErrorKind::CopyFailed, "", "disk full");
    let outcome = TransactionOutcome::classify(Err(error));
    assert_eq!(
        outcome,
        TransactionOutcome::Failure { message: "Copy operation failed: disk full".to_string() }
    );
    assert!(!outcome.is_success());
    assert!(TransactionOutcome::classify(Ok(String::new())).is_success());
    assert_eq!(
        outcome.record().message,
        "Backup transaction failed: Copy operation failed: disk full"
    );
}

fn backup(hours: u32, minutes: u32, seconds: u32) -> Backup {
    Backup {
        src_dir: "C:\\docs".to_string(),
        dst_dir: "D:\\Backups".to_string(),
        hours,
        minutes,
        seconds,
    }
}

#[test]
fn interval_is_the_sum_in_seconds() {
    assert_eq!(backup(0, 0, 0).interval_secs(), 0);
    assert_eq!(backup(24, 0, 0).interval_secs(), 86_400);
    assert_eq!(backup(1, 2, 3).interval_secs(), 3_723);
    assert_eq!(backup(0, 90, 90).interval_secs(), 5_490);
    assert_eq!(
        backup(u32::MAX, u32::MAX, u32::MAX).interval_secs(),
        4_294_967_295u64 * 3_661
    );
}

#[test]
fn settings_become_the_spec() {
    let settings = Settings { app: AppSettings { debug: true }, backup: backup(0, 1, 30) };
    let spec = settings.backup.to_spec();
    assert_eq!(spec.source_path, "C:\\docs");
    assert_eq!(spec.destination_root, "D:\\Backups");
    assert_eq!(spec.interval_secs, 90);
    assert!(settings.app.debug);
}

#[test]
fn default_config_names_every_field() {
    for line in [
        "[app]",
        "debug = true",
        "[backup]",
        "src_dir = \"C:\\\\replace\\\\with\\\\your\\\\source\\\\folder\"",
        "dst_dir = \"D:\\\\replace\\\\with\\\\your\\\\backup\\\\destination\"",
        "hours = 24",
        "minutes = 0",
        "seconds = 0",
    ] {
        assert!(DEFAULT_CONFIG.lines().any(|l| l == line), "missing line {line}");
    }
    assert!(DEFAULT_CONFIG.starts_with("\n[app]\n"));
    assert!(DEFAULT_CONFIG.ends_with("seconds = 0\n"));
}
