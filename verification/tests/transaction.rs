use silent_backup::outcome::{Category, TransactionOutcome};
use silent_backup::plan::Plan;
use silent_backup::timestamp::Timestamp;
use silent_backup::transaction::{
    Action, ErrorKind, Event, Phase, Transaction, TransactionError,
};
use std::collections::BTreeMap;

type Tree = BTreeMap<String, Vec<u8>>;

/// A destination root held in memory: each directory by its path.
struct Disk {
    dirs: BTreeMap<String, Tree>,
    broken: Vec<Action>,
    log: Vec<Action>,
}

impl Disk {
    fn new() -> Disk {
        Disk { dirs: BTreeMap::new(), broken: Vec::new(), log: Vec::new() }
    }

    fn breaking(mut self, action: Action) -> Disk {
        self.broken.push(action);
        self
    }

    fn holding(mut self, path: &str, tree: Tree) -> Disk {
        self.dirs.insert(path.to_string(), tree);
        self
    }

    fn perform(&mut self, action: Action, plan: &Plan, source: &Tree) -> Event {
        self.log.push(action);
        let staging = plan.staging_path.clone();
        let broken = self.broken.contains(&action);
        match action {
            Action::ProbeStaging => {
                if self.dirs.contains_key(&staging) {
                    Event::Present
                } else {
                    Event::Absent
                }
            }
            Action::RemoveStaging => {
                if broken {
                    Event::Failed("access denied".to_string())
                } else {
                    self.dirs.remove(&staging);
                    Event::Done
                }
            }
            Action::CreateStaging => {
                if broken {
                    Event::Failed("read-only file system".to_string())
                } else {
                    self.dirs.entry(staging).or_default();
                    Event::Done
                }
            }
            Action::CopySource => {
                if broken {
                    let half = self.dirs.entry(staging).or_default();
                    half.insert("partial.bin".to_string(), vec![0]);
                    Event::Failed("disk full".to_string())
                } else {
                    let into = self.dirs.get_mut(&staging).unwrap();
                    for (name, bytes) in source {
                        into.insert(name.clone(), bytes.clone());
                    }
                    Event::Done
                }
            }
            Action::Rename => {
                if broken || self.dirs.contains_key(&plan.final_path) {
                    Event::Failed("directory not empty".to_string())
                } else {
                    let tree = self.dirs.remove(&staging).unwrap();
                    self.dirs.insert(plan.final_path.clone(), tree);
                    Event::Done
                }
            }
            Action::Finish => Event::Done,
        }
    }
}

fn docs() -> Tree {
    let mut tree = Tree::new();
    tree.insert("a.txt".to_string(), b"hi".to_vec());
    tree
}

fn first_of_march() -> Timestamp {
    Timestamp { year: 2024, month: 3, day: 1, hour: 10, minute: 0, second: 0 }
}

const FINAL: &str = "/backups/2024-03-01_10-00-00";
const STAGING: &str = "/backups/2024-03-01_10-00-00.tmp";

fn plan() -> Plan {
    Plan::from_parts(
        "2024-03-01_10-00-00".to_string(),
        FINAL.to_string(),
        STAGING.to_string(),
    )
}

/// Runs one transaction on `disk` to its end.
fn run(disk: &mut Disk, source: &Tree) -> Result<String, TransactionError> {
    let mut transaction = Transaction::start_with("/data/docs", true, plan()).unwrap();
    let mut action = transaction.next_action();
    let mut steps = 0;
    while action != Action::Finish {
        let event = disk.perform(action, transaction.plan(), source);
        action = transaction.advance(event);
        steps += 1;
        assert!(steps <= 5, "a transaction takes at most five actions");
    }
    assert!(transaction.is_finished());
    transaction.outcome().unwrap()
}

#[test]
fn one_file_is_backed_up_and_recorded() {
    let mut disk = Disk::new();
    let result = run(&mut disk, &docs());
    assert_eq!(result, Ok(FINAL.to_string()));
    assert_eq!(disk.dirs.len(), 1);
    assert_eq!(disk.dirs[FINAL]["a.txt"], b"hi".to_vec());
    assert!(!disk.dirs.contains_key(STAGING));
    assert_eq!(
        disk.log,
        vec![Action::ProbeStaging, Action::CreateStaging, Action::CopySource, Action::Rename]
    );
    let record = TransactionOutcome::classify(result).record();
    assert_eq!(record.category, Category::Success);
    assert_eq!(record.category.as_str(), "SUCCESS");
    assert!(record.message.contains(FINAL));
    assert_eq!(record.message, format!("Backup completed successfully to: {}", FINAL));
}

#[test]
fn success_leaves_exactly_one_new_directory() {
    let mut older = Tree::new();
    older.insert("old.txt".to_string(), b"old".to_vec());
    let mut disk = Disk::new().holding("/backups/2023-01-01_00-00-00", older.clone());
    let mut source = docs();
    source.insert("sub/b.bin".to_string(), vec![1, 2, 3]);
    let result = run(&mut disk, &source);
    assert_eq!(result, Ok(FINAL.to_string()));
    assert_eq!(disk.dirs.len(), 2);
    assert_eq!(disk.dirs[FINAL], source);
    assert_eq!(disk.dirs["/backups/2023-01-01_00-00-00"], older);
    assert!(disk.dirs.keys().all(|name| !name.ends_with(".tmp")));
}

#[test]
fn missing_source_fails_before_any_action() {
    let started = Transaction::start_with("/data/none", false, plan());
    let error = started.err().unwrap();
    assert_eq!(error.kind, ErrorKind::SourceInvalid);
    assert_eq!(
        error.message,
        "Source folder '/data/none' does not exist or is not a directory"
    );
    let error = Transaction::start_at("/data/none", "/backups", false, &first_of_march())
        .err()
        .unwrap();
    assert_eq!(error.kind, ErrorKind::SourceInvalid);
    let error = Transaction::start("/data/none", "/backups", false).err().unwrap();
    assert_eq!(error.kind, ErrorKind::SourceInvalid);
    assert_eq!(
        error.message,
        "Source folder '/data/none' does not exist or is not a directory"
    );
}

#[test]
fn failed_copy_removes_staging_and_commits_nothing() {
    let mut disk = Disk::new().breaking(Action::CopySource);
    let error = run(&mut disk, &docs()).unwrap_err();
    assert_eq!(error.kind, ErrorKind::CopyFailed);
    assert_eq!(error.message, "Copy operation failed: disk full");
    assert!(disk.dirs.is_empty());
    assert_eq!(
        disk.log,
        vec![
            Action::ProbeStaging,
            Action::CreateStaging,
            Action::CopySource,
            Action::RemoveStaging
        ]
    );
}

#[test]
fn failed_copy_with_failed_cleanup_is_told_apart() {
    let mut disk = Disk::new().breaking(Action::CopySource).breaking(Action::RemoveStaging);
    let error = run(&mut disk, &docs()).unwrap_err();
    assert_eq!(error.kind, ErrorKind::CopyCleanupFailed);
    assert_eq!(
        error.message,
        format!("Failed to cleanup failed temporary directory: {}: access denied", STAGING)
    );
    assert!(!disk.dirs.contains_key(FINAL));
    assert!(disk.dirs.keys().all(|name| name.ends_with(".tmp")));
}

#[test]
fn stale_staging_is_removed_first() {
    let mut debris = Tree::new();
    debris.insert("half.bin".to_string(), vec![9]);
    let mut disk = Disk::new().holding(STAGING, debris);
    let result = run(&mut disk, &docs());
    assert_eq!(result, Ok(FINAL.to_string()));
    assert_eq!(disk.log[0], Action::ProbeStaging);
    assert_eq!(disk.log[1], Action::RemoveStaging);
    assert_eq!(disk.log.len(), 5);
    assert_eq!(disk.dirs.len(), 1);
    assert_eq!(disk.dirs[FINAL], docs());
}

#[test]
fn stale_staging_that_cannot_be_removed_is_fatal() {
    let mut debris = Tree::new();
    debris.insert("half.bin".to_string(), vec![9]);
    let mut disk = Disk::new().holding(STAGING, debris.clone()).breaking(Action::RemoveStaging);
    let error = run(&mut disk, &docs()).unwrap_err();
    assert_eq!(error.kind, ErrorKind::StaleStagingCleanupFailed);
    assert_eq!(
        error.message,
        format!("Failed to remove stale temporary directory: {}: access denied", STAGING)
    );
    assert_eq!(disk.log, vec![Action::ProbeStaging, Action::RemoveStaging]);
    assert_eq!(disk.dirs[STAGING], debris);
}

#[test]
fn unwritable_root_is_left_as_it_was() {
    let mut older = Tree::new();
    older.insert("old.txt".to_string(), b"old".to_vec());
    let mut disk =
        Disk::new().holding("/backups/2023-01-01_00-00-00", older).breaking(Action::CreateStaging);
    let before = disk.dirs.clone();
    let error = run(&mut disk, &docs()).unwrap_err();
    assert_eq!(error.kind, ErrorKind::StagingCreateFailed);
    assert_eq!(
        error.message,
        format!("Failed to create temporary directory: {}: read-only file system", STAGING)
    );
    assert_eq!(disk.dirs, before);
    assert_eq!(disk.log, vec![Action::ProbeStaging, Action::CreateStaging]);
}

#[test]
fn failed_rename_keeps_the_staging_directory() {
    let mut disk = Disk::new().breaking(Action::Rename);
    let error = run(&mut disk, &docs()).unwrap_err();
    assert_eq!(error.kind, ErrorKind::RenameFailed);
    assert_eq!(
        error.message,
        "Failed to atomically rename backup folder to its final destination: directory not empty"
    );
    assert!(!disk.dirs.contains_key(FINAL));
    assert_eq!(disk.dirs[STAGING], docs());
}

#[test]
fn committed_backup_of_the_same_second_is_not_overwritten() {
    let mut first = Tree::new();
    first.insert("first.txt".to_string(), b"1".to_vec());
    let mut disk = Disk::new().holding(FINAL, first.clone());
    let error = run(&mut disk, &docs()).unwrap_err();
    assert_eq!(error.kind, ErrorKind::RenameFailed);
    assert_eq!(disk.dirs[FINAL], first);
}

#[test]
fn event_that_answers_nothing_changes_nothing() {
    let mut transaction = Transaction::start_with("/data/docs", true, plan()).unwrap();
    assert_eq!(transaction.advance(Event::Done), Action::ProbeStaging);
    assert_eq!(transaction.advance(Event::Failed("x".to_string())), Action::ProbeStaging);
    assert_eq!(*transaction.phase(), Phase::ProbeStaging);
    assert_eq!(transaction.advance(Event::Absent), Action::CreateStaging);
    assert_eq!(transaction.advance(Event::Present), Action::CreateStaging);
    assert_eq!(transaction.advance(Event::Absent), Action::CreateStaging);
    assert_eq!(transaction.outcome(), None);
    assert_eq!(transaction.advance(Event::Done), Action::CopySource);
    assert_eq!(transaction.advance(Event::Done), Action::Rename);
    assert_eq!(transaction.advance(Event::Done), Action::Finish);
    assert_eq!(transaction.advance(Event::Failed("late".to_string())), Action::Finish);
    assert_eq!(transaction.advance(Event::Done), Action::Finish);
    assert_eq!(transaction.outcome(), Some(Ok(FINAL.to_string())));
}

#[test]
fn getters_give_what_the_transaction_was_started_with() {
    let transaction = Transaction::start_with("/data/docs", true, plan()).unwrap();
    assert_eq!(transaction.source(), "/data/docs");
    assert_eq!(*transaction.plan(), plan());
    assert!(!transaction.is_finished());
    assert_eq!(transaction.next_action(), Action::ProbeStaging);
}

#[test]
fn every_kind_has_its_message() {
    let text = |kind| TransactionError::new(kind, "P", "C").message;
    assert_eq!(
        text(ErrorKind::SourceInvalid),
        "Source folder 'P' does not exist or is not a directory"
    );
    assert_eq!(
        text(ErrorKind::StaleStagingCleanupFailed),
        "Failed to remove stale temporary directory: P: C"
    );
    assert_eq!(text(ErrorKind::StagingCreateFailed), "Failed to create temporary directory: P: C");
    assert_eq!(text(ErrorKind::CopyFailed), "Copy operation failed: C");
    assert_eq!(
        text(ErrorKind::CopyCleanupFailed),
        "Failed to cleanup failed temporary directory: P: C"
    );
    assert_eq!(
        text(ErrorKind::RenameFailed),
        "Failed to atomically rename backup folder to its final destination: C"
    );
}

#[test]
fn start_at_names_the_backup_by_the_instant() {
    let transaction =
        Transaction::start_at("/data/docs", "/backups", true, &first_of_march()).unwrap();
    assert_eq!(transaction.plan().label, "2024-03-01_10-00-00");
    assert_eq!(transaction.plan().staging_name, "2024-03-01_10-00-00.tmp");
    assert_eq!(transaction.source(), "/data/docs");
    assert_eq!(transaction.next_action(), Action::ProbeStaging);
    if std::path::MAIN_SEPARATOR == '/' {
        assert_eq!(transaction.plan().final_path, FINAL);
        assert_eq!(transaction.plan().staging_path, STAGING);
    }
}

#[test]
fn start_reads_the_clock() {
    let transaction = Transaction::start("/data/docs", "/backups", true).unwrap();
    let label = transaction.plan().label.clone();
    let bytes = label.as_bytes();
    assert_eq!(bytes.len(), 19, "label {label}");
    for (i, b) in bytes.iter().enumerate() {
        match i {
            4 | 7 | 13 | 16 => assert_eq!(*b, b'-'),
            10 => assert_eq!(*b, b'_'),
            _ => assert!(b.is_ascii_digit()),
        }
    }
    let number = |from: usize, to: usize| label[from..to].parse::<u32>().unwrap();
    assert!(number(0, 4) >= 2024);
    assert!((1..=12).contains(&number(5, 7)));
    assert!((1..=31).contains(&number(8, 10)));
    assert!(number(11, 13) <= 23);
    assert!(number(14, 16) <= 59);
    assert!(number(17, 19) <= 59);
    assert_eq!(transaction.plan().staging_name, format!("{label}.tmp"));
    assert!(transaction.plan().final_path.ends_with(&label));
    assert!(transaction.plan().staging_path.ends_with(".tmp"));
}
