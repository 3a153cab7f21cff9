//! The entry that is written to the log for one outcome, and where it goes.
//!
//! Each entry is a file of its own, in a directory named after the day, and
//! is itself named after the time of day and the category.

use crate::clock::local_now;
use crate::timestamp::Timestamp;
use vstd::prelude::*;

verus! {

/// One entry of the log.
#[derive(Clone, Debug, PartialEq, Eq)]
pub struct LogEntry {
    /// The category: `SUCCESS` or `ERROR`.
    pub log_type: String,
    /// When the entry was made.
    pub time_date: String,
    /// What happened.
    pub logs: String,
}

/// An entry together with the directory and the file that it is written to.
#[derive(Clone, Debug, PartialEq, Eq)]
pub struct LogFile {
    /// The directory of the day.
    pub dir: String,
    /// The file of the entry, in that directory.
    pub path: String,
    /// The entry.
    pub entry: LogEntry,
}

/// The instant as it stands in an entry: `DATE:YYYY-MM-DD TIME:HH:MM:SS`.
pub open spec fn time_date_text(now: Timestamp) -> Seq<char> {
    "DATE:"@ + now.date_text() + " TIME:"@ + now.time_text(':')
}

/// The name of the directory of the day: `YYYY-MM-DD-LOGS`.
pub open spec fn logs_dir_text(now: Timestamp) -> Seq<char> {
    now.date_text() + "-LOGS"@
}

/// The path of the file of an entry: the directory of the day, a backslash,
/// and `HH-MM-SS-` with the category and `.json`.
pub open spec fn log_file_text(now: Timestamp, log_type: Seq<char>) -> Seq<char> {
    logs_dir_text(now) + "\\"@ + now.time_text('-') + "-"@ + log_type + ".json"@
}

/// What is written for `log_type` and `message` at `now`, and where.
pub open spec fn composed(file: LogFile, now: Timestamp, log_type: Seq<char>, message: Seq<char>)
    -> bool {
    &&& file.dir@ == logs_dir_text(now)
    &&& file.path@ == log_file_text(now, log_type)
    &&& file.entry.log_type@ == log_type
    &&& file.entry.time_date@ == time_date_text(now)
    &&& file.entry.logs@ == message
}

/// The instant as it stands in an entry.
pub fn time_date(now: &Timestamp) -> (text: String)
    ensures
        text@ == time_date_text(*now),
{
    let mut text = String::from_str("DATE:");
    now.append_date(&mut text);
    text.append(" TIME:");
    now.append_time_colons(&mut text);
    assert(text@ =~= time_date_text(*now));
    text
}

/// The name of the directory of the day.
pub fn logs_dir_name(now: &Timestamp) -> (name: String)
    ensures
        name@ == logs_dir_text(*now),
{
    let mut name = String::new();
    now.append_date(&mut name);
    name.append("-LOGS");
    assert(name@ =~= logs_dir_text(*now));
    name
}

/// The path of the file of an entry of the category `log_type`.
pub fn log_file_path(now: &Timestamp, log_type: &str) -> (path: String)
    ensures
        path@ == log_file_text(*now, log_type@),
{
    let mut path = logs_dir_name(now);
    path.append("\\");
    now.append_time_dashed(&mut path);
    path.append("-");
    path.append(log_type);
    path.append(".json");
    assert(path@ =~= log_file_text(*now, log_type@));
    path
}

/// The entry for `log_type` and `message` made at `now`, with its directory
/// and file.
pub fn compose_at(now: &Timestamp, log_type: &str, message: &str) -> (file: LogFile)
    ensures
        composed(file, *now, log_type@, message@),
{
    LogFile {
        dir: logs_dir_name(now),
        path: log_file_path(now, log_type),
        entry: LogEntry {
            log_type: String::from_str(log_type),
            time_date: time_date(now),
            logs: String::from_str(message),
        },
    }
}

/// The entry for `log_type` and `message` made now, by the local wall
/// clock: directory, file and entry all speak of one reading of the clock.
pub fn compose(log_type: &str, message: &str) -> (file: LogFile)
    ensures
        exists|now: Timestamp| now.wf() && #[trigger] composed(file, now, log_type@, message@),
{
    let now = local_now();
    compose_at(&now, log_type, message)
}

} // verus!
