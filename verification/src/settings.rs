//! The settings record that the service is started with.

use crate::scheduler::BackupSpec;
use vstd::prelude::*;

verus! {

/// The text of the settings file that is written where none is found.
pub const DEFAULT_CONFIG: &'static str = r#"
[app]
# Set to true to prevent the console window from being hidden.
# To see the output, you must run this executable from an existing command prompt (cmd.exe or PowerShell).
# The '#![windows_subsystem = "windows"]' directive in the code means a new console window
# will NOT be created if you just double-click the .exe.
debug = true

[backup]
# Path to the directory you want to back up.
# IMPORTANT: You must change this path.
# Example: src_dir = "C:\\Users\\YourUser\\Documents"
src_dir = "C:\\replace\\with\\your\\source\\folder"

# Path to the directory where backups will be stored.
# IMPORTANT: You must change this path.
# Example: dst_dir = "D:\\Backups"
dst_dir = "D:\\replace\\with\\your\\backup\\destination"

# Backup interval. The app will back up the folder every X hours, Y minutes, Z seconds.
# Default is every 24 hours.
hours = 24
minutes = 0
seconds = 0
"#;

/// The `[app]` section.
#[derive(Clone, Copy, Debug, PartialEq, Eq, Structural)]
pub struct AppSettings {
    /// Whether the console window stays visible.
    pub debug: bool,
}

/// The `[backup]` section.
#[derive(Clone, Debug, PartialEq, Eq)]
pub struct Backup {
    pub src_dir: String,
    pub dst_dir: String,
    pub hours: u32,
    pub minutes: u32,
    pub seconds: u32,
}

/// The whole settings file.
#[derive(Clone, Debug, PartialEq, Eq)]
pub struct Settings {
    pub app: AppSettings,
    pub backup: Backup,
}

/// The seconds in `hours`, `minutes` and `seconds` together.
pub open spec fn interval_of(hours: u32, minutes: u32, seconds: u32) -> int {
    hours * 3600 + minutes * 60 + seconds
}

impl Backup {
    /// The interval between two backups, in seconds. A zero interval means
    /// one backup right after the other.
    pub fn interval_secs(&self) -> (total: u64)
        ensures
            total == interval_of(self.hours, self.minutes, self.seconds),
    {
        let hours: u64 = self.hours as u64;
        let minutes: u64 = self.minutes as u64;
        let seconds: u64 = self.seconds as u64;
        hours * 3600 + minutes * 60 + seconds
    }

    /// What the scheduler is to do by these settings.
    pub fn to_spec(&self) -> (spec: BackupSpec)
        ensures
            spec.source_path@ == self.src_dir@,
            spec.destination_root@ == self.dst_dir@,
            spec.interval_secs == interval_of(self.hours, self.minutes, self.seconds),
    {
        BackupSpec {
            source_path: self.src_dir.clone(),
            destination_root: self.dst_dir.clone(),
            interval_secs: self.interval_secs(),
        }
    }
}

} // verus!
