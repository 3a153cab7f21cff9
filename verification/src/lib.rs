//! Staged, atomically committed directory backups on a fixed schedule.
//!
//! The library holds every decision of the backup service: how a backup is
//! named, in which order the staging directory is prepared, filled and
//! committed, what each failure is called, how the scheduler reacts to an
//! outcome, and when a process may consider itself the only running instance.
//! The caller performs the filesystem work and the waiting, one action at a
//! time, and reports back what happened.

pub mod clock;
pub mod digits;
pub mod guard;
pub mod label_order;
pub mod log_entry;
pub mod outcome;
pub mod plan;
pub mod protocol;
pub mod scheduler;
pub mod settings;
pub mod timestamp;
pub mod transaction;
