//! One backup transaction: a staged copy followed by an atomic commit.
//!
//! The transaction decides; the caller acts. After every step the
//! transaction names the one action that is due, the caller performs it on
//! the filesystem and reports the event, and the transaction moves on. A
//! backup becomes visible under its final name only by the rename that ends a
//! complete copy.

use crate::clock::local_now;
use crate::plan::{Plan, PlanView};
use crate::timestamp::Timestamp;
use vstd::prelude::*;

verus! {

/// The ways in which a transaction fails.
#[derive(Clone, Copy, Debug, PartialEq, Eq, Structural)]
pub enum ErrorKind {
    /// The source does not exist or is no directory.
    SourceInvalid,
    /// A staging directory left by an earlier run could not be removed.
    StaleStagingCleanupFailed,
    /// The staging directory could not be created.
    StagingCreateFailed,
    /// The copy failed; the staging directory was removed.
    CopyFailed,
    /// The copy failed, and removing the staging directory failed too.
    CopyCleanupFailed,
    /// The copy succeeded, but the rename to the final name failed.
    RenameFailed,
}

/// The message of a failure of `kind` on the path `subject`, caused by what
/// `cause` says. Not every kind names a path or a cause.
pub open spec fn error_text(kind: ErrorKind, subject: Seq<char>, cause: Seq<char>) -> Seq<char> {
    match kind {
        ErrorKind::SourceInvalid => "Source folder '"@ + subject
            + "' does not exist or is not a directory"@,
        ErrorKind::StaleStagingCleanupFailed => "Failed to remove stale temporary directory: "@
            + subject + ": "@ + cause,
        ErrorKind::StagingCreateFailed => "Failed to create temporary directory: "@ + subject
            + ": "@ + cause,
        ErrorKind::CopyFailed => "Copy operation failed: "@ + cause,
        ErrorKind::CopyCleanupFailed => "Failed to cleanup failed temporary directory: "@ + subject
            + ": "@ + cause,
        ErrorKind::RenameFailed =>
            "Failed to atomically rename backup folder to its final destination: "@ + cause,
    }
}

/// A copy that failed and a cleanup that failed are told apart by their
/// messages, whatever path and cause they name.
pub proof fn law_cleanup_failure_is_told_apart(
    copy_cause: Seq<char>,
    staging_path: Seq<char>,
    cleanup_cause: Seq<char>,
)
    ensures
        error_text(ErrorKind::CopyFailed, Seq::empty(), copy_cause) != error_text(
            ErrorKind::CopyCleanupFailed,
            staging_path,
            cleanup_cause,
        ),
{
    reveal_strlit("Copy operation failed: ");
    reveal_strlit("Failed to cleanup failed temporary directory: ");
    let copy = error_text(ErrorKind::CopyFailed, Seq::empty(), copy_cause);
    let cleanup = error_text(ErrorKind::CopyCleanupFailed, staging_path, cleanup_cause);
    assert(copy[0] == 'C');
    assert(cleanup[0] == 'F');
}

/// A failed transaction: what went wrong, and a message to read.
#[derive(Clone, Debug, PartialEq, Eq)]
pub struct TransactionError {
    pub kind: ErrorKind,
    pub message: String,
}

/// A failure as plain text.
pub struct FailureView {
    pub kind: ErrorKind,
    pub message: Seq<char>,
}

impl View for TransactionError {
    type V = FailureView;

    open spec fn view(&self) -> FailureView {
        FailureView { kind: self.kind, message: self.message@ }
    }
}

impl TransactionError {
    /// The failure of `kind` on the path `subject`, caused by `cause`.
    pub fn new(kind: ErrorKind, subject: &str, cause: &str) -> (error: TransactionError)
        ensures
            error@.kind == kind,
            error@.message == error_text(kind, subject@, cause@),
    {
        let mut message = String::new();
        match kind {
            ErrorKind::SourceInvalid => {
                message.append("Source folder '");
                message.append(subject);
                message.append("' does not exist or is not a directory");
            },
            ErrorKind::StaleStagingCleanupFailed => {
                message.append("Failed to remove stale temporary directory: ");
                message.append(subject);
                message.append(": ");
                message.append(cause);
            },
            ErrorKind::StagingCreateFailed => {
                message.append("Failed to create temporary directory: ");
                message.append(subject);
                message.append(": ");
                message.append(cause);
            },
            ErrorKind::CopyFailed => {
                message.append("Copy operation failed: ");
                message.append(cause);
            },
            ErrorKind::CopyCleanupFailed => {
                message.append("Failed to cleanup failed temporary directory: ");
                message.append(subject);
                message.append(": ");
                message.append(cause);
            },
            ErrorKind::RenameFailed => {
                message.append(
                    "Failed to atomically rename backup folder to its final destination: ",
                );
                message.append(cause);
            },
        }
        assert(message@ =~= error_text(kind, subject@, cause@));
        TransactionError { kind, message }
    }
}

/// Where a transaction stands.
#[derive(Clone, Debug, PartialEq, Eq)]
pub enum Phase {
    /// Asking whether a staging directory of the same name is left over.
    ProbeStaging,
    /// Removing the staging directory that an earlier run left.
    RemoveStale,
    /// Creating the staging directory.
    CreateStaging,
    /// Copying the source into the staging directory.
    CopySource,
    /// Removing the staging directory after a copy that failed for the
    /// reason given.
    RemoveFailedCopy(String),
    /// Renaming the staging directory to the final name.
    Commit,
    /// Ended: the backup stands under its final name.
    Committed,
    /// Ended: the transaction failed.
    Failed(TransactionError),
}

/// A phase as plain text.
pub enum PhaseView {
    ProbeStaging,
    RemoveStale,
    CreateStaging,
    CopySource,
    RemoveFailedCopy(Seq<char>),
    Commit,
    Committed,
    Failed(FailureView),
}

impl View for Phase {
    type V = PhaseView;

    open spec fn view(&self) -> PhaseView {
        match self {
            Phase::ProbeStaging => PhaseView::ProbeStaging,
            Phase::RemoveStale => PhaseView::RemoveStale,
            Phase::CreateStaging => PhaseView::CreateStaging,
            Phase::CopySource => PhaseView::CopySource,
            Phase::RemoveFailedCopy(cause) => PhaseView::RemoveFailedCopy(cause@),
            Phase::Commit => PhaseView::Commit,
            Phase::Committed => PhaseView::Committed,
            Phase::Failed(error) => PhaseView::Failed(error@),
        }
    }
}

/// What the caller is to do next.
#[derive(Clone, Copy, Debug, PartialEq, Eq, Structural)]
pub enum Action {
    /// Find out whether the staging path exists.
    ProbeStaging,
    /// Remove the staging path and all below it.
    RemoveStaging,
    /// Create the staging path, with any missing parent.
    CreateStaging,
    /// Copy all that lies under the source into the staging path.
    CopySource,
    /// Rename the staging path to the final path, in one step.
    Rename,
    /// Nothing: the transaction has ended.
    Finish,
}

/// The action that is due in a phase.
pub open spec fn action_of(phase: PhaseView) -> Action {
    match phase {
        PhaseView::ProbeStaging => Action::ProbeStaging,
        PhaseView::RemoveStale => Action::RemoveStaging,
        PhaseView::CreateStaging => Action::CreateStaging,
        PhaseView::CopySource => Action::CopySource,
        PhaseView::RemoveFailedCopy(_) => Action::RemoveStaging,
        PhaseView::Commit => Action::Rename,
        PhaseView::Committed => Action::Finish,
        PhaseView::Failed(_) => Action::Finish,
    }
}

/// What the caller reports after an action.
#[derive(Clone, Debug, PartialEq, Eq)]
pub enum Event {
    /// The probed path exists.
    Present,
    /// The probed path does not exist.
    Absent,
    /// The action succeeded.
    Done,
    /// The action failed, for the reason given.
    Failed(String),
}

/// An event as plain text.
pub enum EventView {
    Present,
    Absent,
    Done,
    Failed(Seq<char>),
}

impl View for Event {
    type V = EventView;

    open spec fn view(&self) -> EventView {
        match self {
            Event::Present => EventView::Present,
            Event::Absent => EventView::Absent,
            Event::Done => EventView::Done,
            Event::Failed(cause) => EventView::Failed(cause@),
        }
    }
}

/// The failure of `kind` on the path `subject`, caused by `cause`.
pub open spec fn failure(kind: ErrorKind, subject: Seq<char>, cause: Seq<char>) -> PhaseView {
    PhaseView::Failed(FailureView { kind, message: error_text(kind, subject, cause) })
}

/// The phase that follows `phase` when the caller reports `event`, for a
/// transaction whose staging directory lies at `staging_path`. An event that
/// does not answer the action that is due changes nothing.
pub open spec fn next_phase(phase: PhaseView, event: EventView, staging_path: Seq<char>)
    -> PhaseView {
    match (phase, event) {
        (PhaseView::ProbeStaging, EventView::Present) => PhaseView::RemoveStale,
        (PhaseView::ProbeStaging, EventView::Absent) => PhaseView::CreateStaging,
        (PhaseView::RemoveStale, EventView::Done) => PhaseView::CreateStaging,
        (PhaseView::RemoveStale, EventView::Failed(cause)) => failure(
            ErrorKind::StaleStagingCleanupFailed,
            staging_path,
            cause,
        ),
        (PhaseView::CreateStaging, EventView::Done) => PhaseView::CopySource,
        (PhaseView::CreateStaging, EventView::Failed(cause)) => failure(
            ErrorKind::StagingCreateFailed,
            staging_path,
            cause,
        ),
        (PhaseView::CopySource, EventView::Done) => PhaseView::Commit,
        (PhaseView::CopySource, EventView::Failed(cause)) => PhaseView::RemoveFailedCopy(cause),
        (PhaseView::RemoveFailedCopy(copy_cause), EventView::Done) => failure(
            ErrorKind::CopyFailed,
            Seq::empty(),
            copy_cause,
        ),
        (PhaseView::RemoveFailedCopy(_), EventView::Failed(cause)) => failure(
            ErrorKind::CopyCleanupFailed,
            staging_path,
            cause,
        ),
        (PhaseView::Commit, EventView::Done) => PhaseView::Committed,
        (PhaseView::Commit, EventView::Failed(cause)) => failure(
            ErrorKind::RenameFailed,
            Seq::empty(),
            cause,
        ),
        _ => phase,
    }
}

/// A transaction as plain values.
pub struct TransactionView {
    /// The directory that is backed up.
    pub source: Seq<char>,
    /// Where the backup goes.
    pub plan: PlanView,
    /// Where the transaction stands.
    pub phase: PhaseView,
}

impl TransactionView {
    /// A transaction on `source` with `plan`, before its first action.
    pub open spec fn initial(source: Seq<char>, plan: PlanView) -> TransactionView {
        TransactionView { source, plan, phase: PhaseView::ProbeStaging }
    }

    /// A transaction on `source` that has just begun at `now`, for a backup
    /// under the destination root `root`.
    pub open spec fn begun(source: Seq<char>, root: Seq<char>, now: Timestamp) -> TransactionView {
        TransactionView::initial(source, PlanView::at(root, now))
    }

    /// The transaction after `event`.
    pub open spec fn step(self, event: EventView) -> TransactionView {
        TransactionView {
            phase: next_phase(self.phase, event, self.plan.staging_path),
            ..self
        }
    }

    /// Whether the transaction has ended.
    pub open spec fn finished(self) -> bool {
        self.phase is Committed || self.phase is Failed
    }

    /// The result of an ended transaction: the final path, or the failure.
    pub open spec fn outcome(self) -> Option<Result<Seq<char>, FailureView>> {
        match self.phase {
            PhaseView::Committed => Some(Ok(self.plan.final_path)),
            PhaseView::Failed(failure) => Some(Err(failure)),
            _ => None,
        }
    }
}

/// The failure of a source that does not exist or is no directory.
pub open spec fn source_invalid(source: Seq<char>) -> FailureView {
    FailureView {
        kind: ErrorKind::SourceInvalid,
        message: error_text(ErrorKind::SourceInvalid, source, Seq::empty()),
    }
}

/// One backup transaction in progress.
pub struct Transaction {
    source: String,
    plan: Plan,
    phase: Phase,
}

impl View for Transaction {
    type V = TransactionView;

    closed spec fn view(&self) -> TransactionView {
        TransactionView { source: self.source@, plan: self.plan@, phase: self.phase@ }
    }
}

/// The text without characters.
fn no_text() -> (text: &'static str)
    ensures
        text@ == Seq::<char>::empty(),
{
    proof {
        reveal_strlit("");
    }
    assert(""@ =~= Seq::<char>::empty());
    ""
}

/// The phase of a transaction that has failed.
fn failed(kind: ErrorKind, subject: &str, cause: &str) -> (phase: Phase)
    ensures
        phase@ == failure(kind, subject@, cause@),
{
    Phase::Failed(TransactionError::new(kind, subject, cause))
}

impl Transaction {
    /// Begins a transaction that backs up `source` as `plan` says.
    ///
    /// `source_is_dir` is what the caller found: whether `source` exists and
    /// is a directory. If it is not, the transaction fails before any action
    /// is named.
    pub fn start_with(source: &str, source_is_dir: bool, plan: Plan) -> (started: Result<
        Transaction,
        TransactionError,
    >)
        ensures
            source_is_dir ==> started is Ok && started->Ok_0@ == TransactionView::initial(
                source@,
                plan@,
            ),
            !source_is_dir ==> started is Err && started->Err_0@ == source_invalid(source@),
    {
        if !source_is_dir {
            return Err(TransactionError::new(ErrorKind::SourceInvalid, source, no_text()));
        }
        Ok(Transaction { source: String::from_str(source), plan, phase: Phase::ProbeStaging })
    }

    /// Begins a transaction at the instant `now`, which names the backup
    /// under `destination_root`.
    pub fn start_at(
        source: &str,
        destination_root: &str,
        source_is_dir: bool,
        now: &Timestamp,
    ) -> (started: Result<Transaction, TransactionError>)
        ensures
            source_is_dir ==> started is Ok && started->Ok_0@ == TransactionView::begun(
                source@,
                destination_root@,
                *now,
            ),
            !source_is_dir ==> started is Err && started->Err_0@ == source_invalid(source@),
    {
        if !source_is_dir {
            return Err(TransactionError::new(ErrorKind::SourceInvalid, source, no_text()));
        }
        Transaction::start_with(source, true, Plan::at(destination_root, now))
    }

    /// Begins a transaction now, by the local wall clock. The clock is read
    /// only for a source that can be backed up.
    pub fn start(source: &str, destination_root: &str, source_is_dir: bool) -> (started: Result<
        Transaction,
        TransactionError,
    >)
        ensures
            source_is_dir ==> started is Ok && exists|now: Timestamp|
                now.wf() && started->Ok_0@ == #[trigger] TransactionView::begun(
                    source@,
                    destination_root@,
                    now,
                ),
            !source_is_dir ==> started is Err && started->Err_0@ == source_invalid(source@),
    {
        if !source_is_dir {
            return Err(TransactionError::new(ErrorKind::SourceInvalid, source, no_text()));
        }
        let now = local_now();
        Transaction::start_at(source, destination_root, true, &now)
    }

    /// Where the transaction stands.
    pub fn phase(&self) -> (phase: &Phase)
        ensures
            phase@ == self@.phase,
    {
        &self.phase
    }

    /// The directory that is backed up.
    pub fn source(&self) -> (source: &str)
        ensures
            source@ == self@.source,
    {
        self.source.as_str()
    }

    /// Where the backup goes.
    pub fn plan(&self) -> (plan: &Plan)
        ensures
            plan@ == self@.plan,
    {
        &self.plan
    }

    /// The action that is due.
    pub fn next_action(&self) -> (action: Action)
        ensures
            action == action_of(self@.phase),
    {
        match &self.phase {
            Phase::ProbeStaging => Action::ProbeStaging,
            Phase::RemoveStale => Action::RemoveStaging,
            Phase::CreateStaging => Action::CreateStaging,
            Phase::CopySource => Action::CopySource,
            Phase::RemoveFailedCopy(_) => Action::RemoveStaging,
            Phase::Commit => Action::Rename,
            Phase::Committed => Action::Finish,
            Phase::Failed(_) => Action::Finish,
        }
    }

    /// Whether the transaction has ended.
    pub fn is_finished(&self) -> (finished: bool)
        ensures
            finished == self@.finished(),
    {
        match &self.phase {
            Phase::Committed => true,
            Phase::Failed(_) => true,
            _ => false,
        }
    }

    /// Takes in what the caller reports of the action that was due, and
    /// names the next one.
    pub fn advance(&mut self, event: Event) -> (action: Action)
        ensures
            final(self)@ == old(self)@.step(event@),
            action == action_of(final(self)@.phase),
    {
        let staging_path = self.plan.staging_path.as_str();
        let next: Option<Phase> = match &self.phase {
            Phase::ProbeStaging => match event {
                Event::Present => Some(Phase::RemoveStale),
                Event::Absent => Some(Phase::CreateStaging),
                _ => None,
            },
            Phase::RemoveStale => match event {
                Event::Done => Some(Phase::CreateStaging),
                Event::Failed(cause) => Some(
                    failed(ErrorKind::StaleStagingCleanupFailed, staging_path, cause.as_str()),
                ),
                _ => None,
            },
            Phase::CreateStaging => match event {
                Event::Done => Some(Phase::CopySource),
                Event::Failed(cause) => Some(
                    failed(ErrorKind::StagingCreateFailed, staging_path, cause.as_str()),
                ),
                _ => None,
            },
            Phase::CopySource => match event {
                Event::Done => Some(Phase::Commit),
                Event::Failed(cause) => Some(Phase::RemoveFailedCopy(cause)),
                _ => None,
            },
            Phase::RemoveFailedCopy(copy_cause) => match event {
                Event::Done => Some(failed(ErrorKind::CopyFailed, no_text(), copy_cause.as_str())),
                Event::Failed(cause) => Some(
                    failed(ErrorKind::CopyCleanupFailed, staging_path, cause.as_str()),
                ),
                _ => None,
            },
            Phase::Commit => match event {
                Event::Done => Some(Phase::Committed),
                Event::Failed(cause) => Some(
                    failed(ErrorKind::RenameFailed, no_text(), cause.as_str()),
                ),
                _ => None,
            },
            _ => None,
        };
        match next {
            Some(phase) => {
                self.phase = phase;
            },
            None => {},
        }
        self.next_action()
    }

    /// The result, once the transaction has ended: the path of the committed
    /// backup, or the failure.
    pub fn outcome(&self) -> (outcome: Option<Result<String, TransactionError>>)
        ensures
            outcome is Some <==> self@.finished(),
            match outcome {
                Some(Ok(path)) => self@.outcome() == Some(Ok::<Seq<char>, FailureView>(path@)),
                Some(Err(error)) => self@.outcome() == Some(Err::<Seq<char>, FailureView>(error@)),
                None => self@.outcome() is None,
            },
    {
        match &self.phase {
            Phase::Committed => Some(Ok(self.plan.final_path.clone())),
            Phase::Failed(error) => Some(
                Err(TransactionError { kind: error.kind, message: error.message.clone() }),
            ),
            _ => None,
        }
    }
}

} // verus!
