//! How a finished transaction is classified and put into words for the
//! record.

use crate::transaction::{FailureView, TransactionError};
use vstd::prelude::*;

verus! {

/// How one scheduled backup ended.
#[derive(Clone, Debug, PartialEq, Eq)]
pub enum TransactionOutcome {
    /// The backup stands at `final_path`.
    Success { final_path: String },
    /// The transaction failed, as `message` says.
    Failure { message: String },
}

/// An outcome as plain text.
pub enum OutcomeView {
    Success { final_path: Seq<char> },
    Failure { message: Seq<char> },
}

impl View for TransactionOutcome {
    type V = OutcomeView;

    open spec fn view(&self) -> OutcomeView {
        match self {
            TransactionOutcome::Success { final_path } => OutcomeView::Success {
                final_path: final_path@,
            },
            TransactionOutcome::Failure { message } => OutcomeView::Failure { message: message@ },
        }
    }
}

/// The two categories of a record.
#[derive(Clone, Copy, Debug, PartialEq, Eq, Structural)]
pub enum Category {
    Success,
    Error,
}

impl Category {
    /// The category as it is written in a record.
    pub open spec fn text(self) -> Seq<char> {
        match self {
            Category::Success => "SUCCESS"@,
            Category::Error => "ERROR"@,
        }
    }

    /// The category as it is written in a record.
    pub fn as_str(self) -> (text: &'static str)
        ensures
            text@ == self.text(),
    {
        match self {
            Category::Success => "SUCCESS",
            Category::Error => "ERROR",
        }
    }
}

/// What is handed to the log for one outcome.
#[derive(Clone, Debug, PartialEq, Eq)]
pub struct LogRecord {
    pub category: Category,
    pub message: String,
}

/// A record as plain text.
pub struct RecordView {
    pub category: Category,
    pub message: Seq<char>,
}

impl View for LogRecord {
    type V = RecordView;

    open spec fn view(&self) -> RecordView {
        RecordView { category: self.category, message: self.message@ }
    }
}

impl OutcomeView {
    /// The outcome of a transaction that ended with `result`.
    pub open spec fn of(result: Result<Seq<char>, FailureView>) -> OutcomeView {
        match result {
            Ok(final_path) => OutcomeView::Success { final_path },
            Err(failure) => OutcomeView::Failure { message: failure.message },
        }
    }

    /// The record of this outcome: a success names the final path, a
    /// failure gives the message.
    pub open spec fn record(self) -> RecordView {
        match self {
            OutcomeView::Success { final_path } => RecordView {
                category: Category::Success,
                message: "Backup completed successfully to: "@ + final_path,
            },
            OutcomeView::Failure { message } => RecordView {
                category: Category::Error,
                message: "Backup transaction failed: "@ + message,
            },
        }
    }
}

/// The result of a transaction as plain text.
pub open spec fn result_view(result: Result<String, TransactionError>) -> Result<
    Seq<char>,
    FailureView,
> {
    match result {
        Ok(final_path) => Ok(final_path@),
        Err(error) => Err(error@),
    }
}

impl TransactionOutcome {
    /// Classifies the result of a transaction.
    pub fn classify(result: Result<String, TransactionError>) -> (outcome: TransactionOutcome)
        ensures
            outcome@ == OutcomeView::of(result_view(result)),
    {
        match result {
            Ok(final_path) => TransactionOutcome::Success { final_path },
            Err(error) => TransactionOutcome::Failure { message: error.message },
        }
    }

    /// Whether the backup succeeded.
    pub fn is_success(&self) -> (success: bool)
        ensures
            success == (self@ is Success),
    {
        match self {
            TransactionOutcome::Success { .. } => true,
            TransactionOutcome::Failure { .. } => false,
        }
    }

    /// The record of this outcome.
    pub fn record(&self) -> (record: LogRecord)
        ensures
            record@ == self@.record(),
    {
        match self {
            TransactionOutcome::Success { final_path } => {
                let mut message = String::from_str("Backup completed successfully to: ");
                message.append(final_path.as_str());
                LogRecord { category: Category::Success, message }
            },
            TransactionOutcome::Failure { message } => {
                let mut text = String::from_str("Backup transaction failed: ");
                text.append(message.as_str());
                LogRecord { category: Category::Error, message: text }
            },
        }
    }
}

/// The record of a success mentions the final path: the message ends with
/// it.
pub proof fn law_success_record_names_final_path(final_path: Seq<char>)
    ensures
        ({
            let record = (OutcomeView::Success { final_path }).record();
            &&& record.category == Category::Success
            &&& record.message.len() >= final_path.len()
            &&& record.message.subrange(
                record.message.len() - final_path.len(),
                record.message.len() as int,
            ) == final_path
        }),
{
    let record = (OutcomeView::Success { final_path }).record();
    assert(record.message.subrange(
        record.message.len() - final_path.len(),
        record.message.len() as int,
    ) =~= final_path);
}

} // verus!
