//! The loop that runs one backup after another, at a fixed interval.
//!
//! The scheduler decides; the caller acts. Each command names the one thing
//! that is due: run a transaction, write a record, sleep, or stop. The
//! caller does it and reports the signal. Every outcome, good or bad, is
//! recorded and followed by one sleep of the configured interval.

use crate::outcome::{Category, LogRecord, OutcomeView, RecordView, TransactionOutcome};
use vstd::prelude::*;

verus! {

/// What is backed up, where to, and how often.
#[derive(Clone, Debug, PartialEq, Eq)]
pub struct BackupSpec {
    /// The directory that is backed up.
    pub source_path: String,
    /// The directory under which the backups are kept.
    pub destination_root: String,
    /// The seconds to wait after one attempt before the next.
    pub interval_secs: u64,
}

/// What the scheduler is waiting for.
#[derive(Clone, Debug, PartialEq, Eq)]
pub enum Stage {
    /// A transaction is due or under way.
    Running,
    /// The record of the last outcome is being written.
    Recording(LogRecord),
    /// The interval is being waited out.
    Sleeping,
    /// The scheduler has stopped, for the reason given.
    Stopped(String),
}

/// A stage as plain text.
pub enum StageView {
    Running,
    Recording(RecordView),
    Sleeping,
    Stopped(Seq<char>),
}

impl View for Stage {
    type V = StageView;

    open spec fn view(&self) -> StageView {
        match self {
            Stage::Running => StageView::Running,
            Stage::Recording(record) => StageView::Recording(record@),
            Stage::Sleeping => StageView::Sleeping,
            Stage::Stopped(reason) => StageView::Stopped(reason@),
        }
    }
}

/// What the caller is to do next.
#[derive(Clone, Debug, PartialEq, Eq)]
pub enum Command {
    /// Run one backup transaction and report how it ended.
    RunTransaction,
    /// Write this record to the log.
    Record(LogRecord),
    /// Sleep for this many seconds.
    Sleep(u64),
    /// End the process: the record could not be written.
    Stop(String),
}

/// A command as plain text.
pub enum CommandView {
    RunTransaction,
    Record(RecordView),
    Sleep(u64),
    Stop(Seq<char>),
}

impl View for Command {
    type V = CommandView;

    open spec fn view(&self) -> CommandView {
        match self {
            Command::RunTransaction => CommandView::RunTransaction,
            Command::Record(record) => CommandView::Record(record@),
            Command::Sleep(seconds) => CommandView::Sleep(*seconds),
            Command::Stop(reason) => CommandView::Stop(reason@),
        }
    }
}

/// What the caller reports after a command.
#[derive(Clone, Debug, PartialEq, Eq)]
pub enum Signal {
    /// The transaction ended with this outcome.
    Finished(TransactionOutcome),
    /// The record was written.
    Recorded,
    /// The record could not be written, for the reason given.
    RecordFailed(String),
    /// The sleep is over.
    Woke,
}

/// A signal as plain text.
pub enum SignalView {
    Finished(OutcomeView),
    Recorded,
    RecordFailed(Seq<char>),
    Woke,
}

impl View for Signal {
    type V = SignalView;

    open spec fn view(&self) -> SignalView {
        match self {
            Signal::Finished(outcome) => SignalView::Finished(outcome@),
            Signal::Recorded => SignalView::Recorded,
            Signal::RecordFailed(reason) => SignalView::RecordFailed(reason@),
            Signal::Woke => SignalView::Woke,
        }
    }
}

/// The stage that follows `stage` when the caller reports `signal`. A signal
/// that does not answer the command that is due changes nothing.
pub open spec fn next_stage(stage: StageView, signal: SignalView) -> StageView {
    match (stage, signal) {
        (StageView::Running, SignalView::Finished(outcome)) => StageView::Recording(
            outcome.record(),
        ),
        (StageView::Recording(_), SignalView::Recorded) => StageView::Sleeping,
        (StageView::Recording(_), SignalView::RecordFailed(reason)) => StageView::Stopped(reason),
        (StageView::Sleeping, SignalView::Woke) => StageView::Running,
        _ => stage,
    }
}

/// The command that is due in `stage`, for a scheduler that sleeps
/// `interval_secs` between attempts.
pub open spec fn command_of(stage: StageView, interval_secs: u64) -> CommandView {
    match stage {
        StageView::Running => CommandView::RunTransaction,
        StageView::Recording(record) => CommandView::Record(record),
        StageView::Sleeping => CommandView::Sleep(interval_secs),
        StageView::Stopped(reason) => CommandView::Stop(reason),
    }
}

/// A scheduler as plain values.
pub struct SchedulerView {
    pub source_path: Seq<char>,
    pub destination_root: Seq<char>,
    pub interval_secs: u64,
    pub stage: StageView,
}

impl SchedulerView {
    /// The scheduler after `signal`: only its stage changes.
    pub open spec fn step(self, signal: SignalView) -> SchedulerView {
        SchedulerView { stage: next_stage(self.stage, signal), ..self }
    }

    /// The command that is due.
    pub open spec fn command(self) -> CommandView {
        command_of(self.stage, self.interval_secs)
    }

    /// The scheduler after one whole tick in which the transaction ended
    /// with `outcome` and the record was written.
    pub open spec fn tick(self, outcome: OutcomeView) -> SchedulerView {
        self.step(SignalView::Finished(outcome)).step(SignalView::Recorded).step(SignalView::Woke)
    }

    /// The commands of one whole tick, in order: those that follow the
    /// outcome, the written record and the end of the sleep.
    pub open spec fn tick_commands(self, outcome: OutcomeView) -> Seq<CommandView> {
        let recording = self.step(SignalView::Finished(outcome));
        let sleeping = recording.step(SignalView::Recorded);
        let running = sleeping.step(SignalView::Woke);
        seq![recording.command(), sleeping.command(), running.command()]
    }

    /// The scheduler after one tick for each of `outcomes`.
    pub open spec fn after_ticks(self, outcomes: Seq<OutcomeView>) -> SchedulerView
        decreases outcomes.len(),
    {
        if outcomes.len() == 0 {
            self
        } else {
            self.after_ticks(outcomes.drop_last()).tick(outcomes.last())
        }
    }

    /// All commands of one tick for each of `outcomes`, in order.
    pub open spec fn commands_of_ticks(self, outcomes: Seq<OutcomeView>) -> Seq<CommandView>
        decreases outcomes.len(),
    {
        if outcomes.len() == 0 {
            Seq::empty()
        } else {
            self.commands_of_ticks(outcomes.drop_last()) + self.after_ticks(
                outcomes.drop_last(),
            ).tick_commands(outcomes.last())
        }
    }
}

/// The scheduler of one backup service.
pub struct Scheduler {
    spec: BackupSpec,
    stage: Stage,
}

impl View for Scheduler {
    type V = SchedulerView;

    closed spec fn view(&self) -> SchedulerView {
        SchedulerView {
            source_path: self.spec.source_path@,
            destination_root: self.spec.destination_root@,
            interval_secs: self.spec.interval_secs,
            stage: self.stage@,
        }
    }
}

impl Scheduler {
    /// A scheduler for `spec`. Its first command is to run a transaction.
    pub fn new(spec: BackupSpec) -> (scheduler: Scheduler)
        ensures
            scheduler@ == (SchedulerView {
                source_path: spec.source_path@,
                destination_root: spec.destination_root@,
                interval_secs: spec.interval_secs,
                stage: StageView::Running,
            }),
    {
        Scheduler { spec, stage: Stage::Running }
    }

    /// The directory that is backed up.
    pub fn source_path(&self) -> (path: &str)
        ensures
            path@ == self@.source_path,
    {
        self.spec.source_path.as_str()
    }

    /// The directory under which the backups are kept.
    pub fn destination_root(&self) -> (path: &str)
        ensures
            path@ == self@.destination_root,
    {
        self.spec.destination_root.as_str()
    }

    /// The seconds to wait after one attempt before the next.
    pub fn interval_secs(&self) -> (seconds: u64)
        ensures
            seconds == self@.interval_secs,
    {
        self.spec.interval_secs
    }

    /// What the scheduler is waiting for.
    pub fn stage(&self) -> (stage: &Stage)
        ensures
            stage@ == self@.stage,
    {
        &self.stage
    }

    /// The command that is due.
    pub fn command(&self) -> (command: Command)
        ensures
            command@ == self@.command(),
    {
        match &self.stage {
            Stage::Running => Command::RunTransaction,
            Stage::Recording(record) => Command::Record(
                LogRecord { category: record.category, message: record.message.clone() },
            ),
            Stage::Sleeping => Command::Sleep(self.spec.interval_secs),
            Stage::Stopped(reason) => Command::Stop(reason.clone()),
        }
    }

    /// Takes in what the caller reports of the command that was due, and
    /// names the next one.
    pub fn step(&mut self, signal: Signal) -> (command: Command)
        ensures
            final(self)@ == old(self)@.step(signal@),
            command@ == final(self)@.command(),
    {
        let next: Option<Stage> = match &self.stage {
            Stage::Running => match signal {
                Signal::Finished(outcome) => Some(Stage::Recording(outcome.record())),
                _ => None,
            },
            Stage::Recording(_) => match signal {
                Signal::Recorded => Some(Stage::Sleeping),
                Signal::RecordFailed(reason) => Some(Stage::Stopped(reason)),
                _ => None,
            },
            Stage::Sleeping => match signal {
                Signal::Woke => Some(Stage::Running),
                _ => None,
            },
            Stage::Stopped(_) => None,
        };
        match next {
            Some(stage) => {
                self.stage = stage;
            },
            None => {},
        }
        self.command()
    }
}

/// One tick, whatever its outcome, brings a running scheduler back to where
/// it was, and its three commands are: write the record of the outcome,
/// sleep for the configured interval, run the next transaction.
pub proof fn lemma_tick(s: SchedulerView, outcome: OutcomeView)
    requires
        s.stage is Running,
    ensures
        s.tick(outcome) == s,
        s.tick_commands(outcome) == seq![
            CommandView::Record(outcome.record()),
            CommandView::Sleep(s.interval_secs),
            CommandView::RunTransaction,
        ],
{
}

/// Failures never stop the loop, and never shorten or skip a sleep.
///
/// Let a running scheduler go through one tick for each of `outcomes`, every
/// record being written. Then it is running again, and it has given exactly
/// three commands per tick: to write the record of that tick's outcome, to
/// sleep for the configured interval, and to run the next transaction. So N
/// ticks give N records and N sleeps of the interval and no command to stop,
/// whether the transactions failed or not; and the record of a failure is in
/// the category `ERROR`.
pub proof fn law_every_tick_records_and_sleeps(s: SchedulerView, outcomes: Seq<OutcomeView>)
    requires
        s.stage is Running,
    ensures
        s.after_ticks(outcomes) == s,
        s.commands_of_ticks(outcomes).len() == 3 * outcomes.len(),
        forall|i: int|
            0 <= i < outcomes.len() ==> {
                &&& #[trigger] s.commands_of_ticks(outcomes)[3 * i] == CommandView::Record(
                    outcomes[i].record(),
                )
                &&& s.commands_of_ticks(outcomes)[3 * i + 1] == CommandView::Sleep(s.interval_secs)
                &&& s.commands_of_ticks(outcomes)[3 * i + 2] == CommandView::RunTransaction
                &&& (outcomes[i] is Failure ==> outcomes[i].record().category == Category::Error)
            },
    decreases outcomes.len(),
{
    if outcomes.len() > 0 {
        let earlier = outcomes.drop_last();
        law_every_tick_records_and_sleeps(s, earlier);
        lemma_tick(s, outcomes.last());
        let all = s.commands_of_ticks(outcomes);
        let head = s.commands_of_ticks(earlier);
        let tail = s.tick_commands(outcomes.last());
        assert(all == head + tail);
        assert forall|i: int| 0 <= i < outcomes.len() implies {
            &&& #[trigger] all[3 * i] == CommandView::Record(outcomes[i].record())
            &&& all[3 * i + 1] == CommandView::Sleep(s.interval_secs)
            &&& all[3 * i + 2] == CommandView::RunTransaction
        } by {
            if i < earlier.len() {
                assert(earlier[i] == outcomes[i]);
                assert(head[3 * i] == CommandView::Record(earlier[i].record()));
            } else {
                assert(all[3 * i] == tail[0]);
                assert(all[3 * i + 1] == tail[1]);
                assert(all[3 * i + 2] == tail[2]);
            }
        }
    }
}

/// How many of `commands` are commands to write a record.
pub open spec fn records_in(commands: Seq<CommandView>) -> nat
    decreases commands.len(),
{
    if commands.len() == 0 {
        0
    } else if commands.last() is Record {
        records_in(commands.drop_last()) + 1
    } else {
        records_in(commands.drop_last())
    }
}

/// How many of `commands` are commands to sleep for `seconds`.
pub open spec fn sleeps_in(commands: Seq<CommandView>, seconds: u64) -> nat
    decreases commands.len(),
{
    if commands.len() == 0 {
        0
    } else if commands.last() == CommandView::Sleep(seconds) {
        sleeps_in(commands.drop_last(), seconds) + 1
    } else {
        sleeps_in(commands.drop_last(), seconds)
    }
}

/// How many of `commands` are commands to sleep or to stop.
pub open spec fn pauses_in(commands: Seq<CommandView>) -> nat
    decreases commands.len(),
{
    if commands.len() == 0 {
        0
    } else if commands.last() is Sleep || commands.last() is Stop {
        pauses_in(commands.drop_last()) + 1
    } else {
        pauses_in(commands.drop_last())
    }
}

/// N ticks in which every transaction fails give exactly N records, N
/// sleeps of the configured interval, and no other sleep and no stop.
pub proof fn law_failing_ticks_are_counted(s: SchedulerView, outcomes: Seq<OutcomeView>)
    requires
        s.stage is Running,
        forall|i: int| 0 <= i < outcomes.len() ==> (#[trigger] outcomes[i]) is Failure,
    ensures
        records_in(s.commands_of_ticks(outcomes)) == outcomes.len(),
        sleeps_in(s.commands_of_ticks(outcomes), s.interval_secs) == outcomes.len(),
        pauses_in(s.commands_of_ticks(outcomes)) == outcomes.len(),
        s.after_ticks(outcomes).command() == CommandView::RunTransaction,
    decreases outcomes.len(),
{
    law_every_tick_records_and_sleeps(s, outcomes);
    if outcomes.len() > 0 {
        let earlier = outcomes.drop_last();
        law_failing_ticks_are_counted(s, earlier);
        law_every_tick_records_and_sleeps(s, earlier);
        lemma_tick(s, outcomes.last());
        let all = s.commands_of_ticks(outcomes);
        let head = s.commands_of_ticks(earlier);
        let record = CommandView::Record(outcomes.last().record());
        let sleep = CommandView::Sleep(s.interval_secs);
        assert(all =~= head.push(record).push(sleep).push(CommandView::RunTransaction));
        let two = head.push(record).push(sleep);
        let one = head.push(record);
        assert(all.drop_last() =~= two);
        assert(two.drop_last() =~= one);
        assert(one.drop_last() =~= head);
        assert(all.last() == CommandView::RunTransaction);
        assert(two.last() == sleep);
        assert(one.last() == record);
        assert(records_in(one) == records_in(head) + 1);
        assert(records_in(two) == records_in(one));
        assert(records_in(all) == records_in(two));
        assert(sleeps_in(one, s.interval_secs) == sleeps_in(head, s.interval_secs));
        assert(sleeps_in(two, s.interval_secs) == sleeps_in(one, s.interval_secs) + 1);
        assert(sleeps_in(all, s.interval_secs) == sleeps_in(two, s.interval_secs));
        assert(pauses_in(one) == pauses_in(head));
        assert(pauses_in(two) == pauses_in(one) + 1);
        assert(pauses_in(all) == pauses_in(two));
    }
}

} // verus!
