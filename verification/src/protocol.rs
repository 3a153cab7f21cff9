//! What a transaction does to the destination root.
//!
//! The destination root is modelled as a map from the names of the
//! directories directly under it to what each holds. Every action of a
//! transaction has a stated effect on that map when it succeeds and when it
//! fails. Over that model the laws below say what a transaction can and
//! cannot leave behind: a directory under a final name is either untouched
//! or a complete copy of the source.

use crate::plan::PlanView;
use crate::transaction::{
    action_of, failure, Action, ErrorKind, EventView, FailureView, PhaseView, TransactionView,
};
use vstd::prelude::*;

verus! {

/// What a directory holds: the bytes of each file, by its relative path.
pub type Tree = Map<Seq<char>, Seq<u8>>;

/// The directories directly under the destination root, by name.
pub type Root = Map<Seq<char>, Tree>;

/// How the filesystem answers one action.
pub struct Fate {
    /// Whether the action succeeds.
    pub succeeds: bool,
    /// The reason that is reported if it fails.
    pub cause: Seq<char>,
    /// What a failed removal or a failed copy leaves under the staging name,
    /// if anything.
    pub debris: Option<Tree>,
}

/// `root` with `debris` under `name`, or without `name` where there is none.
pub open spec fn with_debris(root: Root, name: Seq<char>, debris: Option<Tree>) -> Root {
    match debris {
        Some(tree) => root.insert(name, tree),
        None => root.remove(name),
    }
}

/// The event that the caller reports for `action`, and the destination root
/// after it.
///
/// - A probe finds the staging name or not, and changes nothing.
/// - A removal takes the staging name away; a failed one leaves anything
///   under that name.
/// - A creation puts an empty directory under the staging name unless one is
///   there; a failed one changes nothing.
/// - A copy lays the source over what the staging directory holds; a failed
///   one leaves anything under that name.
/// - A rename moves what the staging name holds to the final name. It fails
///   where the final name is taken or the staging name is missing, and a
///   failed one changes nothing.
pub open spec fn respond(action: Action, root: Root, plan: PlanView, source: Tree, fate: Fate) -> (
    EventView,
    Root,
) {
    let staging = plan.staging_name;
    match action {
        Action::ProbeStaging => if root.dom().contains(staging) {
            (EventView::Present, root)
        } else {
            (EventView::Absent, root)
        },
        Action::RemoveStaging => if fate.succeeds {
            (EventView::Done, root.remove(staging))
        } else {
            (EventView::Failed(fate.cause), with_debris(root, staging, fate.debris))
        },
        Action::CreateStaging => if !fate.succeeds {
            (EventView::Failed(fate.cause), root)
        } else if root.dom().contains(staging) {
            (EventView::Done, root)
        } else {
            (EventView::Done, root.insert(staging, Map::empty()))
        },
        Action::CopySource => if fate.succeeds && root.dom().contains(staging) {
            (EventView::Done, root.insert(staging, root[staging].union_prefer_right(source)))
        } else {
            (EventView::Failed(fate.cause), with_debris(root, staging, fate.debris))
        },
        Action::Rename => if fate.succeeds && root.dom().contains(staging) && !root.dom().contains(
            plan.label,
        ) {
            (EventView::Done, root.remove(staging).insert(plan.label, root[staging]))
        } else {
            (EventView::Failed(fate.cause), root)
        },
        Action::Finish => (EventView::Done, root),
    }
}

/// The transaction and the destination root after the caller has performed
/// the actions that the transaction names, one for each of `fates`, stopping
/// early where the transaction ends.
pub open spec fn run(t: TransactionView, root: Root, source: Tree, fates: Seq<Fate>) -> (
    TransactionView,
    Root,
)
    decreases fates.len(),
{
    if fates.len() == 0 || t.finished() {
        (t, root)
    } else {
        let (event, next_root) = respond(action_of(t.phase), root, t.plan, source, fates[0]);
        run(t.step(event), next_root, source, fates.drop_first())
    }
}

/// Two roots that hold the same under every name but `name`.
pub open spec fn same_but(a: Root, b: Root, name: Seq<char>) -> bool {
    a.remove(name) == b.remove(name)
}

/// What holds of the destination root `root` while a transaction that began
/// on `before` stands in a given phase.
pub open spec fn consistent(t: TransactionView, before: Root, root: Root, source: Tree) -> bool {
    let staging = t.plan.staging_name;
    let label = t.plan.label;
    match t.phase {
        PhaseView::ProbeStaging => root == before,
        PhaseView::RemoveStale => root == before && before.dom().contains(staging),
        PhaseView::CreateStaging => root == before.remove(staging),
        PhaseView::CopySource => root == before.remove(staging).insert(staging, Map::empty()),
        PhaseView::RemoveFailedCopy(_) => same_but(root, before, staging),
        PhaseView::Commit => root == before.remove(staging).insert(staging, source),
        PhaseView::Committed => !before.dom().contains(label) && root == before.remove(
            staging,
        ).insert(label, source),
        PhaseView::Failed(failure) => match failure.kind {
            ErrorKind::SourceInvalid => root == before,
            ErrorKind::StaleStagingCleanupFailed => before.dom().contains(staging) && same_but(
                root,
                before,
                staging,
            ),
            ErrorKind::StagingCreateFailed => root == before.remove(staging),
            ErrorKind::CopyFailed => root == before.remove(staging),
            ErrorKind::CopyCleanupFailed => same_but(root, before, staging),
            ErrorKind::RenameFailed => root == before.remove(staging).insert(staging, source),
        },
    }
}

/// The staging name is never the final name.
pub proof fn lemma_staging_name_differs(plan: PlanView)
    requires
        plan.wf(),
    ensures
        plan.staging_name != plan.label,
{
    assert(plan.staging_name.len() == plan.label.len() + 4);
}

/// One action keeps the destination root consistent with the phase.
proof fn lemma_step_consistent(
    t: TransactionView,
    before: Root,
    root: Root,
    source: Tree,
    fate: Fate,
)
    requires
        t.plan.wf(),
        consistent(t, before, root, source),
        !t.finished(),
    ensures
        ({
            let (event, next_root) = respond(action_of(t.phase), root, t.plan, source, fate);
            consistent(t.step(event), before, next_root, source)
        }),
{
    let staging = t.plan.staging_name;
    let label = t.plan.label;
    lemma_staging_name_differs(t.plan);
    let (event, next_root) = respond(action_of(t.phase), root, t.plan, source, fate);
    let after = t.step(event);
    match t.phase {
        PhaseView::ProbeStaging => {
            if !root.dom().contains(staging) {
                assert(root =~= before.remove(staging));
            }
        },
        PhaseView::RemoveStale => {
            if !fate.succeeds {
                assert(next_root.remove(staging) =~= before.remove(staging));
            }
        },
        PhaseView::CreateStaging => {},
        PhaseView::CopySource => {
            if fate.succeeds {
                assert(Map::<Seq<char>, Seq<u8>>::empty().union_prefer_right(source) =~= source);
                assert(next_root =~= before.remove(staging).insert(staging, source));
            } else {
                assert(next_root.remove(staging) =~= before.remove(staging));
            }
        },
        PhaseView::RemoveFailedCopy(_) => {
            if fate.succeeds {
                assert(next_root =~= before.remove(staging));
            } else {
                assert(next_root.remove(staging) =~= before.remove(staging));
            }
        },
        PhaseView::Commit => {
            if fate.succeeds && !root.dom().contains(label) {
                assert(next_root =~= before.remove(staging).insert(label, source));
            }
        },
        _ => {},
    }
}

/// However the filesystem answers, the destination root stays consistent
/// with the phase that the transaction has reached.
pub proof fn lemma_run_consistent(
    t: TransactionView,
    before: Root,
    root: Root,
    source: Tree,
    fates: Seq<Fate>,
)
    requires
        t.plan.wf(),
        consistent(t, before, root, source),
    ensures
        run(t, root, source, fates).0.plan == t.plan,
        run(t, root, source, fates).0.source == t.source,
        consistent(run(t, root, source, fates).0, before, run(t, root, source, fates).1, source),
    decreases fates.len(),
{
    if fates.len() == 0 || t.finished() {
    } else {
        let (event, next_root) = respond(action_of(t.phase), root, t.plan, source, fates[0]);
        lemma_step_consistent(t, before, root, source, fates[0]);
        lemma_run_consistent(t.step(event), before, next_root, source, fates.drop_first());
    }
}

/// A backup is whole or absent.
///
/// Run a transaction from its beginning on the destination root `before`,
/// with any answers of the filesystem, for any number of steps. Then every
/// name but the staging name holds what it held before, with one exception:
/// once the transaction is committed, the final name, which was free, holds
/// exactly the source. No committed backup is changed or removed, and none
/// is ever seen half written.
pub proof fn law_backup_whole_or_absent(
    source_path: Seq<char>,
    plan: PlanView,
    before: Root,
    source: Tree,
    fates: Seq<Fate>,
    name: Seq<char>,
)
    requires
        plan.wf(),
        name != plan.staging_name,
    ensures
        ({
            let (end, after) = run(
                TransactionView::initial(source_path, plan),
                before,
                source,
                fates,
            );
            if end.phase is Committed && name == plan.label {
                !before.dom().contains(name) && after.dom().contains(name) && after[name] == source
            } else {
                after.dom().contains(name) == before.dom().contains(name) && (before.dom().contains(
                    name,
                ) ==> after[name] == before[name])
            }
        }),
{
    let start = TransactionView::initial(source_path, plan);
    lemma_run_consistent(start, before, before, source, fates);
    lemma_staging_name_differs(plan);
    let (end, after) = run(start, before, source, fates);
    let staging = plan.staging_name;
    // Removing the staging name does not touch `name`.
    assert(before.remove(staging).dom().contains(name) == before.dom().contains(name));
    assert(after.remove(staging).dom().contains(name) == after.dom().contains(name));
    if before.dom().contains(name) {
        assert(before.remove(staging)[name] == before[name]);
    }
    if after.dom().contains(name) {
        assert(after.remove(staging)[name] == after[name]);
    }
}

/// A successful transaction leaves exactly one new directory, and it is the
/// source.
///
/// If the run ends committed, the final name was free before, the
/// destination root now holds the source under it, the staging name is gone,
/// and every other name holds what it held.
pub proof fn law_success_commits_the_source(
    source_path: Seq<char>,
    plan: PlanView,
    before: Root,
    source: Tree,
    fates: Seq<Fate>,
)
    requires
        plan.wf(),
        run(TransactionView::initial(source_path, plan), before, source, fates).0.phase
            is Committed,
    ensures
        ({
            let (end, after) = run(
                TransactionView::initial(source_path, plan),
                before,
                source,
                fates,
            );
            &&& !before.dom().contains(plan.label)
            &&& after == before.remove(plan.staging_name).insert(plan.label, source)
            &&& !after.dom().contains(plan.staging_name)
            &&& after[plan.label] == source
            &&& end.outcome() == Some(Ok::<Seq<char>, FailureView>(plan.final_path))
        }),
{
    let start = TransactionView::initial(source_path, plan);
    lemma_run_consistent(start, before, before, source, fates);
    lemma_staging_name_differs(plan);
}

/// A failed copy commits nothing.
///
/// If the run ends because the copy failed, no name but the staging name
/// has changed, so no directory has appeared under a final name. Where the
/// failure is `CopyFailed` the staging directory is gone as well; where
/// removing it failed too, the failure is `CopyCleanupFailed` instead.
pub proof fn law_failed_copy_commits_nothing(
    source_path: Seq<char>,
    plan: PlanView,
    before: Root,
    source: Tree,
    fates: Seq<Fate>,
)
    requires
        plan.wf(),
    ensures
        ({
            let (end, after) = run(
                TransactionView::initial(source_path, plan),
                before,
                source,
                fates,
            );
            match end.phase {
                PhaseView::Failed(failure) => {
                    &&& failure.kind == ErrorKind::CopyFailed ==> after == before.remove(
                        plan.staging_name,
                    ) && !after.dom().contains(plan.staging_name)
                    &&& failure.kind == ErrorKind::CopyCleanupFailed ==> same_but(
                        after,
                        before,
                        plan.staging_name,
                    )
                },
                PhaseView::RemoveFailedCopy(_) => same_but(after, before, plan.staging_name),
                _ => true,
            }
        }),
{
    let start = TransactionView::initial(source_path, plan);
    lemma_run_consistent(start, before, before, source, fates);
}

/// A failure to create the staging directory leaves the destination root as
/// it was, where no staging directory was left over from an earlier run.
pub proof fn law_failed_create_changes_nothing(
    source_path: Seq<char>,
    plan: PlanView,
    before: Root,
    source: Tree,
    fates: Seq<Fate>,
)
    requires
        plan.wf(),
        !before.dom().contains(plan.staging_name),
        run(TransactionView::initial(source_path, plan), before, source, fates).0.phase matches PhaseView::Failed(failure)
            && failure.kind == ErrorKind::StagingCreateFailed,
    ensures
        run(TransactionView::initial(source_path, plan), before, source, fates).1 == before,
{
    let start = TransactionView::initial(source_path, plan);
    lemma_run_consistent(start, before, before, source, fates);
    assert(before.remove(plan.staging_name) =~= before);
}

/// An interrupted copy ends the transaction and commits nothing.
///
/// Let a run from the beginning have reached the copy, and let the copy
/// fail. Then the next action removes the staging directory and ends the
/// transaction: with `CopyFailed`, carrying the reason of the copy, where
/// the removal succeeds, and then no staging directory is left; with
/// `CopyCleanupFailed`, carrying the reason of the removal, where it fails.
/// Either way no name but the staging name has changed.
pub proof fn law_interrupted_copy_fails_cleanly(
    source_path: Seq<char>,
    plan: PlanView,
    before: Root,
    source: Tree,
    lead: Seq<Fate>,
    rest: Seq<Fate>,
)
    requires
        plan.wf(),
        run(TransactionView::initial(source_path, plan), before, source, lead).0.phase
            is CopySource,
        rest.len() >= 2,
        !rest[0].succeeds,
    ensures
        ({
            let (mid, root) = run(TransactionView::initial(source_path, plan), before, source, lead);
            let (end, after) = run(mid, root, source, rest);
            &&& same_but(after, before, plan.staging_name)
            &&& rest[1].succeeds ==> {
                &&& end.phase == failure(ErrorKind::CopyFailed, Seq::empty(), rest[0].cause)
                &&& after == before.remove(plan.staging_name)
            }
            &&& !rest[1].succeeds ==> end.phase == failure(
                ErrorKind::CopyCleanupFailed,
                plan.staging_path,
                rest[1].cause,
            )
        }),
{
    let start = TransactionView::initial(source_path, plan);
    lemma_run_consistent(start, before, before, source, lead);
    let (mid, root) = run(start, before, source, lead);
    lemma_run_consistent(mid, before, root, source, rest);
    let staging = plan.staging_name;
    let r1 = with_debris(root, staging, rest[0].debris);
    let t1 = mid.step(EventView::Failed(rest[0].cause));
    let f1 = rest.drop_first();
    assert(f1[0] == rest[1]);
    reveal_with_fuel(run, 3);
    assert(run(mid, root, source, rest) == run(t1, r1, source, f1));
    let (event, r2) = respond(Action::RemoveStaging, r1, plan, source, f1[0]);
    assert(run(t1, r1, source, f1) == run(t1.step(event), r2, source, f1.drop_first()));
    assert(t1.step(event).finished());
    assert(mid.plan == plan);
    assert(root == before.remove(staging).insert(staging, Map::empty()));
    assert(r2.remove(staging) =~= before.remove(staging));
    if rest[1].succeeds {
        assert(r2 =~= before.remove(staging));
    }
}

/// An unwritable destination root fails the transaction and stays as it
/// was.
///
/// Let no staging directory be left over, and let the creation of the
/// staging directory fail. Then the transaction ends after that second
/// action with `StagingCreateFailed`, carrying the reason, and the
/// destination root is what it was before.
pub proof fn law_unwritable_root_is_left_alone(
    source_path: Seq<char>,
    plan: PlanView,
    before: Root,
    source: Tree,
    fates: Seq<Fate>,
)
    requires
        plan.wf(),
        !before.dom().contains(plan.staging_name),
        fates.len() >= 2,
        !fates[1].succeeds,
    ensures
        ({
            let (end, after) = run(
                TransactionView::initial(source_path, plan),
                before,
                source,
                fates,
            );
            &&& end.phase == failure(
                ErrorKind::StagingCreateFailed,
                plan.staging_path,
                fates[1].cause,
            )
            &&& after == before
        }),
{
    let start = TransactionView::initial(source_path, plan);
    let f1 = fates.drop_first();
    assert(f1[0] == fates[1]);
    reveal_with_fuel(run, 3);
    let t1 = start.step(EventView::Absent);
    assert(run(start, before, source, fates) == run(t1, before, source, f1));
    let t2 = t1.step(EventView::Failed(fates[1].cause));
    assert(run(t1, before, source, f1) == run(t2, before, source, f1.drop_first()));
    assert(t2.finished());
}

/// Every action of `fates` succeeds.
pub open spec fn all_succeed(fates: Seq<Fate>) -> bool {
    forall|i: int| 0 <= i < fates.len() ==> (#[trigger] fates[i]).succeeds
}

/// Recovery after a crash.
///
/// Let an earlier run have left a staging directory under the very name
/// that this transaction uses, and let the final name be free. Then the
/// first action after the probe removes what was left, and if every action
/// succeeds, the transaction is committed after five of them: the final
/// name holds exactly the source, and nothing of what was left remains.
pub proof fn law_stale_staging_is_replaced(
    source_path: Seq<char>,
    plan: PlanView,
    before: Root,
    source: Tree,
    fates: Seq<Fate>,
)
    requires
        plan.wf(),
        before.dom().contains(plan.staging_name),
        !before.dom().contains(plan.label),
        all_succeed(fates),
        fates.len() >= 5,
    ensures
        ({
            let start = TransactionView::initial(source_path, plan);
            let (end, after) = run(start, before, source, fates);
            let (probe, _) = respond(Action::ProbeStaging, before, plan, source, fates[0]);
            &&& action_of(start.step(probe).phase) == Action::RemoveStaging
            &&& end.outcome() == Some(Ok::<Seq<char>, FailureView>(plan.final_path))
            &&& after == before.remove(plan.staging_name).insert(plan.label, source)
        }),
{
    let start = TransactionView::initial(source_path, plan);
    lemma_staging_name_differs(plan);
    lemma_run_consistent(start, before, before, source, fates);
    let staging = plan.staging_name;
    let f1 = fates.drop_first();
    let f2 = f1.drop_first();
    let f3 = f2.drop_first();
    let f4 = f3.drop_first();
    let f5 = f4.drop_first();
    assert(fates[0].succeeds && f1[0].succeeds && f2[0].succeeds && f3[0].succeeds
        && f4[0].succeeds);
    reveal_with_fuel(run, 7);
    let t1 = start.step(EventView::Present);
    let r2 = before.remove(staging);
    let r3 = r2.insert(staging, Map::empty());
    let r4 = r3.insert(staging, r3[staging].union_prefer_right(source));
    assert(run(start, before, source, fates) == run(t1, before, source, f1));
    assert(run(t1, before, source, f1) == run(t1.step(EventView::Done), r2, source, f2));
    let t2 = t1.step(EventView::Done);
    assert(run(t2, r2, source, f2) == run(t2.step(EventView::Done), r3, source, f3));
    let t3 = t2.step(EventView::Done);
    assert(run(t3, r3, source, f3) == run(t3.step(EventView::Done), r4, source, f4));
    let t4 = t3.step(EventView::Done);
    assert(!r4.dom().contains(plan.label));
    let r5 = r4.remove(staging).insert(plan.label, r4[staging]);
    assert(run(t4, r4, source, f4) == run(t4.step(EventView::Done), r5, source, f5));
    assert(t4.step(EventView::Done).phase is Committed);
}

/// The most actions that a transaction in `phase` still takes.
pub open spec fn actions_left(phase: PhaseView) -> nat {
    match phase {
        PhaseView::ProbeStaging => 5,
        PhaseView::RemoveStale => 4,
        PhaseView::CreateStaging => 3,
        PhaseView::CopySource => 2,
        PhaseView::RemoveFailedCopy(_) => 1,
        PhaseView::Commit => 1,
        PhaseView::Committed => 0,
        PhaseView::Failed(_) => 0,
    }
}

/// Every action brings the transaction nearer to its end.
proof fn lemma_run_ends(t: TransactionView, root: Root, source: Tree, fates: Seq<Fate>)
    requires
        fates.len() >= actions_left(t.phase),
    ensures
        run(t, root, source, fates).0.finished(),
    decreases fates.len(),
{
    if fates.len() == 0 || t.finished() {
    } else {
        let (event, next_root) = respond(action_of(t.phase), root, t.plan, source, fates[0]);
        assert(actions_left(t.step(event).phase) < actions_left(t.phase));
        lemma_run_ends(t.step(event), next_root, source, fates.drop_first());
    }
}

/// A transaction ends within five actions, however the filesystem answers.
pub proof fn law_ends_within_five_actions(
    source_path: Seq<char>,
    plan: PlanView,
    before: Root,
    source: Tree,
    fates: Seq<Fate>,
)
    requires
        fates.len() >= 5,
    ensures
        run(TransactionView::initial(source_path, plan), before, source, fates).0.finished(),
        run(TransactionView::initial(source_path, plan), before, source, fates).0.outcome()
            is Some,
{
    lemma_run_ends(TransactionView::initial(source_path, plan), before, source, fates);
}

} // verus!
