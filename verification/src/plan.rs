//! Where one backup goes: its name, and the two directories under the
//! destination root that the transaction works on.

use crate::timestamp::{law_label_fixed_width, Timestamp};
use vstd::prelude::*;

verus! {

/// The suffix that marks a directory as staging.
pub open spec fn staging_suffix() -> Seq<char> {
    seq!['.', 't', 'm', 'p']
}

/// The name of the staging directory for the backup called `label`.
pub open spec fn staging_name_text(label: Seq<char>) -> Seq<char> {
    label + staging_suffix()
}

/// The path that `std::path::Path::join` gives for `name` adjoined to `root`,
/// as text. Which separator stands between the two, and whether one is
/// added, is the platform's matter; on one platform the same two texts give
/// the same path.
pub uninterp spec fn joined_path(root: Seq<char>, name: Seq<char>) -> Seq<char>;

/// Adjoins `name` to `root` with `std::path::Path::join`, and gives the
/// result back as text.
///
/// Trusted, not proved: the result is what the platform's `join` makes of
/// the two texts, and nothing more is claimed of it.
#[verifier::external_body]
fn join_path(root: &str, name: &str) -> (joined: String)
    ensures
        joined@ == joined_path(root@, name@),
{
    std::path::Path::new(root).join(name).to_string_lossy().into_owned()
}

/// The name of the staging directory for the backup called `label`.
pub fn staging_name(label: &str) -> (name: String)
    ensures
        name@ == staging_name_text(label@),
{
    let mut name = String::from_str(label);
    proof {
        reveal_strlit(".tmp");
    }
    assert(".tmp"@ =~= staging_suffix());
    name.append(".tmp");
    name
}

/// The names and paths of one backup.
#[derive(Clone, Debug, PartialEq, Eq)]
pub struct Plan {
    /// The name of the committed backup directory.
    pub label: String,
    /// The name of the staging directory.
    pub staging_name: String,
    /// The path of the committed backup directory.
    pub final_path: String,
    /// The path of the staging directory.
    pub staging_path: String,
}

/// A plan as plain text.
pub struct PlanView {
    pub label: Seq<char>,
    pub staging_name: Seq<char>,
    pub final_path: Seq<char>,
    pub staging_path: Seq<char>,
}

impl View for Plan {
    type V = PlanView;

    open spec fn view(&self) -> PlanView {
        PlanView {
            label: self.label@,
            staging_name: self.staging_name@,
            final_path: self.final_path@,
            staging_path: self.staging_path@,
        }
    }
}

impl PlanView {
    /// The plan of a backup under the destination root `root` that starts
    /// at `now`.
    pub open spec fn at(root: Seq<char>, now: Timestamp) -> PlanView {
        PlanView {
            label: now.label_text(),
            staging_name: staging_name_text(now.label_text()),
            final_path: joined_path(root, now.label_text()),
            staging_path: joined_path(root, staging_name_text(now.label_text())),
        }
    }

    /// The staging directory is named after the backup, with the staging
    /// suffix.
    pub open spec fn wf(&self) -> bool {
        self.staging_name == staging_name_text(self.label)
    }
}

impl Plan {
    /// A plan from its parts: the backup's name, and the paths that the
    /// backup and its staging directory have under the destination root.
    pub fn from_parts(label: String, final_path: String, staging_path: String) -> (plan: Plan)
        ensures
            plan@.label == label@,
            plan@.staging_name == staging_name_text(label@),
            plan@.final_path == final_path@,
            plan@.staging_path == staging_path@,
            plan@.wf(),
    {
        let staging_name = staging_name(label.as_str());
        Plan { label, staging_name, final_path, staging_path }
    }

    /// The plan of a backup under `destination_root` that starts at `now`:
    /// it is named by the instant, and both paths are the root with a name
    /// adjoined.
    pub fn at(destination_root: &str, now: &Timestamp) -> (plan: Plan)
        ensures
            plan@ == PlanView::at(destination_root@, *now),
            plan@.wf(),
    {
        let label = now.label();
        let staging_name = staging_name(label.as_str());
        let final_path = join_path(destination_root, label.as_str());
        let staging_path = join_path(destination_root, staging_name.as_str());
        Plan { label, staging_name, final_path, staging_path }
    }
}

/// A staging directory is never taken for a backup: the staging name of one
/// instant is not the label of any other, nor of the same.
pub proof fn law_staging_name_is_no_label(a: Timestamp, b: Timestamp)
    requires
        a.wf(),
        b.wf(),
        0 <= a.year <= 9999,
        0 <= b.year <= 9999,
    ensures
        staging_name_text(a.label_text()) != b.label_text(),
        staging_name_text(a.label_text()).len() == 23,
{
    law_label_fixed_width(a);
    law_label_fixed_width(b);
}

} // verus!
