//! Reading the kinds of change out of a status list of `git2`.

use git2::{Delta, Statuses};
use vstd::prelude::*;

use crate::kind::ChangeKind;

verus! {

/// `git2::Statuses`, a list of status entries gathered from a repository.
/// Verus sees nothing inside it.
#[verifier::external_type_specification]
#[verifier::external_body]
pub struct ExStatuses<'repo>(Statuses<'repo>);

/// What a status list holds, entry by entry: the kind of the change between
/// the index and the working tree, or nothing for an entry without one.
pub uninterp spec fn workdir_changes(statuses: &Statuses<'_>) -> Seq<Option<ChangeKind>>;

/// `git2::Statuses::len`: the number of entries of the list.
#[verifier::external_body]
fn entry_count(statuses: &Statuses<'_>) -> (count: usize)
    ensures
        count == workdir_changes(statuses).len(),
{
    statuses.len()
}

/// `git2::Statuses::get`, then `git2::StatusEntry::index_to_workdir` and
/// `git2::DiffDelta::status` on what it returned: the change between the index
/// and the working tree that the entry at `index` records, if it records one,
/// by its kind. Assumed: the list does not change while it is borrowed, so
/// that the same index gives the same entry.
#[verifier::external_body]
fn entry_change(statuses: &Statuses<'_>, index: usize) -> (change: Option<ChangeKind>)
    requires
        index < workdir_changes(statuses).len(),
    ensures
        change == workdir_changes(statuses)[index as int],
{
    let delta = statuses.get(index)?.index_to_workdir()?;
    Some(match delta.status() {
        Delta::Unmodified => ChangeKind::Unmodified,
        Delta::Added => ChangeKind::Added,
        Delta::Deleted => ChangeKind::Deleted,
        Delta::Modified => ChangeKind::Modified,
        Delta::Renamed => ChangeKind::Renamed,
        Delta::Copied => ChangeKind::Copied,
        Delta::Ignored => ChangeKind::Ignored,
        Delta::Untracked => ChangeKind::Untracked,
        Delta::Typechange => ChangeKind::TypeChanged,
        Delta::Unreadable => ChangeKind::Unreadable,
        Delta::Conflicted => ChangeKind::Conflicted,
    })
}

/// The changes that are recorded, in their order, without the empty entries.
pub open spec fn recorded(changes: Seq<Option<ChangeKind>>) -> Seq<ChangeKind>
    decreases changes.len(),
{
    if changes.len() == 0 {
        Seq::empty()
    } else {
        match changes.last() {
            Some(kind) => recorded(changes.drop_last()).push(kind),
            None => recorded(changes.drop_last()),
        }
    }
}

/// The kinds of change between the index and the working tree, one for each
/// entry of the list that records such a change, in the order of the list.
pub fn workdir_kinds(statuses: &Statuses<'_>) -> (kinds: Vec<ChangeKind>)
    ensures
        kinds@ == recorded(workdir_changes(statuses)),
{
    let count = entry_count(statuses);
    let mut kinds: Vec<ChangeKind> = Vec::new();
    let mut i: usize = 0;
    while i < count
        invariant
            i <= count,
            count == workdir_changes(statuses).len(),
            kinds@ == recorded(workdir_changes(statuses).take(i as int)),
        decreases count - i,
    {
        let change = entry_change(statuses, i);
        proof {
            let scanned = workdir_changes(statuses).take(i as int + 1);
            assert(scanned.drop_last() =~= workdir_changes(statuses).take(i as int));
            assert(scanned.last() == change);
        }
        if let Some(kind) = change {
            kinds.push(kind);
        }
        i += 1;
    }
    proof {
        assert(workdir_changes(statuses).take(i as int) =~= workdir_changes(statuses));
    }
    kinds
}

} // verus!
