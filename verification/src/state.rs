//! The multi-step operation that a repository may be in the middle of, and
//! the label shown for it.

use vstd::prelude::*;

verus! {

/// An operation in progress in a repository. Exactly one value holds at a time.
#[derive(Clone, Copy, Debug, PartialEq, Eq, Structural)]
pub enum OperationState {
    Clean,
    Merge,
    Revert,
    RevertSequence,
    CherryPick,
    CherryPickSequence,
    Bisect,
    Rebase,
    RebaseInteractive,
    RebaseMerge,
    ApplyMailbox,
    ApplyMailboxOrRebase,
}

impl OperationState {
    /// The label of an operation in progress; a clean repository has none.
    pub open spec fn label_of(self) -> Option<Seq<char>> {
        match self {
            OperationState::Clean => None,
            OperationState::Merge => Some("merge"@),
            OperationState::Revert | OperationState::RevertSequence => Some("revert"@),
            OperationState::CherryPick | OperationState::CherryPickSequence => Some(
                "cherry-pick"@,
            ),
            OperationState::Bisect => Some("bisect"@),
            OperationState::Rebase | OperationState::RebaseInteractive => Some("rebase"@),
            OperationState::RebaseMerge => Some("rebase-merge"@),
            OperationState::ApplyMailbox | OperationState::ApplyMailboxOrRebase => Some(
                "apply-mailbox"@,
            ),
        }
    }

    /// The label of the operation in progress, or nothing for a clean repository.
    pub fn label(self) -> (label: Option<String>)
        ensures
            label.deep_view() == self.label_of(),
    {
        let name = match self {
            OperationState::Clean => { return None; },
            OperationState::Merge => "merge",
            OperationState::Revert | OperationState::RevertSequence => "revert",
            OperationState::CherryPick | OperationState::CherryPickSequence => "cherry-pick",
            OperationState::Bisect => "bisect",
            OperationState::Rebase | OperationState::RebaseInteractive => "rebase",
            OperationState::RebaseMerge => "rebase-merge",
            OperationState::ApplyMailbox | OperationState::ApplyMailboxOrRebase => "apply-mailbox",
        };
        Some(name.to_owned())
    }
}

/// Only a clean repository has no label, and no label is empty.
pub proof fn law_label_absent(state: OperationState)
    ensures
        state.label_of() is None <==> state == OperationState::Clean,
        state.label_of() matches Some(label) ==> label.len() > 0,
{
    reveal_strlit("merge");
    reveal_strlit("revert");
    reveal_strlit("cherry-pick");
    reveal_strlit("bisect");
    reveal_strlit("rebase");
    reveal_strlit("rebase-merge");
    reveal_strlit("apply-mailbox");
}

} // verus!
