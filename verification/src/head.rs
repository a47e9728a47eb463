//! The HEAD of a repository as the prompt reads it.

use vstd::prelude::*;

use crate::commit::CommitId;

verus! {

/// The current HEAD of a repository: its short name, where it has one, and
/// the commit that it points to.
#[derive(Debug, PartialEq, Eq)]
pub struct HeadReference {
    pub shorthand: Option<String>,
    pub target: CommitId,
}

impl HeadReference {
    /// A HEAD with the given short name that points to the given commit.
    pub fn new(shorthand: Option<String>, target: CommitId) -> (head: HeadReference)
        ensures
            head.shorthand == shorthand,
            head.target == target,
    {
        HeadReference { shorthand, target }
    }
}

} // verus!
