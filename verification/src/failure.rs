//! What can keep the prompt from being derived, and what is shown instead.

use vstd::prelude::*;

use crate::paint::{paint, painted, Paint};

verus! {

/// The reasons for which no summary can be derived.
#[derive(Clone, Copy, Debug, PartialEq, Eq, Structural)]
pub enum Failure {
    /// No repository holds the current directory.
    NotARepository,
    /// There is a repository, but its HEAD cannot be read.
    UnresolvableHead,
    /// HEAD was read, but it has no short name.
    MalformedBranchName,
}

impl Failure {
    /// What is shown in place of the prompt: nothing outside a repository, a
    /// marker in red for a HEAD that cannot be read, a placeholder for a HEAD
    /// without a short name.
    pub open spec fn fallback_of(self) -> Seq<char> {
        match self {
            Failure::NotARepository => Seq::empty(),
            Failure::UnresolvableHead => painted("[no head] "@, Paint::Red),
            Failure::MalformedBranchName => "???"@,
        }
    }

    /// The text to show in place of the prompt.
    pub fn fallback(self) -> (text: String)
        ensures
            text@ == self.fallback_of(),
    {
        match self {
            Failure::NotARepository => String::new(),
            Failure::UnresolvableHead => paint("[no head] ", Paint::Red),
            Failure::MalformedBranchName => "???".to_owned(),
        }
    }
}

} // verus!
