//! How a path differs between the index and the working tree, and the glyph
//! that stands for each kind of difference.

use vstd::prelude::*;

verus! {

/// The kind of change recorded for one path.
#[derive(Clone, Copy, Debug, PartialEq, Eq, Structural)]
pub enum ChangeKind {
    Unmodified,
    Added,
    Deleted,
    Modified,
    Renamed,
    Copied,
    Ignored,
    Untracked,
    TypeChanged,
    Unreadable,
    Conflicted,
}

impl ChangeKind {
    /// The glyph shown for a kind of change; kinds that are not shown have none.
    pub open spec fn glyph_of(self) -> Option<char> {
        match self {
            ChangeKind::Added => Some('+'),
            ChangeKind::Deleted => Some('-'),
            ChangeKind::Modified | ChangeKind::Renamed | ChangeKind::TypeChanged => Some('*'),
            ChangeKind::Untracked => Some('?'),
            ChangeKind::Conflicted => Some('#'),
            ChangeKind::Unmodified
            | ChangeKind::Copied
            | ChangeKind::Ignored
            | ChangeKind::Unreadable => None,
        }
    }

    /// What a kind of change adds to a status string: its glyph, or nothing.
    pub open spec fn mark_of(self) -> Seq<char> {
        match self.glyph_of() {
            Some(glyph) => seq![glyph],
            None => Seq::empty(),
        }
    }

    /// Whether a kind of change is shown at all.
    pub open spec fn is_shown(self) -> bool {
        self.glyph_of() is Some
    }

    /// The glyph shown for the kind, if it has one.
    pub fn glyph(self) -> (glyph: Option<char>)
        ensures
            glyph == self.glyph_of(),
    {
        match self {
            ChangeKind::Added => Some('+'),
            ChangeKind::Deleted => Some('-'),
            ChangeKind::Modified | ChangeKind::Renamed | ChangeKind::TypeChanged => Some('*'),
            ChangeKind::Untracked => Some('?'),
            ChangeKind::Conflicted => Some('#'),
            ChangeKind::Unmodified
            | ChangeKind::Copied
            | ChangeKind::Ignored
            | ChangeKind::Unreadable => None,
        }
    }

    /// The glyph of a kind as text, empty for a kind that is not shown.
    pub fn mark(self) -> (mark: &'static str)
        ensures
            mark@ == self.mark_of(),
    {
        proof {
            reveal_strlit("+");
            reveal_strlit("-");
            reveal_strlit("*");
            reveal_strlit("?");
            reveal_strlit("#");
            reveal_strlit("");
        }
        let mark = match self {
            ChangeKind::Added => "+",
            ChangeKind::Deleted => "-",
            ChangeKind::Modified | ChangeKind::Renamed | ChangeKind::TypeChanged => "*",
            ChangeKind::Untracked => "?",
            ChangeKind::Conflicted => "#",
            ChangeKind::Unmodified
            | ChangeKind::Copied
            | ChangeKind::Ignored
            | ChangeKind::Unreadable => "",
        };
        assert(mark@ =~= self.mark_of());
        mark
    }
}

} // verus!
