//! The four fields of the prompt and the line that they make.

use vstd::prelude::*;

use crate::paint::{paint, painted, Paint};

verus! {

/// The fields of the prompt: the branch, and the three that may be absent.
#[derive(Debug, PartialEq, Eq)]
pub struct Summary {
    pub branch: String,
    pub revision: Option<String>,
    pub status: Option<String>,
    pub operation: Option<String>,
}

/// Texts joined by single spaces: no space in front, none behind.
pub open spec fn joined(parts: Seq<Seq<char>>) -> Seq<char>
    decreases parts.len(),
{
    if parts.len() == 0 {
        Seq::empty()
    } else if parts.len() == 1 {
        parts[0]
    } else {
        joined(parts.drop_last()) + seq![' '] + parts.last()
    }
}

/// A field in its colour if it is present, nothing if it is absent.
pub open spec fn shown(field: Option<Seq<char>>, colour: Paint) -> Seq<Seq<char>> {
    match field {
        Some(text) => seq![painted(text, colour)],
        None => Seq::empty(),
    }
}

/// The branch and the joined fields in their frame.
pub open spec fn framed(branch: Seq<char>, rest: Seq<char>) -> Seq<char> {
    seq!['['] + branch + seq![' ', '@', ' '] + rest + seq![']', ' ']
}

/// The line of the prompt: the branch in blue, then the fields that are
/// present, the revision in yellow, the status in red and the operation in
/// green, joined by single spaces.
pub open spec fn line_of(
    branch: Seq<char>,
    revision: Option<Seq<char>>,
    status: Option<Seq<char>>,
    operation: Option<Seq<char>>,
) -> Seq<char> {
    framed(
        painted(branch, Paint::Blue),
        joined(
            shown(revision, Paint::Yellow) + shown(status, Paint::Red) + shown(
                operation,
                Paint::Green,
            ),
        ),
    )
}

/// Joins texts by single spaces.
pub fn join_spaced(parts: &Vec<String>) -> (out: String)
    ensures
        out@ == joined(parts.deep_view()),
{
    let ghost texts = parts.deep_view();
    let mut out = String::new();
    let mut i: usize = 0;
    while i < parts.len()
        invariant
            i <= parts.len(),
            texts == parts.deep_view(),
            out@ == joined(texts.take(i as int)),
        decreases parts.len() - i,
    {
        proof {
            let taken = texts.take(i as int + 1);
            assert(taken.drop_last() =~= texts.take(i as int));
            assert(taken.last() == parts@[i as int]@);
            reveal_strlit(" ");
            assert(" "@ =~= seq![' ']);
            if i == 0 {
                assert(joined(texts.take(0)) =~= Seq::<char>::empty());
            }
        }
        if i > 0 {
            out.append(" ");
        }
        out.append(parts[i].as_str());
        i += 1;
    }
    proof {
        assert(texts.take(i as int) =~= texts);
    }
    out
}

impl Summary {
    /// The line that the fields make.
    pub open spec fn line(self) -> Seq<char> {
        line_of(
            self.branch@,
            self.revision.deep_view(),
            self.status.deep_view(),
            self.operation.deep_view(),
        )
    }

    /// Renders the line: `[branch @ fields] `, each in its colour, the fields
    /// that are present joined by single spaces.
    pub fn render(&self) -> (line: String)
        ensures
            line@ == self.line(),
    {
        let mut parts: Vec<String> = Vec::new();
        if let Some(revision) = &self.revision {
            parts.push(paint(revision.as_str(), Paint::Yellow));
        }
        if let Some(status) = &self.status {
            parts.push(paint(status.as_str(), Paint::Red));
        }
        if let Some(operation) = &self.operation {
            parts.push(paint(operation.as_str(), Paint::Green));
        }
        proof {
            assert(parts.deep_view() =~= shown(self.revision.deep_view(), Paint::Yellow) + shown(
                self.status.deep_view(),
                Paint::Red,
            ) + shown(self.operation.deep_view(), Paint::Green));
        }
        let rest = join_spaced(&parts);
        let branch = paint(self.branch.as_str(), Paint::Blue);
        proof {
            reveal_strlit("[");
            reveal_strlit(" @ ");
            reveal_strlit("] ");
            assert("["@ =~= seq!['[']);
            assert(" @ "@ =~= seq![' ', '@', ' ']);
            assert("] "@ =~= seq![']', ' ']);
        }
        let mut line = "[".to_owned();
        line.append(branch.as_str());
        line.append(" @ ");
        line.append(rest.as_str());
        line.append("] ");
        line
    }
}

} // verus!
