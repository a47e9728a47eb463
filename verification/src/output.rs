//! From what was read of a repository to the text of the prompt.

use vstd::prelude::*;

use crate::commit::{revision_of, REVISION_LENGTH};
use crate::failure::Failure;
use crate::head::HeadReference;
use crate::kind::ChangeKind;
use crate::paint::{painted, Paint};
use crate::state::{law_label_absent, OperationState};
use crate::status::{law_status_absent, status_glyphs, status_of};
use crate::summary::{framed, joined, line_of, shown, Summary};

verus! {

/// What was read of a repository: its HEAD, unless that could not be read;
/// the operation in progress; and the kinds of change between the index and
/// the working tree in the order of the scan, unless no scan could be made.
#[derive(Debug, PartialEq, Eq)]
pub struct OutputData {
    pub head: Option<HeadReference>,
    pub operation: OperationState,
    pub changes: Option<Vec<ChangeKind>>,
}

impl OutputData {
    /// The branch label: the short name of HEAD.
    pub open spec fn branch_of(self) -> Result<Seq<char>, Failure> {
        match self.head {
            None => Err(Failure::UnresolvableHead),
            Some(head) => match head.shorthand {
                None => Err(Failure::MalformedBranchName),
                Some(name) => Ok(name@),
            },
        }
    }

    /// The revision: the first digits of the commit that HEAD points to.
    pub open spec fn rev_of(self) -> Result<Option<Seq<char>>, Failure> {
        match self.head {
            None => Err(Failure::UnresolvableHead),
            Some(head) => Ok(Some(revision_of(head.target@))),
        }
    }

    /// The label of the operation in progress.
    pub open spec fn state_of(self) -> Option<Seq<char>> {
        self.operation.label_of()
    }

    /// The status glyphs; none where no scan could be made.
    pub open spec fn status_of(self) -> Option<Seq<char>> {
        match self.changes {
            None => None,
            Some(kinds) => status_of(kinds@),
        }
    }

    /// The line of the prompt, or the reason for which there is none. A HEAD
    /// that cannot be read is told before one without a short name.
    pub open spec fn line_of(self) -> Result<Seq<char>, Failure> {
        match (self.rev_of(), self.branch_of()) {
            (Err(failure), _) => Err(failure),
            (Ok(_), Err(failure)) => Err(failure),
            (Ok(revision), Ok(branch)) => Ok(
                line_of(branch, revision, self.status_of(), self.state_of()),
            ),
        }
    }

    /// Puts together what was read of a repository.
    pub fn new(
        head: Option<HeadReference>,
        operation: OperationState,
        changes: Option<Vec<ChangeKind>>,
    ) -> (data: OutputData)
        ensures
            data.head == head,
            data.operation == operation,
            data.changes == changes,
    {
        OutputData { head, operation, changes }
    }

    /// HEAD, or the failure to read it.
    pub fn head(&self) -> (head: Result<&HeadReference, Failure>)
        ensures
            match self.head {
                Some(read) => head == Ok::<&HeadReference, Failure>(&read),
                None => head == Err::<&HeadReference, Failure>(Failure::UnresolvableHead),
            },
    {
        match &self.head {
            Some(head) => Ok(head),
            None => Err(Failure::UnresolvableHead),
        }
    }

    /// The branch label: the short name of HEAD. It fails where HEAD could
    /// not be read or has no short name.
    pub fn branch(&self) -> (branch: Result<String, Failure>)
        ensures
            match self.branch_of() {
                Ok(name) => branch is Ok && branch->Ok_0@ == name,
                Err(failure) => branch == Err::<String, Failure>(failure),
            },
    {
        let head = match self.head() {
            Ok(head) => head,
            Err(failure) => { return Err(failure); },
        };
        match &head.shorthand {
            Some(name) => Ok(name.clone()),
            None => Err(Failure::MalformedBranchName),
        }
    }

    /// The revision: the first thirteen digits of the commit that HEAD points
    /// to, present whenever HEAD could be read.
    pub fn rev(&self) -> (revision: Result<Option<String>, Failure>)
        ensures
            match self.rev_of() {
                Ok(text) => revision is Ok && revision->Ok_0.deep_view() == text,
                Err(failure) => revision == Err::<Option<String>, Failure>(failure),
            },
            revision matches Ok(Some(text)) ==> text@.len() == REVISION_LENGTH
                && text@.is_prefix_of(self.head->0.target@),
    {
        match self.head() {
            Ok(head) => Ok(Some(head.target.short())),
            Err(failure) => Err(failure),
        }
    }

    /// The label of the operation in progress, absent for a clean repository.
    pub fn state(&self) -> (label: Option<String>)
        ensures
            label.deep_view() == self.state_of(),
    {
        self.operation.label()
    }

    /// The status glyphs, absent where there is none to show or no scan could
    /// be made.
    pub fn status(&self) -> (status: Option<String>)
        ensures
            status.deep_view() == self.status_of(),
    {
        match &self.changes {
            Some(kinds) => status_glyphs(kinds),
            None => None,
        }
    }

    /// The four fields of the prompt, or the reason for which there are none.
    pub fn summary(&self) -> (summary: Result<Summary, Failure>)
        ensures
            match self.line_of() {
                Ok(line) => summary is Ok && summary->Ok_0.line() == line,
                Err(failure) => summary == Err::<Summary, Failure>(failure),
            },
            summary matches Ok(fields) ==> {
                &&& Ok::<Seq<char>, Failure>(fields.branch@) == self.branch_of()
                &&& Ok::<Option<Seq<char>>, Failure>(fields.revision.deep_view()) == self.rev_of()
                &&& fields.status.deep_view() == self.status_of()
                &&& fields.operation.deep_view() == self.state_of()
            },
    {
        let revision = match self.rev() {
            Ok(revision) => revision,
            Err(failure) => { return Err(failure); },
        };
        let status = self.status();
        let operation = self.state();
        let branch = match self.branch() {
            Ok(branch) => branch,
            Err(failure) => { return Err(failure); },
        };
        Ok(Summary { branch, revision, status, operation })
    }
}

/// The text of the prompt for what was found.
pub open spec fn prompt_of(found: Option<OutputData>) -> Seq<char> {
    match found {
        None => Failure::NotARepository.fallback_of(),
        Some(data) => match data.line_of() {
            Ok(line) => line,
            Err(failure) => failure.fallback_of(),
        },
    }
}

/// The text to print: the line of the prompt for a repository whose HEAD has
/// a short name, nothing outside a repository, and otherwise the fallback of
/// the failure.
pub fn prompt(found: Option<&OutputData>) -> (text: String)
    ensures
        text@ == prompt_of(
            match found {
                Some(data) => Some(*data),
                None => None,
            },
        ),
{
    match found {
        None => Failure::NotARepository.fallback(),
        Some(data) => match data.summary() {
            Ok(summary) => summary.render(),
            Err(failure) => failure.fallback(),
        },
    }
}

/// Whether a working tree is clean as far as the prompt shows: no scan was
/// made, or no kind of change that it met has a glyph.
pub open spec fn nothing_to_show(changes: Option<Vec<ChangeKind>>) -> bool {
    changes matches Some(kinds) ==> forall|kind: ChangeKind|
        kinds@.contains(kind) ==> !kind.is_shown()
}

/// The status field is absent exactly for a working tree with nothing to
/// show, the operation field exactly for a clean repository: with a clean
/// working tree and no operation in progress both are absent.
pub proof fn law_clean_is_silent(data: OutputData)
    ensures
        data.status_of() is None <==> nothing_to_show(data.changes),
        data.state_of() is None <==> data.operation == OperationState::Clean,
{
    if let Some(kinds) = data.changes {
        law_status_absent(kinds@);
    }
    law_label_absent(data.operation);
}

/// The operation label depends on the operation alone, whatever else was
/// read of the repository.
pub proof fn law_label_of_operation_alone(one: OutputData, other: OutputData)
    requires
        one.operation == other.operation,
    ensures
        one.state_of() == other.state_of(),
{
}

/// With nothing to show but the revision, the line is the branch and the
/// revision in their colours, with one space on each side of the `@`.
pub proof fn law_clean_line(data: OutputData)
    requires
        data.branch_of() is Ok,
        nothing_to_show(data.changes),
        data.operation == OperationState::Clean,
    ensures
        data.line_of() == Ok::<Seq<char>, Failure>(
            framed(
                painted(data.branch_of()->Ok_0, Paint::Blue),
                painted(revision_of(data.head->0.target@), Paint::Yellow),
            ),
        ),
{
    law_clean_is_silent(data);
    let revision = Some(revision_of(data.head->0.target@));
    let parts = shown(revision, Paint::Yellow) + shown(None, Paint::Red) + shown(
        None,
        Paint::Green,
    );
    assert(parts =~= seq![painted(revision->0, Paint::Yellow)]);
}

/// With no field present the line is the branch in its frame: no space is
/// left over from the join.
pub proof fn law_bare_line(branch: Seq<char>)
    ensures
        line_of(branch, None, None, None) == seq!['['] + painted(branch, Paint::Blue) + seq![
            ' ',
            '@',
            ' ',
            ']',
            ' ',
        ],
{
    let parts = shown(None, Paint::Yellow) + shown(None, Paint::Red) + shown(None, Paint::Green);
    assert(parts =~= Seq::<Seq<char>>::empty());
    assert(joined(parts) =~= Seq::<char>::empty());
    assert(line_of(branch, None, None, None) =~= seq!['['] + painted(branch, Paint::Blue) + seq![
        ' ',
        '@',
        ' ',
        ']',
        ' ',
    ]);
}

/// Outside a repository nothing is printed.
pub proof fn law_outside_repository()
    ensures
        prompt_of(None).len() == 0,
{
}

/// Where HEAD cannot be read, the marker in red is all that is printed,
/// whatever else was read.
pub proof fn law_unreadable_head(data: OutputData)
    requires
        data.head is None,
    ensures
        prompt_of(Some(data)) == painted("[no head] "@, Paint::Red),
{
}

/// Where HEAD was read but has no short name, the placeholder is all that is
/// printed.
pub proof fn law_nameless_head(data: OutputData)
    requires
        data.head matches Some(head) && head.shorthand is None,
    ensures
        prompt_of(Some(data)) == "???"@,
{
}

} // verus!
