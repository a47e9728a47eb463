//! The status string: one glyph for each distinct kind of change observed,
//! in the order in which the kinds were first met.

use vstd::prelude::*;

use crate::kind::ChangeKind;

verus! {

/// The distinct kinds of a scan, each at the place where it was first met.
pub open spec fn first_seen(kinds: Seq<ChangeKind>) -> Seq<ChangeKind>
    decreases kinds.len(),
{
    if kinds.len() == 0 {
        Seq::empty()
    } else if kinds.drop_last().contains(kinds.last()) {
        first_seen(kinds.drop_last())
    } else {
        first_seen(kinds.drop_last()).push(kinds.last())
    }
}

/// The marks of a sequence of kinds, one after the other.
pub open spec fn marks_of(kinds: Seq<ChangeKind>) -> Seq<char>
    decreases kinds.len(),
{
    if kinds.len() == 0 {
        Seq::empty()
    } else {
        marks_of(kinds.drop_last()) + kinds.last().mark_of()
    }
}

/// The glyphs that a scan of the given kinds yields.
pub open spec fn glyphs_of(kinds: Seq<ChangeKind>) -> Seq<char> {
    marks_of(first_seen(kinds))
}

/// The status field for a scan: absent where no glyph is to be shown.
pub open spec fn status_of(kinds: Seq<ChangeKind>) -> Option<Seq<char>> {
    if glyphs_of(kinds).len() == 0 {
        None
    } else {
        Some(glyphs_of(kinds))
    }
}

fn seen_before(seen: &Vec<ChangeKind>, kind: ChangeKind) -> (found: bool)
    ensures
        found == seen@.contains(kind),
{
    let mut i: usize = 0;
    while i < seen.len()
        invariant
            i <= seen.len(),
            forall|j: int| 0 <= j < i ==> seen@[j] != kind,
        decreases seen.len() - i,
    {
        if seen[i] == kind {
            return true;
        }
        i += 1;
    }
    false
}

/// Scans the kinds of change in the order given and returns the status string:
/// the glyph of each distinct kind, in the order in which the kinds were first
/// met, or nothing where no kind met has a glyph.
pub fn status_glyphs(kinds: &Vec<ChangeKind>) -> (status: Option<String>)
    ensures
        status.deep_view() == status_of(kinds@),
{
    let mut out = String::new();
    let mut seen: Vec<ChangeKind> = Vec::new();
    let mut i: usize = 0;
    while i < kinds.len()
        invariant
            i <= kinds.len(),
            seen@ == first_seen(kinds@.take(i as int)),
            out@ == marks_of(seen@),
        decreases kinds.len() - i,
    {
        let kind = kinds[i];
        proof {
            let scanned = kinds@.take(i as int + 1);
            assert(scanned.drop_last() =~= kinds@.take(i as int));
            assert(scanned.last() == kind);
            lemma_first_seen_members(kinds@.take(i as int), kind);
        }
        if !seen_before(&seen, kind) {
            seen.push(kind);
            out.append(kind.mark());
            proof {
                assert(seen@.drop_last() =~= first_seen(kinds@.take(i as int)));
            }
        }
        i += 1;
    }
    proof {
        assert(kinds@.take(i as int) =~= kinds@);
    }
    if out.as_str().is_empty() {
        None
    } else {
        Some(out)
    }
}

/// A kind occurs among the distinct kinds of a scan exactly if it occurs in the scan.
pub proof fn lemma_first_seen_members(kinds: Seq<ChangeKind>, kind: ChangeKind)
    ensures
        first_seen(kinds).contains(kind) <==> kinds.contains(kind),
    decreases kinds.len(),
{
    if kinds.len() > 0 {
        let earlier = kinds.drop_last();
        lemma_first_seen_members(earlier, kind);
        assert(kinds =~= earlier.push(kinds.last()));
        if kinds.contains(kind) {
            let i = choose|i: int| 0 <= i < kinds.len() && kinds[i] == kind;
            if i < earlier.len() {
                assert(earlier[i] == kind);
            }
        }
        if earlier.contains(kind) {
            let i = choose|i: int| 0 <= i < earlier.len() && earlier[i] == kind;
            assert(kinds[i] == kind);
        }
        if earlier.contains(kinds.last()) {
            lemma_first_seen_members(earlier, kinds.last());
        } else {
            let seen = first_seen(earlier);
            let all = seen.push(kinds.last());
            assert(all[seen.len() as int] == kinds.last());
            if seen.contains(kind) {
                let i = choose|i: int| 0 <= i < seen.len() && seen[i] == kind;
                assert(all[i] == kind);
            }
        }
    }
}

/// No kind occurs twice among the distinct kinds of a scan.
pub proof fn lemma_first_seen_distinct(kinds: Seq<ChangeKind>)
    ensures
        first_seen(kinds).no_duplicates(),
    decreases kinds.len(),
{
    if kinds.len() > 0 {
        let earlier = kinds.drop_last();
        lemma_first_seen_distinct(earlier);
        lemma_first_seen_members(earlier, kinds.last());
    }
}

/// The distinct kinds stand in the order in which the scan first met them:
/// before any occurrence of a later one the scan holds an occurrence of each
/// earlier one.
pub proof fn law_first_seen_order(kinds: Seq<ChangeKind>, i: int, j: int, at: int)
    requires
        0 <= i < j < first_seen(kinds).len(),
        0 <= at < kinds.len(),
        kinds[at] == first_seen(kinds)[j],
    ensures
        exists|before: int| 0 <= before < at && kinds[before] == first_seen(kinds)[i],
    decreases kinds.len(),
{
    let earlier = kinds.drop_last();
    let seen = first_seen(earlier);
    let first = first_seen(kinds)[i];
    lemma_first_seen_members(earlier, kinds.last());
    if at < earlier.len() && j < seen.len() {
        assert(earlier[at] == seen[j]);
        law_first_seen_order(earlier, i, j, at);
        let before = choose|before: int| 0 <= before < at && earlier[before] == seen[i];
        assert(kinds[before] == first);
    } else {
        // The kind at `at` is met there for the first time or is the last of
        // the scan: every earlier distinct kind occurs in front of the last.
        assert(seen[i] == first);
        assert(seen.contains(first));
        lemma_first_seen_members(earlier, first);
        let before = choose|before: int| 0 <= before < earlier.len() && earlier[before] == first;
        assert(kinds[before] == first);
        if at < earlier.len() {
            assert(earlier[at] == kinds.last());
            assert(earlier.contains(kinds.last()));
        }
        if j < seen.len() {
            assert(seen.contains(seen[j]));
            lemma_first_seen_members(earlier, seen[j]);
        }
    }
}

/// A glyph occurs among the marks of some kinds exactly if it is the glyph of one of them.
pub proof fn lemma_marks_members(kinds: Seq<ChangeKind>, glyph: char)
    ensures
        marks_of(kinds).contains(glyph) <==> exists|kind: ChangeKind|
            kinds.contains(kind) && kind.glyph_of() == Some(glyph),
    decreases kinds.len(),
{
    if kinds.len() > 0 {
        let earlier = kinds.drop_last();
        let last = kinds.last();
        let marks = marks_of(earlier);
        lemma_marks_members(earlier, glyph);
        assert(kinds =~= earlier.push(last));
        if marks_of(kinds).contains(glyph) {
            let i = choose|i: int| 0 <= i < marks_of(kinds).len() && marks_of(kinds)[i] == glyph;
            if i < marks.len() {
                assert(marks[i] == glyph);
                let kind = choose|kind: ChangeKind|
                    earlier.contains(kind) && kind.glyph_of() == Some(glyph);
                let at = choose|at: int| 0 <= at < earlier.len() && earlier[at] == kind;
                assert(kinds[at] == kind);
            } else {
                assert(last.mark_of()[i - marks.len()] == glyph);
                assert(kinds[kinds.len() - 1] == last);
            }
        }
        if exists|kind: ChangeKind| kinds.contains(kind) && kind.glyph_of() == Some(glyph) {
            let kind = choose|kind: ChangeKind|
                kinds.contains(kind) && kind.glyph_of() == Some(glyph);
            let at = choose|at: int| 0 <= at < kinds.len() && kinds[at] == kind;
            if at < earlier.len() {
                assert(earlier[at] == kind);
                let i = choose|i: int| 0 <= i < marks.len() && marks[i] == glyph;
                assert(marks_of(kinds)[i] == glyph);
            } else {
                assert(last.mark_of()[0] == glyph);
                assert(marks_of(kinds)[marks.len() as int] == glyph);
            }
        }
    }
}

/// A glyph occurs in the status string exactly if it is the glyph of a kind
/// that the scan holds.
pub proof fn lemma_glyph_members(kinds: Seq<ChangeKind>, glyph: char)
    ensures
        glyphs_of(kinds).contains(glyph) <==> exists|kind: ChangeKind|
            kinds.contains(kind) && kind.glyph_of() == Some(glyph),
{
    lemma_marks_members(first_seen(kinds), glyph);
    if glyphs_of(kinds).contains(glyph) {
        let kind = choose|kind: ChangeKind|
            first_seen(kinds).contains(kind) && kind.glyph_of() == Some(glyph);
        lemma_first_seen_members(kinds, kind);
    }
    if exists|kind: ChangeKind| kinds.contains(kind) && kind.glyph_of() == Some(glyph) {
        let kind = choose|kind: ChangeKind|
            kinds.contains(kind) && kind.glyph_of() == Some(glyph);
        lemma_first_seen_members(kinds, kind);
    }
}

/// The glyphs of the kinds that a scan holds.
pub open spec fn glyph_set(kinds: Seq<ChangeKind>) -> Set<char> {
    Set::new(
        |glyph: char|
            exists|kind: ChangeKind| kinds.contains(kind) && kind.glyph_of() == Some(glyph),
    )
}

/// The glyphs of a status string are those of the kinds that the scan holds,
/// whatever the number of paths that share a kind.
pub proof fn law_glyph_set(kinds: Seq<ChangeKind>)
    ensures
        glyphs_of(kinds).to_set() == glyph_set(kinds),
{
    assert forall|glyph: char|
        glyphs_of(kinds).to_set().contains(glyph) == glyph_set(kinds).contains(glyph) by {
        lemma_glyph_members(kinds, glyph);
    }
    assert(glyphs_of(kinds).to_set() =~= glyph_set(kinds));
}

/// The status field is absent exactly if no kind of the scan has a glyph; so
/// it is for a clean working tree.
pub proof fn law_status_absent(kinds: Seq<ChangeKind>)
    ensures
        status_of(kinds) is None <==> forall|kind: ChangeKind|
            kinds.contains(kind) ==> !kind.is_shown(),
{
    let glyphs = glyphs_of(kinds);
    if glyphs.len() > 0 {
        assert(glyphs.contains(glyphs[0]));
        lemma_glyph_members(kinds, glyphs[0]);
        let kind = choose|kind: ChangeKind|
            kinds.contains(kind) && kind.glyph_of() == Some(glyphs[0]);
        assert(kinds.contains(kind) && kind.is_shown());
    } else {
        assert forall|kind: ChangeKind| kinds.contains(kind) implies !kind.is_shown() by {
            if kind.is_shown() {
                let glyph = kind.glyph_of()->0;
                lemma_glyph_members(kinds, glyph);
                assert(kinds.contains(kind) && kind.glyph_of() == Some(glyph));
                assert(glyphs.contains(glyph));
            }
        }
    }
}

/// One more path of a kind that the scan has met already changes nothing,
/// wherever behind the first path of that kind it comes.
pub proof fn law_repeat_changes_nothing(kinds: Seq<ChangeKind>, at: int, kind: ChangeKind)
    requires
        0 <= at <= kinds.len(),
        kinds.take(at).contains(kind),
    ensures
        first_seen(kinds.insert(at, kind)) == first_seen(kinds),
        status_of(kinds.insert(at, kind)) == status_of(kinds),
    decreases kinds.len(),
{
    let longer = kinds.insert(at, kind);
    let met = choose|met: int| 0 <= met < at && kinds.take(at)[met] == kind;
    assert(kinds[met] == kind);
    if at == kinds.len() {
        assert(longer.drop_last() =~= kinds);
    } else {
        let earlier = kinds.drop_last();
        let last = kinds.last();
        assert(longer.drop_last() =~= earlier.insert(at, kind));
        assert(longer.last() == last);
        assert(earlier.take(at) =~= kinds.take(at));
        law_repeat_changes_nothing(earlier, at, kind);
        assert(earlier[met] == kind);
        if earlier.contains(last) {
            let i = choose|i: int| 0 <= i < earlier.len() && earlier[i] == last;
            assert(earlier.insert(at, kind)[if i < at { i } else { i + 1 }] == last);
        }
        if earlier.insert(at, kind).contains(last) {
            let i = choose|i: int|
                0 <= i < earlier.insert(at, kind).len() && earlier.insert(at, kind)[i] == last;
            if i < at {
                assert(earlier[i] == last);
            } else if i == at {
                assert(earlier[met] == last);
            } else {
                assert(earlier[i - 1] == last);
            }
        }
    }
}

/// Whether no two different kinds of a scan share a glyph.
pub open spec fn glyphs_told_apart(kinds: Seq<ChangeKind>) -> bool {
    forall|a: ChangeKind, b: ChangeKind|
        kinds.contains(a) && kinds.contains(b) && a.is_shown() && a.glyph_of() == b.glyph_of()
            ==> a == b
}

proof fn lemma_marks_distinct(kinds: Seq<ChangeKind>)
    requires
        kinds.no_duplicates(),
        glyphs_told_apart(kinds),
    ensures
        marks_of(kinds).no_duplicates(),
    decreases kinds.len(),
{
    if kinds.len() > 0 {
        let earlier = kinds.drop_last();
        let last = kinds.last();
        let marks = marks_of(earlier);
        assert(kinds[kinds.len() - 1] == last);
        assert forall|a: ChangeKind, b: ChangeKind|
            earlier.contains(a) && earlier.contains(b) && a.is_shown() && a.glyph_of()
                == b.glyph_of() implies a == b by {
            let i = choose|i: int| 0 <= i < earlier.len() && earlier[i] == a;
            let j = choose|j: int| 0 <= j < earlier.len() && earlier[j] == b;
            assert(kinds[i] == a && kinds[j] == b);
        }
        lemma_marks_distinct(earlier);
        if last.is_shown() {
            let glyph = last.glyph_of()->0;
            lemma_marks_members(earlier, glyph);
            if marks.contains(glyph) {
                let kind = choose|kind: ChangeKind|
                    earlier.contains(kind) && kind.glyph_of() == Some(glyph);
                let i = choose|i: int| 0 <= i < earlier.len() && earlier[i] == kind;
                assert(kinds[i] == kind);
                assert(kinds.contains(kind) && kinds.contains(last));
                assert(false);
            }
            assert forall|i: int, j: int|
                0 <= i < marks_of(kinds).len() && 0 <= j < marks_of(kinds).len() && i
                    != j implies marks_of(kinds)[i] != marks_of(kinds)[j] by {
                if i < marks.len() && j < marks.len() {
                    assert(marks[i] != marks[j]);
                } else if i < marks.len() {
                    assert(marks.contains(marks[i]));
                } else if j < marks.len() {
                    assert(marks.contains(marks[j]));
                }
            }
        } else {
            assert(marks_of(kinds) =~= marks);
        }
    }
}

/// The marks of two sequences of kinds, one behind the other, are the marks of
/// the first followed by those of the second.
proof fn lemma_marks_concat(front: Seq<ChangeKind>, back: Seq<ChangeKind>)
    ensures
        marks_of(front + back) == marks_of(front) + marks_of(back),
    decreases back.len(),
{
    if back.len() == 0 {
        assert(front + back =~= front);
        assert(marks_of(front) + marks_of(back) =~= marks_of(front));
    } else {
        let whole = front + back;
        assert(whole.drop_last() =~= front + back.drop_last());
        assert(whole.last() == back.last());
        lemma_marks_concat(front, back.drop_last());
        assert(marks_of(whole) =~= marks_of(front) + marks_of(back));
    }
}

/// Two places of a sequence of kinds that hold the same glyph give that glyph twice.
proof fn lemma_shared_glyph_twice(kinds: Seq<ChangeKind>, i: int, j: int)
    requires
        0 <= i < j < kinds.len(),
        kinds[i].is_shown(),
        kinds[i].glyph_of() == kinds[j].glyph_of(),
    ensures
        !marks_of(kinds).no_duplicates(),
{
    let glyph = kinds[i].glyph_of()->0;
    let head = kinds.take(i);
    let middle = kinds.subrange(i + 1, j);
    let tail = kinds.skip(j + 1);
    let one = seq![kinds[i]];
    let two = seq![kinds[j]];
    assert(kinds =~= head + one + middle + two + tail);
    let none = Seq::<ChangeKind>::empty();
    assert(marks_of(none) =~= Seq::<char>::empty());
    assert(one.drop_last() =~= none && two.drop_last() =~= none);
    assert(kinds[i].mark_of() =~= seq![glyph] && kinds[j].mark_of() =~= seq![glyph]);
    assert(marks_of(one) =~= seq![glyph]);
    assert(marks_of(two) =~= seq![glyph]);
    lemma_marks_concat(head, one);
    lemma_marks_concat(head + one, middle);
    lemma_marks_concat(head + one + middle, two);
    lemma_marks_concat(head + one + middle + two, tail);
    let first = marks_of(head).len() as int;
    let second = first + 1 + marks_of(middle).len();
    assert(marks_of(kinds)[first] == glyph);
    assert(marks_of(kinds)[second] == glyph);
}

/// No glyph occurs twice in the status string exactly if no two different
/// kinds of the scan share a glyph; how many paths share a kind is of no
/// account.
pub proof fn law_glyphs_distinct(kinds: Seq<ChangeKind>)
    ensures
        glyphs_of(kinds).no_duplicates() <==> glyphs_told_apart(kinds),
{
    let seen = first_seen(kinds);
    lemma_first_seen_distinct(kinds);
    if glyphs_told_apart(kinds) {
        assert forall|a: ChangeKind, b: ChangeKind|
            seen.contains(a) && seen.contains(b) && a.is_shown() && a.glyph_of()
                == b.glyph_of() implies a == b by {
            lemma_first_seen_members(kinds, a);
            lemma_first_seen_members(kinds, b);
        }
        lemma_marks_distinct(seen);
    } else {
        let (a, b) = choose|a: ChangeKind, b: ChangeKind|
            kinds.contains(a) && kinds.contains(b) && a.is_shown() && a.glyph_of() == b.glyph_of()
                && a != b;
        lemma_first_seen_members(kinds, a);
        lemma_first_seen_members(kinds, b);
        let i = choose|i: int| 0 <= i < seen.len() && seen[i] == a;
        let j = choose|j: int| 0 <= j < seen.len() && seen[j] == b;
        if i < j {
            lemma_shared_glyph_twice(seen, i, j);
        } else {
            lemma_shared_glyph_twice(seen, j, i);
        }
    }
}

} // verus!
