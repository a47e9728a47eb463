//! Commit ids in their full hexadecimal form, and the abbreviated revision.

use vstd::prelude::*;
use vstd::string::StringSliceAdditionalSpecFns;

verus! {

/// The number of hexadecimal digits of a full commit id.
pub const COMMIT_ID_LENGTH: usize = 40;

/// The number of leading digits of a commit id that a revision shows.
pub const REVISION_LENGTH: usize = 13;

/// Whether a character is a hexadecimal digit; its letters may be small or capital.
pub open spec fn is_hex_digit(c: char) -> bool {
    ('0' <= c <= '9') || ('a' <= c <= 'f') || ('A' <= c <= 'F')
}

/// Whether a text is a full commit id: forty hexadecimal digits.
pub open spec fn is_commit_hex(text: Seq<char>) -> bool {
    &&& text.len() == COMMIT_ID_LENGTH
    &&& forall|i: int| 0 <= i < text.len() ==> is_hex_digit(#[trigger] text[i])
}

/// The revision of a commit id: its first thirteen digits.
pub open spec fn revision_of(id: Seq<char>) -> Seq<char> {
    id.take(REVISION_LENGTH as int)
}

/// The full id of a commit. Every value holds forty hexadecimal digits.
#[derive(Debug, PartialEq, Eq)]
pub struct CommitId {
    hex: String,
}

impl View for CommitId {
    type V = Seq<char>;

    closed spec fn view(&self) -> Seq<char> {
        self.hex@
    }
}

fn is_hex_byte(byte: u8) -> (hex: bool)
    ensures
        hex == ((48 <= byte <= 57) || (97 <= byte <= 102) || (65 <= byte <= 70)),
{
    (48 <= byte && byte <= 57) || (97 <= byte && byte <= 102) || (65 <= byte && byte <= 70)
}

proof fn lemma_hex_digit_byte(c: char)
    requires
        '\0' <= c <= '\u{7f}',
    ensures
        is_hex_digit(c) <==> ((48 <= c as u8 <= 57) || (97 <= c as u8 <= 102) || (65 <= c as u8
            <= 70)),
{
}

impl CommitId {
    #[verifier::type_invariant]
    spec fn well_formed(self) -> bool {
        is_commit_hex(self.hex@)
    }

    /// Takes a text as a commit id if it is one: forty hexadecimal digits.
    pub fn parse(text: &str) -> (id: Option<CommitId>)
        ensures
            id is Some <==> is_commit_hex(text@),
            id matches Some(commit) ==> commit@ == text@,
    {
        broadcast use vstd::string::is_ascii_spec_bytes;

        if !text.is_ascii() {
            proof {
                let i = choose|i: int|
                    0 <= i < text@.len() && !('\0' <= #[trigger] text@[i] <= '\u{7f}');
                assert(!is_hex_digit(text@[i]));
            }
            return None;
        }
        assert(text@.len() == text.spec_bytes().len());
        if text.as_bytes().len() != COMMIT_ID_LENGTH {
            return None;
        }
        let mut i: usize = 0;
        while i < COMMIT_ID_LENGTH
            invariant
                i <= COMMIT_ID_LENGTH,
                text.is_ascii(),
                text@.len() == COMMIT_ID_LENGTH,
                forall|j: int| 0 <= j < i ==> is_hex_digit(#[trigger] text@[j]),
            decreases COMMIT_ID_LENGTH - i,
        {
            let byte = text.get_ascii(i);
            proof {
                lemma_hex_digit_byte(text@[i as int]);
            }
            if !is_hex_byte(byte) {
                return None;
            }
            i += 1;
        }
        Some(CommitId { hex: text.to_owned() })
    }

    /// The forty digits of the id.
    pub fn as_str(&self) -> (hex: &str)
        ensures
            hex@ == self@,
            is_commit_hex(hex@),
    {
        proof {
            use_type_invariant(self);
        }
        self.hex.as_str()
    }

    /// The revision: the first thirteen digits of the id.
    pub fn short(&self) -> (revision: String)
        ensures
            revision@ == revision_of(self@),
            revision@.len() == REVISION_LENGTH,
            revision@.is_prefix_of(self@),
    {
        proof {
            use_type_invariant(self);
        }
        let hex = self.hex.as_str();
        assert(hex.is_ascii());
        hex.substring_ascii(0, REVISION_LENGTH).to_owned()
    }
}

impl Clone for CommitId {
    fn clone(&self) -> (copy: CommitId)
        ensures
            copy@ == self@,
    {
        proof {
            use_type_invariant(self);
        }
        CommitId { hex: self.hex.clone() }
    }
}

} // verus!
