//! Terminal colours for the fields of the prompt, applied by `colorful`.

use colorful::Colorful;
use vstd::prelude::*;

verus! {

/// The colours that the prompt uses.
#[derive(Clone, Copy, Debug, PartialEq, Eq, Structural)]
pub enum Paint {
    Red,
    Green,
    Yellow,
    Blue,
}

impl Paint {
    /// The digit that selects the colour in an escape sequence.
    pub open spec fn code(self) -> char {
        match self {
            Paint::Red => '1',
            Paint::Green => '2',
            Paint::Yellow => '3',
            Paint::Blue => '4',
        }
    }
}

/// The escape sequence that switches the foreground to a colour.
pub open spec fn colour_on(colour: Paint) -> Seq<char> {
    seq!['\x1b', '[', '3', '8', ';', '5', ';', colour.code(), 'm']
}

/// The escape sequence that resets the terminal's colours.
pub open spec fn colour_off() -> Seq<char> {
    seq!['\x1b', '[', '0', 'm']
}

/// A text in a colour: the text between the sequence that switches the colour
/// on and the one that resets it.
pub open spec fn painted(text: Seq<char>, colour: Paint) -> Seq<char> {
    colour_on(colour) + text + colour_off()
}

/// `colorful::Colorful::red` on a `&str`, and the `Display` of the
/// `CString` that it returns: the text after the sequence for the
/// foreground colour 1 of the 256-colour palette and before the reset.
#[verifier::external_body]
fn red(text: &str) -> (out: String)
    ensures
        out@ == painted(text@, Paint::Red),
{
    text.red().to_string()
}

/// `colorful::Colorful::green` on a `&str`, and the `Display` of the
/// `CString` that it returns: the text after the sequence for the
/// foreground colour 2 of the 256-colour palette and before the reset.
#[verifier::external_body]
fn green(text: &str) -> (out: String)
    ensures
        out@ == painted(text@, Paint::Green),
{
    text.green().to_string()
}

/// `colorful::Colorful::yellow` on a `&str`, and the `Display` of the
/// `CString` that it returns: the text after the sequence for the
/// foreground colour 3 of the 256-colour palette and before the reset.
#[verifier::external_body]
fn yellow(text: &str) -> (out: String)
    ensures
        out@ == painted(text@, Paint::Yellow),
{
    text.yellow().to_string()
}

/// `colorful::Colorful::blue` on a `&str`, and the `Display` of the
/// `CString` that it returns: the text after the sequence for the
/// foreground colour 4 of the 256-colour palette and before the reset.
#[verifier::external_body]
fn blue(text: &str) -> (out: String)
    ensures
        out@ == painted(text@, Paint::Blue),
{
    text.blue().to_string()
}

/// Puts a text in a colour.
pub fn paint(text: &str, colour: Paint) -> (out: String)
    ensures
        out@ == painted(text@, colour),
{
    match colour {
        Paint::Red => red(text),
        Paint::Green => green(text),
        Paint::Yellow => yellow(text),
        Paint::Blue => blue(text),
    }
}

/// What is left of a painted text without its two escape sequences.
pub open spec fn unpainted(text: Seq<char>) -> Seq<char> {
    text.subrange(colour_on(Paint::Red).len() as int, text.len() - colour_off().len())
}

/// Painting adds the two escape sequences and nothing else: a painted text is
/// never empty, and without the sequences it is the text that was painted.
pub proof fn law_paint_keeps_text(text: Seq<char>, colour: Paint)
    ensures
        painted(text, colour).len() == text.len() + 13,
        unpainted(painted(text, colour)) == text,
{
    assert(unpainted(painted(text, colour)) =~= text);
}

} // verus!
