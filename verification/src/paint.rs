//! Colored text for terminals.

use vstd::prelude::*;
use yansi::Paint;

verus! {

/// The foreground colors in use.
#[derive(Clone, Copy, PartialEq, Eq, Structural)]
pub enum Color {
    Green,
    Blue,
    Cyan,
    White,
}

impl Color {
    /// The escape sequence that turns the color on.
    pub open spec fn start(self) -> Seq<char> {
        match self {
            Color::Green => "\x1B[32m"@,
            Color::Blue => "\x1B[34m"@,
            Color::Cyan => "\x1B[36m"@,
            Color::White => "\x1B[37m"@,
        }
    }
}

/// `text` in a color if `on`, else `text` alone.
pub open spec fn painted(color: Color, text: Seq<char>, on: bool) -> Seq<char> {
    if on {
        color.start() + text + "\x1B[0m"@
    } else {
        text
    }
}

/// `text` holds no escape character.
pub open spec fn no_escape(text: Seq<char>) -> bool {
    forall|i: int| 0 <= i < text.len() ==> #[trigger] text[i] != '\x1B'
}

/// `text` without its escape sequences, each of which starts with an escape
/// character and ends with `m`; `inside` if the text starts amid one.
pub open spec fn visible(text: Seq<char>, inside: bool) -> Seq<char>
    decreases text.len(),
{
    if text.len() == 0 {
        text
    } else if inside {
        visible(text.drop_first(), text[0] != 'm')
    } else if text[0] == '\x1B' {
        visible(text.drop_first(), true)
    } else {
        seq![text[0]] + visible(text.drop_first(), false)
    }
}

/// Text that holds no escape character is visible as a whole, whatever follows it.
pub proof fn law_plain_text_is_visible(text: Seq<char>, rest: Seq<char>)
    requires
        no_escape(text),
    ensures
        visible(text + rest, false) == text + visible(rest, false),
    decreases text.len(),
{
    if text.len() == 0 {
        assert(text + rest =~= rest);
        assert(text + visible(rest, false) =~= visible(rest, false));
    } else {
        let after = text.drop_first();
        law_plain_text_is_visible(after, rest);
        assert((text + rest).drop_first() =~= after + rest);
        assert(seq![text[0]] + (after + visible(rest, false)) =~= text + visible(rest, false));
    }
}

proof fn lemma_sequence_is_invisible(color: Color, rest: Seq<char>)
    ensures
        visible(color.start() + rest, false) == visible(rest, false),
        visible("\x1B[0m"@ + rest, false) == visible(rest, false),
{
    reveal_strlit("\x1B[32m");
    reveal_strlit("\x1B[34m");
    reveal_strlit("\x1B[36m");
    reveal_strlit("\x1B[37m");
    reveal_strlit("\x1B[0m");
    reveal_with_fuel(visible, 6);
    let s = color.start() + rest;
    assert(s.drop_first().drop_first().drop_first().drop_first().drop_first() =~= rest);
    let r = "\x1B[0m"@ + rest;
    assert(r.drop_first().drop_first().drop_first().drop_first() =~= rest);
}

/// Of painted text the text is visible and nothing else, whatever follows it.
pub proof fn law_painting_is_invisible(color: Color, text: Seq<char>, on: bool, rest: Seq<char>)
    requires
        no_escape(text),
    ensures
        visible(painted(color, text, on) + rest, false) == text + visible(rest, false),
{
    if on {
        let end = "\x1B[0m"@ + rest;
        assert(painted(color, text, on) + rest =~= color.start() + (text + end));
        lemma_sequence_is_invisible(color, text + end);
        lemma_sequence_is_invisible(color, rest);
        law_plain_text_is_visible(text, end);
    } else {
        law_plain_text_is_visible(text, rest);
    }
}

/// What is shown of `Paint::green(text)`: the text between the escape
/// sequences for green and for no color, or the text alone. Which of the two
/// depends on whether painting is switched on in the process at the time of
/// the call, and is left open.
#[verifier::external_body]
pub(crate) fn green(text: &str) -> (shown: String)
    ensures
        exists|on: bool| shown@ == #[trigger] painted(Color::Green, text@, on),
{
    Paint::green(text).to_string()
}

/// What is shown of `Paint::blue(text)`: the text between the escape
/// sequences for blue and for no color, or the text alone. Which of the two
/// depends on whether painting is switched on in the process at the time of
/// the call, and is left open.
#[verifier::external_body]
pub(crate) fn blue(text: &str) -> (shown: String)
    ensures
        exists|on: bool| shown@ == #[trigger] painted(Color::Blue, text@, on),
{
    Paint::blue(text).to_string()
}

/// What is shown of `Paint::cyan(text)`: the text between the escape
/// sequences for cyan and for no color, or the text alone. Which of the two
/// depends on whether painting is switched on in the process at the time of
/// the call, and is left open.
#[verifier::external_body]
pub(crate) fn cyan(text: &str) -> (shown: String)
    ensures
        exists|on: bool| shown@ == #[trigger] painted(Color::Cyan, text@, on),
{
    Paint::cyan(text).to_string()
}

/// What is shown of `Paint::white(text)`: the text between the escape
/// sequences for white and for no color, or the text alone. Which of the two
/// depends on whether painting is switched on in the process at the time of
/// the call, and is left open.
#[verifier::external_body]
pub(crate) fn white(text: &str) -> (shown: String)
    ensures
        exists|on: bool| shown@ == #[trigger] painted(Color::White, text@, on),
{
    Paint::white(text).to_string()
}

/// `shown` is what a call of [`green`] made of `text`.
pub(crate) open spec fn is_green(text: Seq<char>, shown: String) -> bool {
    exists|s: &str| s@ == text && #[trigger] call_ensures(green, (s,), shown)
}

/// `shown` is what a call of [`blue`] made of `text`.
pub(crate) open spec fn is_blue(text: Seq<char>, shown: String) -> bool {
    exists|s: &str| s@ == text && #[trigger] call_ensures(blue, (s,), shown)
}

/// `shown` is what a call of [`cyan`] made of `text`.
pub(crate) open spec fn is_cyan(text: Seq<char>, shown: String) -> bool {
    exists|s: &str| s@ == text && #[trigger] call_ensures(cyan, (s,), shown)
}

/// `shown` is what a call of [`white`] made of `text`.
pub(crate) open spec fn is_white(text: Seq<char>, shown: String) -> bool {
    exists|s: &str| s@ == text && #[trigger] call_ensures(white, (s,), shown)
}

} // verus!
