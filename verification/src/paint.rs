//! Styled text: what a style does to a text once it is painted for a
//! terminal.

use colored::Colorize;
use vstd::prelude::*;

verus! {

/// The styles the report is painted in.
#[derive(Clone, Copy, Debug, PartialEq, Eq, Structural)]
pub enum Style {
    Plain,
    Bold,
    BoldRed,
    BoldGreen,
    BoldBlue,
}

impl Style {
    /// The parameters of the escape sequence that switches the style on;
    /// the plain style has none.
    pub open spec fn code(self) -> Option<Seq<char>> {
        match self {
            Style::Plain => None,
            Style::Bold => Some("1"@),
            Style::BoldRed => Some("1;31"@),
            Style::BoldGreen => Some("1;32"@),
            Style::BoldBlue => Some("1;34"@),
        }
    }
}

/// The escape sequence that switches a style on.
pub open spec fn style_on(code: Seq<char>) -> Seq<char> {
    "\x1b["@ + code + "m"@
}

/// The escape sequence that switches every style off.
pub open spec fn style_off() -> Seq<char> {
    "\x1b[0m"@
}

/// The text holds an escape character.
pub open spec fn has_escape(text: Seq<char>) -> bool {
    text.contains('\x1b')
}

/// `out` is `text` painted in `style`.
///
/// Plain text is painted as itself. In any other style, a text free of
/// escape characters is painted as the bare text when colours are switched
/// off, and as the text between the style's opening sequence and the
/// closing sequence when they are switched on. Whether they are on is not
/// for this library to say: the terminal and variables such as `NO_COLOR`
/// decide. The question is asked more than once while a text is painted;
/// should the answer change in between, the opening sequence can be
/// missing. Of a text that holds an escape character nothing is said.
pub open spec fn is_painted(out: Seq<char>, text: Seq<char>, style: Style) -> bool {
    match style.code() {
        None => out == text,
        Some(code) => !has_escape(text) ==> {
            ||| out == text
            ||| out == text + style_off()
            ||| out == style_on(code) + text + style_off()
        },
    }
}

/// Calls `Colorize::bold` of the `colored` crate on `text` and formats the
/// result. Not proved, but taken from the crate: when colours are off it
/// writes the text as it is, and otherwise `ESC[1m`, the text, and the
/// reset sequence `ESC[0m`; this is what [`is_painted`] says of
/// [`Style::Bold`].
#[verifier::external_body]
fn bold(text: &str) -> (painted: String)
    ensures
        is_painted(painted@, text@, Style::Bold),
{
    format!("{}", text.bold())
}

/// Calls `Colorize::bold` and `Colorize::red` of the `colored` crate on
/// `text` and formats the result. Not proved, but taken from the crate:
/// when colours are off it writes the text as it is, and otherwise
/// `ESC[1;31m`, the text, and the reset sequence `ESC[0m`; this is what
/// [`is_painted`] says of [`Style::BoldRed`].
#[verifier::external_body]
fn bold_red(text: &str) -> (painted: String)
    ensures
        is_painted(painted@, text@, Style::BoldRed),
{
    format!("{}", text.bold().red())
}

/// Calls `Colorize::bold` and `Colorize::green` of the `colored` crate on
/// `text` and formats the result. Not proved, but taken from the crate:
/// when colours are off it writes the text as it is, and otherwise
/// `ESC[1;32m`, the text, and the reset sequence `ESC[0m`; this is what
/// [`is_painted`] says of [`Style::BoldGreen`].
#[verifier::external_body]
fn bold_green(text: &str) -> (painted: String)
    ensures
        is_painted(painted@, text@, Style::BoldGreen),
{
    format!("{}", text.bold().green())
}

/// Calls `Colorize::bold` and `Colorize::blue` of the `colored` crate on
/// `text` and formats the result. Not proved, but taken from the crate:
/// when colours are off it writes the text as it is, and otherwise
/// `ESC[1;34m`, the text, and the reset sequence `ESC[0m`; this is what
/// [`is_painted`] says of [`Style::BoldBlue`].
#[verifier::external_body]
fn bold_blue(text: &str) -> (painted: String)
    ensures
        is_painted(painted@, text@, Style::BoldBlue),
{
    format!("{}", text.bold().blue())
}

/// Paints a text in a style.
pub fn paint(text: &str, style: Style) -> (painted: String)
    ensures
        is_painted(painted@, text@, style),
{
    match style {
        Style::Plain => String::from_str(text),
        Style::Bold => bold(text),
        Style::BoldRed => bold_red(text),
        Style::BoldGreen => bold_green(text),
        Style::BoldBlue => bold_blue(text),
    }
}

} // verus!
