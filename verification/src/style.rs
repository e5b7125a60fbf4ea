//! Colouring for the terminal.
//!
//! The colouring itself is done by the `colored` crate, which also decides,
//! from the environment of the process, whether anything is coloured at all.
//! This module states what comes back from it either way.

use vstd::prelude::*;
use vstd::string::*;
use colored::Colorize;
use crate::bucket::ColorClass;

verus! {

/// The escape sequence that ends all colouring.
pub open spec fn sgr_reset() -> Seq<char> {
    seq!['\u{1b}', '[', '0', 'm']
}

/// The escape sequence that switches on the rendition with the given code.
pub open spec fn sgr_start(code: Seq<char>) -> Seq<char> {
    seq!['\u{1b}', '['] + code + seq!['m']
}

/// `text` with `start` put in again behind every reset sequence it holds, so
/// that a reset inside the text does not end the colouring around it.
pub open spec fn rearmed(text: Seq<char>, start: Seq<char>) -> Seq<char>
    decreases text.len(),
{
    if text.len() < 4 {
        text
    } else if text.subrange(0, 4) == sgr_reset() {
        sgr_reset() + start + rearmed(text.subrange(4, text.len() as int), start)
    } else {
        seq![text[0]] + rearmed(text.drop_first(), start)
    }
}

/// `text` shown in the rendition with the given code: switched on before
/// the text, kept on through it, and reset after it.
pub open spec fn ansi_styled(text: Seq<char>, code: Seq<char>) -> Seq<char> {
    sgr_start(code) + rearmed(text, sgr_start(code)) + sgr_reset()
}

impl ColorClass {
    /// The rendition code of the class: bright yellow, bright blue, faint,
    /// bright cyan. The default class has none.
    pub open spec fn sgr_code(self) -> Seq<char> {
        match self {
            ColorClass::Yellow => seq!['9', '3'],
            ColorClass::Blue => seq!['9', '4'],
            ColorClass::Dim => seq!['2'],
            ColorClass::Cyan => seq!['9', '6'],
            ColorClass::Default => Seq::<char>::empty(),
        }
    }
}

/// What a terminal may be sent for `text` in the rendition with the given
/// code: the text in that rendition, or the text as it is. Which of the two
/// depends on whether the process colours its output at all.
pub open spec fn styled_or_plain(shown: Seq<char>, text: Seq<char>, code: Seq<char>) -> bool {
    shown == text || shown == ansi_styled(text, code)
}

/// What a terminal may be sent for `text` in a colour class: for the default
/// class the text as it is, for any other the text in the class's rendition
/// or as it is.
pub open spec fn shown_as(shown: Seq<char>, text: Seq<char>, class: ColorClass) -> bool {
    match class {
        ColorClass::Default => shown == text,
        _ => styled_or_plain(shown, text, class.sgr_code()),
    }
}

/// Calls `bright_yellow` of `colored::Colorize` on the text and formats the
/// coloured string. By the crate's `Display` impl the outcome is the text
/// itself where colouring is off for the process, and else the text between
/// the sequence for code 93 and the reset sequence, with the code put in
/// again behind each reset sequence inside the text.
#[verifier::external_body]
pub(crate) fn bright_yellow(text: &str) -> (shown: String)
    ensures
        styled_or_plain(shown@, text@, seq!['9', '3']),
{
    text.bright_yellow().to_string()
}

/// Calls `bright_blue` of `colored::Colorize` on the text and formats the
/// coloured string: the text itself where colouring is off, else the text
/// in the rendition with code 94.
#[verifier::external_body]
pub(crate) fn bright_blue(text: &str) -> (shown: String)
    ensures
        styled_or_plain(shown@, text@, seq!['9', '4']),
{
    text.bright_blue().to_string()
}

/// Calls `dimmed` of `colored::Colorize` on the text and formats the styled
/// string: the text itself where colouring is off, else the text in the
/// rendition with code 2.
#[verifier::external_body]
pub(crate) fn dimmed(text: &str) -> (shown: String)
    ensures
        styled_or_plain(shown@, text@, seq!['2']),
{
    text.dimmed().to_string()
}

/// Calls `bright_cyan` of `colored::Colorize` on the text and formats the
/// coloured string: the text itself where colouring is off, else the text
/// in the rendition with code 96.
#[verifier::external_body]
pub(crate) fn bright_cyan(text: &str) -> (shown: String)
    ensures
        styled_or_plain(shown@, text@, seq!['9', '6']),
{
    text.bright_cyan().to_string()
}

/// Calls `bright_green` of `colored::Colorize` on the text and formats the
/// coloured string: the text itself where colouring is off, else the text
/// in the rendition with code 92.
#[verifier::external_body]
pub(crate) fn bright_green(text: &str) -> (shown: String)
    ensures
        styled_or_plain(shown@, text@, seq!['9', '2']),
{
    text.bright_green().to_string()
}

/// Calls `on_bright_green` of `colored::Colorize` on the text and formats
/// the coloured string: the text itself where colouring is off, else the
/// text in the rendition with code 102, a bright green background.
#[verifier::external_body]
pub(crate) fn on_bright_green(text: &str) -> (shown: String)
    ensures
        styled_or_plain(shown@, text@, seq!['1', '0', '2']),
{
    text.on_bright_green().to_string()
}

/// Calls `normal` of `colored::Colorize` on the text and formats the result.
/// A string without colour or style is formatted as the text itself.
#[verifier::external_body]
pub(crate) fn normal(text: &str) -> (shown: String)
    ensures
        shown@ == text@,
{
    text.normal().to_string()
}

/// The text as the terminal gets it for a colour class.
pub fn paint(text: &str, class: ColorClass) -> (shown: String)
    ensures
        shown_as(shown@, text@, class),
{
    match class {
        ColorClass::Yellow => bright_yellow(text),
        ColorClass::Blue => bright_blue(text),
        ColorClass::Dim => dimmed(text),
        ColorClass::Cyan => bright_cyan(text),
        ColorClass::Default => normal(text),
    }
}

} // verus!
