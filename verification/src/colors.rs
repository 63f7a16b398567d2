//! Colour classes and the terminal escape sequences that stand for them.

use vstd::prelude::*;

verus! {

/// The classes of text that a rendered record is made of.
#[derive(Clone, Copy, Debug, PartialEq, Eq, Structural)]
pub enum ColorClass {
    /// Timestamps.
    Dim,
    /// Labels of `Error` and `Fatal`.
    Alert,
    /// The label of `Warn`.
    Caution,
    /// The label of `Info`, messages and stack traces.
    Neutral,
    /// Labels of `Trace` and `Debug`.
    Secondary,
}

/// Foreground colour 8 of the 256-colour palette.
pub open spec fn light_black_code() -> Seq<char> {
    "\u{1b}[38;5;8m"@
}

/// Foreground colour 1 of the 256-colour palette.
pub open spec fn red_code() -> Seq<char> {
    "\u{1b}[38;5;1m"@
}

/// Foreground colour 3 of the 256-colour palette.
pub open spec fn yellow_code() -> Seq<char> {
    "\u{1b}[38;5;3m"@
}

/// Foreground colour 2 of the 256-colour palette.
pub open spec fn green_code() -> Seq<char> {
    "\u{1b}[38;5;2m"@
}

/// The terminal's default foreground colour.
pub open spec fn reset_code() -> Seq<char> {
    "\u{1b}[39m"@
}

/// Displays termion's `Fg(LightBlack)`: `Fg` hands the formatter to
/// `LightBlack::write_fg`, which writes the CSI introducer, `38;5;8` and `m`.
#[verifier::external_body]
fn fg_light_black() -> (r: String)
    ensures
        r@ == light_black_code(),
{
    format!("{}", termion::color::Fg(termion::color::LightBlack))
}

/// Displays termion's `Fg(Red)`: the CSI introducer, `38;5;1` and `m`.
#[verifier::external_body]
fn fg_red() -> (r: String)
    ensures
        r@ == red_code(),
{
    format!("{}", termion::color::Fg(termion::color::Red))
}

/// Displays termion's `Fg(Yellow)`: the CSI introducer, `38;5;3` and `m`.
#[verifier::external_body]
fn fg_yellow() -> (r: String)
    ensures
        r@ == yellow_code(),
{
    format!("{}", termion::color::Fg(termion::color::Yellow))
}

/// Displays termion's `Fg(Green)`: the CSI introducer, `38;5;2` and `m`.
#[verifier::external_body]
fn fg_green() -> (r: String)
    ensures
        r@ == green_code(),
{
    format!("{}", termion::color::Fg(termion::color::Green))
}

/// Displays termion's `Fg(Reset)`: the CSI introducer and `39m`.
#[verifier::external_body]
fn fg_reset() -> (r: String)
    ensures
        r@ == reset_code(),
{
    format!("{}", termion::color::Fg(termion::color::Reset))
}

impl ColorClass {
    /// The escape sequence that switches the terminal to this class.
    pub open spec fn code_spec(self) -> Seq<char> {
        match self {
            ColorClass::Dim => light_black_code(),
            ColorClass::Alert => red_code(),
            ColorClass::Caution => yellow_code(),
            ColorClass::Neutral => reset_code(),
            ColorClass::Secondary => green_code(),
        }
    }

    /// `text` as it is rendered in this class: behind the class's escape
    /// sequence, with nothing after it.
    pub open spec fn paint_spec(self, text: Seq<char>) -> Seq<char> {
        self.code_spec() + text
    }

    /// The escape sequence of this class.
    pub fn code(self) -> (r: String)
        ensures
            r@ == self.code_spec(),
    {
        match self {
            ColorClass::Dim => fg_light_black(),
            ColorClass::Alert => fg_red(),
            ColorClass::Caution => fg_yellow(),
            ColorClass::Neutral => fg_reset(),
            ColorClass::Secondary => fg_green(),
        }
    }

    /// Renders `text` in this class.
    pub fn paint(self, text: &str) -> (r: String)
        ensures
            r@ == self.paint_spec(text@),
    {
        let mut out = self.code();
        out.append(text);
        out
    }
}

} // verus!
