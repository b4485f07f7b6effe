//! The closed set of terminal colors the tree uses, each mapping to a fixed
//! ANSI SGR escape sequence, together with the reset sequence and the 24-bit
//! trunk color.

use vstd::prelude::*;

verus! {

/// A named 16-color terminal color.
#[derive(Clone, Copy, Debug, PartialEq, Eq, Structural)]
pub enum TermColor {
    Black,
    Blue,
    Cyan,
    Green,
    Magenta,
    Red,
    White,
    Yellow,
    LightBlack,
    LightBlue,
    LightCyan,
    LightGreen,
    LightMagenta,
    LightRed,
    LightWhite,
    LightYellow,
}

/// The escape sequence that selects `c`, as a sequence of characters.
pub open spec fn spec_color_escape(c: TermColor) -> Seq<char> {
    match c {
        TermColor::Black => "\x1B[30m"@,
        TermColor::Blue => "\x1B[34m"@,
        TermColor::Cyan => "\x1B[36m"@,
        TermColor::Green => "\x1B[32m"@,
        TermColor::Magenta => "\x1B[35m"@,
        TermColor::Red => "\x1B[31m"@,
        TermColor::White => "\x1B[37m"@,
        TermColor::Yellow => "\x1B[33m"@,
        TermColor::LightBlack => "\x1B[90m"@,
        TermColor::LightBlue => "\x1B[94m"@,
        TermColor::LightCyan => "\x1B[96m"@,
        TermColor::LightGreen => "\x1B[92m"@,
        TermColor::LightMagenta => "\x1B[95m"@,
        TermColor::LightRed => "\x1B[91m"@,
        TermColor::LightWhite => "\x1B[97m"@,
        TermColor::LightYellow => "\x1B[93m"@,
    }
}

/// The escape sequence that resets all attributes.
pub open spec fn spec_reset() -> Seq<char> {
    "\x1B[0m"@
}

/// The 24-bit escape sequence for the trunk's brown.
pub open spec fn spec_trunk_escape() -> Seq<char> {
    "\x1B[38;2;222;119;51m"@
}

impl TermColor {
    /// The escape sequence that selects this color.
    pub fn to_str(&self) -> (r: &str)
        ensures
            r@ == spec_color_escape(*self),
    {
        match self {
            Self::Black => "\x1B[30m",
            Self::Blue => "\x1B[34m",
            Self::Cyan => "\x1B[36m",
            Self::Green => "\x1B[32m",
            Self::Magenta => "\x1B[35m",
            Self::Red => "\x1B[31m",
            Self::White => "\x1B[37m",
            Self::Yellow => "\x1B[33m",
            Self::LightBlack => "\x1B[90m",
            Self::LightBlue => "\x1B[94m",
            Self::LightCyan => "\x1B[96m",
            Self::LightGreen => "\x1B[92m",
            Self::LightMagenta => "\x1B[95m",
            Self::LightRed => "\x1B[91m",
            Self::LightWhite => "\x1B[97m",
            Self::LightYellow => "\x1B[93m",
        }
    }
}

/// The escape sequence that resets all attributes.
pub fn reset_str() -> (r: &'static str)
    ensures
        r@ == spec_reset(),
{
    "\x1B[0m"
}

/// The 24-bit escape sequence for the trunk's brown.
pub fn trunk_str() -> (r: &'static str)
    ensures
        r@ == spec_trunk_escape(),
{
    "\x1B[38;2;222;119;51m"
}

/// Relies on `String::push`: appends the character to the end of the string.
#[verifier::external_body]
pub(crate) fn push_char(s: &mut String, c: char)
    ensures
        final(s)@ == old(s)@.push(c),
{
    s.push(c);
}

/// The palette the lights are drawn from: every color differs from the base
/// leaf green, so a lit leaf is visibly not a plain one.
pub fn default_palette() -> (v: Vec<TermColor>)
    ensures
        v@ =~= seq![
            TermColor::Yellow,
            TermColor::Red,
            TermColor::Blue,
            TermColor::Magenta,
            TermColor::Cyan,
            TermColor::White,
        ],
{
    let mut v: Vec<TermColor> = Vec::new();
    v.push(TermColor::Yellow);
    v.push(TermColor::Red);
    v.push(TermColor::Blue);
    v.push(TermColor::Magenta);
    v.push(TermColor::Cyan);
    v.push(TermColor::White);
    v
}

} // verus!
