//! Terminal escape sequences for the composite header.
//!
//! The header-composition algorithm needs four rendering primitives —
//! invert the text attributes, reset them, set the header's base color,
//! and move the cursor — and consumes them as plain strings. The strings
//! themselves come from termion; the spec functions here state their
//! exact contents, so that the composed header is pinned down character
//! by character.

use vstd::prelude::*;
use vstd::string::StringExecFns;
use crate::decimal::dec_rep;

verus! {

/// The two characters every control sequence opens with: escape, `[`.
pub open spec fn csi_prefix() -> Seq<char> {
    seq!['\u{1b}', '[']
}

/// The escape sequence that inverts the text attributes.
pub open spec fn invert_seq() -> Seq<char> {
    csi_prefix() + seq!['7', 'm']
}

/// The escape sequence that resets all text attributes.
pub open spec fn reset_seq() -> Seq<char> {
    csi_prefix() + seq!['m']
}

/// The escape sequence for a white foreground.
pub open spec fn white_fg_seq() -> Seq<char> {
    csi_prefix() + seq!['3', '8', ';', '5', ';', '7', 'm']
}

/// The escape sequence for a blue background.
pub open spec fn blue_bg_seq() -> Seq<char> {
    csi_prefix() + seq!['4', '8', ';', '5', ';', '4', 'm']
}

/// The header's base color: white text on a blue background.
pub open spec fn header_color_seq() -> Seq<char> {
    white_fg_seq() + blue_bg_seq()
}

/// The escape sequence that moves the cursor to column `x`, row `y`
/// (both one-based): escape, `[`, the row, `;`, the column, `H`, with
/// both numbers in decimal.
pub open spec fn goto_seq(x: nat, y: nat) -> Seq<char> {
    csi_prefix() + dec_rep(y) + seq![';'] + dec_rep(x) + seq!['H']
}

/// Relies on `<termion::style::Invert as AsRef<str>>::as_ref`, which
/// returns the fixed sequence `ESC [ 7 m`.
#[verifier::external_body]
pub(crate) fn invert() -> (r: &'static str)
    ensures
        r@ == invert_seq(),
{
    AsRef::<str>::as_ref(&termion::style::Invert)
}

/// Relies on `<termion::style::Reset as AsRef<str>>::as_ref`, which
/// returns the fixed sequence `ESC [ m`.
#[verifier::external_body]
pub(crate) fn reset() -> (r: &'static str)
    ensures
        r@ == reset_seq(),
{
    AsRef::<str>::as_ref(&termion::style::Reset)
}

/// Relies on `termion::color::White::fg_str`, which returns the fixed
/// sequence `ESC [ 3 8 ; 5 ; 7 m`.
#[verifier::external_body]
pub(crate) fn white_fg() -> (r: &'static str)
    ensures
        r@ == white_fg_seq(),
{
    termion::color::White.fg_str()
}

/// Relies on `termion::color::Blue::bg_str`, which returns the fixed
/// sequence `ESC [ 4 8 ; 5 ; 4 m`.
#[verifier::external_body]
pub(crate) fn blue_bg() -> (r: &'static str)
    ensures
        r@ == blue_bg_seq(),
{
    termion::color::Blue.bg_str()
}

/// Relies on `String::from(termion::cursor::Goto(x, y))`, which builds
/// `ESC [ y ; x H` with both coordinates in decimal (termion renders
/// them through numtoa with base ten).
#[verifier::external_body]
pub(crate) fn goto(x: u16, y: u16) -> (r: String)
    ensures
        r@ == goto_seq(x as nat, y as nat),
{
    String::from(termion::cursor::Goto(x, y))
}

/// The header's base color, as one string: white text on blue.
pub fn header_color() -> (r: String)
    ensures
        r@ == header_color_seq(),
{
    let mut s = white_fg().to_owned();
    s.append(blue_bg());
    s
}

} // verus!
