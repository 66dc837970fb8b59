//! Style directives applied to a single write: an optional foreground color,
//! an optional background color and an optional text attribute, together with
//! the ANSI escape sequences that carry them to the terminal.
//!
//! The escape sequences themselves come from crossterm through trusted
//! wrappers; the colors and attributes are modelled here as plain enums so
//! that the rest of the library can be verified over them.

use vstd::prelude::*;

use crossterm::Command;
use crossterm::cursor::MoveTo;
use crossterm::style::Attribute as CtAttribute;
use crossterm::style::Color as CtColor;
use crossterm::style::ResetColor;
use crossterm::style::SetAttribute;
use crossterm::style::SetBackgroundColor;
use crossterm::style::SetForegroundColor;

verus! {

/// A foreground or background color for a single write.
#[derive(Clone, Copy, Debug, PartialEq, Eq, Structural)]
pub enum Color {
    Black,
    Red,
    Green,
    Yellow,
    Blue,
    Magenta,
    Cyan,
    White,
}

/// A text attribute for a single write.
#[derive(Clone, Copy, Debug, PartialEq, Eq, Structural)]
pub enum Attribute {
    /// Resets all attributes.
    Reset,
    Bold,
    Dim,
    Italic,
    Underlined,
    Reverse,
    CrossedOut,
}

/// The decimal digits of the 256-color palette index that the terminal uses
/// for each color.
pub open spec fn color_index_chars(c: Color) -> Seq<char> {
    match c {
        Color::Black => seq!['0'],
        Color::Red => seq!['9'],
        Color::Green => seq!['1', '0'],
        Color::Yellow => seq!['1', '1'],
        Color::Blue => seq!['1', '2'],
        Color::Magenta => seq!['1', '3'],
        Color::Cyan => seq!['1', '4'],
        Color::White => seq!['1', '5'],
    }
}

/// `ESC [`, the control sequence introducer.
pub open spec fn csi_chars() -> Seq<char> {
    seq!['\u{1b}', '[']
}

/// The escape sequence that sets the foreground color.
pub open spec fn fg_escape(c: Color) -> Seq<char> {
    csi_chars() + seq!['3', '8', ';', '5', ';'] + color_index_chars(c) + seq!['m']
}

/// The escape sequence that sets the background color.
pub open spec fn bg_escape(c: Color) -> Seq<char> {
    csi_chars() + seq!['4', '8', ';', '5', ';'] + color_index_chars(c) + seq!['m']
}

/// The single SGR digit of each supported attribute.
pub open spec fn attr_sgr_char(a: Attribute) -> char {
    match a {
        Attribute::Reset => '0',
        Attribute::Bold => '1',
        Attribute::Dim => '2',
        Attribute::Italic => '3',
        Attribute::Underlined => '4',
        Attribute::Reverse => '7',
        Attribute::CrossedOut => '9',
    }
}

/// The escape sequence that sets a text attribute.
pub open spec fn attr_escape(a: Attribute) -> Seq<char> {
    seq!['\u{1b}', '[', attr_sgr_char(a), 'm']
}

/// The degenerate color sequence emitted when the process has ANSI colors
/// disabled (the `NO_COLOR` convention): the introducer and terminator with
/// no payload.
pub open spec fn no_color_escape() -> Seq<char> {
    seq!['\u{1b}', '[', 'm']
}

/// The escape sequence that resets both colors.
pub open spec fn reset_color_escape() -> Seq<char> {
    seq!['\u{1b}', '[', '0', 'm']
}

/// The escape sequence that moves the cursor to column `x`, row `y` (both
/// zero-based). Its exact digits are crossterm's business; writes with equal
/// coordinates emit equal sequences.
pub uninterp spec fn move_to_ansi(x: int, y: int) -> Seq<char>;

/// Relies on crossterm's `MoveTo` command: its ANSI sequence depends on the
/// two coordinates alone. crossterm increments each coordinate before
/// formatting, so each must stay below `u16::MAX`.
#[verifier::external_body]
pub(crate) fn move_to_command(x: u16, y: u16) -> (r: String)
    requires
        x < 0xffff,
        y < 0xffff,
    ensures
        r@ == move_to_ansi(x as int, y as int),
{
    let mut out = String::new();
    let _ = MoveTo(x, y).write_ansi(&mut out);
    out
}

/// Relies on crossterm's `SetForegroundColor` command: for these palette
/// colors it emits `ESC [ 38 ; 5 ; <index> m`, unless ANSI colors are
/// disabled for the process, in which case the payload is empty.
#[verifier::external_body]
pub(crate) fn set_foreground_command(c: Color) -> (r: String)
    ensures
        r@ == fg_escape(c) || r@ == no_color_escape(),
{
    let cc = match c {
        Color::Black => CtColor::Black,
        Color::Red => CtColor::Red,
        Color::Green => CtColor::Green,
        Color::Yellow => CtColor::Yellow,
        Color::Blue => CtColor::Blue,
        Color::Magenta => CtColor::Magenta,
        Color::Cyan => CtColor::Cyan,
        Color::White => CtColor::White,
    };
    let mut out = String::new();
    let _ = SetForegroundColor(cc).write_ansi(&mut out);
    out
}

/// Relies on crossterm's `SetBackgroundColor` command: for these palette
/// colors it emits `ESC [ 48 ; 5 ; <index> m`, unless ANSI colors are
/// disabled for the process, in which case the payload is empty.
#[verifier::external_body]
pub(crate) fn set_background_command(c: Color) -> (r: String)
    ensures
        r@ == bg_escape(c) || r@ == no_color_escape(),
{
    let cc = match c {
        Color::Black => CtColor::Black,
        Color::Red => CtColor::Red,
        Color::Green => CtColor::Green,
        Color::Yellow => CtColor::Yellow,
        Color::Blue => CtColor::Blue,
        Color::Magenta => CtColor::Magenta,
        Color::Cyan => CtColor::Cyan,
        Color::White => CtColor::White,
    };
    let mut out = String::new();
    let _ = SetBackgroundColor(cc).write_ansi(&mut out);
    out
}

/// Relies on crossterm's `SetAttribute` command: for these attributes it
/// emits `ESC [ <sgr digit> m`.
#[verifier::external_body]
pub(crate) fn set_attribute_command(a: Attribute) -> (r: String)
    ensures
        r@ == attr_escape(a),
{
    let ca = match a {
        Attribute::Reset => CtAttribute::Reset,
        Attribute::Bold => CtAttribute::Bold,
        Attribute::Dim => CtAttribute::Dim,
        Attribute::Italic => CtAttribute::Italic,
        Attribute::Underlined => CtAttribute::Underlined,
        Attribute::Reverse => CtAttribute::Reverse,
        Attribute::CrossedOut => CtAttribute::CrossedOut,
    };
    let mut out = String::new();
    let _ = SetAttribute(ca).write_ansi(&mut out);
    out
}

/// Relies on crossterm's `ResetColor` command: it emits exactly `ESC [ 0 m`.
#[verifier::external_body]
pub(crate) fn reset_color_command() -> (r: String)
    ensures
        r@ == reset_color_escape(),
{
    let mut out = String::new();
    let _ = ResetColor.write_ansi(&mut out);
    out
}

} // verus!
