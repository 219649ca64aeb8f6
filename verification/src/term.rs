//! The control sequences of the terminal, as the `termion` crate gives them.
//!
//! Each function below hands out the text of one `termion` item. Their
//! contracts are taken from the source of `termion` and are not proved; all
//! other code of this library is verified against them.

use vstd::prelude::*;
use crate::text::dec_text;

verus! {

/// A control sequence: the escape character, an opening bracket, and `body`.
pub open spec fn csi(body: Seq<char>) -> Seq<char> {
    seq!['\x1b', '['] + body
}

/// The sequence that clears the whole screen.
pub open spec fn clear_all_code() -> Seq<char> {
    csi(seq!['2', 'J'])
}

/// The sequence that clears the line the cursor is on.
pub open spec fn clear_line_code() -> Seq<char> {
    csi(seq!['2', 'K'])
}

/// The sequence that switches bold text on.
pub open spec fn bold_code() -> Seq<char> {
    csi(seq!['1', 'm'])
}

/// The sequence that resets all text attributes.
pub open spec fn reset_code() -> Seq<char> {
    csi(seq!['m'])
}

/// The sequence that sets the text colour to entry `colour` of the palette of
/// 256 colours.
pub open spec fn fg_code(colour: nat) -> Seq<char> {
    csi(seq!['3', '8', ';', '5', ';'] + dec_text(colour) + seq!['m'])
}

/// The sequence that sets the background colour to entry `colour` of the
/// palette of 256 colours.
pub open spec fn bg_code(colour: nat) -> Seq<char> {
    csi(seq!['4', '8', ';', '5', ';'] + dec_text(colour) + seq!['m'])
}

/// The sequence that puts the terminal's cursor on column `x` of row `y`,
/// both counted from one.
pub open spec fn goto_code(x: nat, y: nat) -> Seq<char> {
    csi(dec_text(y) + seq![';'] + dec_text(x) + seq!['H'])
}

/// The sequence that moves the terminal's cursor `count` columns to the left.
pub open spec fn left_code(count: nat) -> Seq<char> {
    csi(dec_text(count) + seq!['D'])
}

/// `termion::clear::All`, printed: the fixed sequence `ESC [ 2 J`.
#[verifier::external_body]
pub(crate) fn clear_all() -> (code: String)
    ensures
        code@ == clear_all_code(),
{
    format!("{}", termion::clear::All)
}

/// `termion::clear::CurrentLine`, printed: the fixed sequence `ESC [ 2 K`.
#[verifier::external_body]
pub(crate) fn clear_current_line() -> (code: String)
    ensures
        code@ == clear_line_code(),
{
    format!("{}", termion::clear::CurrentLine)
}

/// `termion::style::Bold`, printed: the fixed sequence `ESC [ 1 m`.
#[verifier::external_body]
pub(crate) fn style_bold() -> (code: String)
    ensures
        code@ == bold_code(),
{
    format!("{}", termion::style::Bold)
}

/// `termion::style::Reset`, printed: the fixed sequence `ESC [ m`.
#[verifier::external_body]
pub(crate) fn style_reset() -> (code: String)
    ensures
        code@ == reset_code(),
{
    format!("{}", termion::style::Reset)
}

/// `termion::color::Fg(termion::color::Red)`, printed: the sequence for text
/// colour 1, or nothing where the variable `NO_COLOR` switches colours off.
#[verifier::external_body]
pub(crate) fn fg_red() -> (code: String)
    ensures
        code@ == fg_code(1) || code@.len() == 0,
{
    format!("{}", termion::color::Fg(termion::color::Red))
}

/// `termion::color::Fg(termion::color::White)`, printed: the sequence for
/// text colour 7, or nothing where the variable `NO_COLOR` switches colours
/// off.
#[verifier::external_body]
pub(crate) fn fg_white() -> (code: String)
    ensures
        code@ == fg_code(7) || code@.len() == 0,
{
    format!("{}", termion::color::Fg(termion::color::White))
}

/// `termion::color::Bg(termion::color::Red)`, printed: the sequence for
/// background colour 1, or nothing where the variable `NO_COLOR` switches
/// colours off.
#[verifier::external_body]
pub(crate) fn bg_red() -> (code: String)
    ensures
        code@ == bg_code(1) || code@.len() == 0,
{
    format!("{}", termion::color::Bg(termion::color::Red))
}

/// `termion::color::Bg(termion::color::Black)`, printed: the sequence for
/// background colour 0, or nothing where the variable `NO_COLOR` switches
/// colours off.
#[verifier::external_body]
pub(crate) fn bg_black() -> (code: String)
    ensures
        code@ == bg_code(0) || code@.len() == 0,
{
    format!("{}", termion::color::Bg(termion::color::Black))
}

/// `termion::cursor::Goto(x, y)`, printed: `ESC [`, the row in decimal, a
/// semicolon, the column in decimal, and `H`. `termion` refuses the position
/// (0, 0) in a debug build, so that position is left out.
#[verifier::external_body]
pub(crate) fn goto(x: u16, y: u16) -> (code: String)
    requires
        x != 0 || y != 0,
    ensures
        code@ == goto_code(x as nat, y as nat),
{
    format!("{}", termion::cursor::Goto(x, y))
}

/// `termion::cursor::Left(count)`, printed: `ESC [`, the count in decimal,
/// and `D`.
#[verifier::external_body]
pub(crate) fn cursor_left(count: u16) -> (code: String)
    ensures
        code@ == left_code(count as nat),
{
    format!("{}", termion::cursor::Left(count))
}

/// The control sequences that a screen is painted with.
#[derive(Debug, PartialEq, Eq)]
pub struct Palette {
    pub clear_screen: String,
    pub clear_line: String,
    pub bold: String,
    pub reset: String,
    pub fg_red: String,
    pub fg_white: String,
    pub bg_red: String,
    pub bg_black: String,
}

/// A `Palette` as plain mathematical values.
pub struct PaletteView {
    pub clear_screen: Seq<char>,
    pub clear_line: Seq<char>,
    pub bold: Seq<char>,
    pub reset: Seq<char>,
    pub fg_red: Seq<char>,
    pub fg_white: Seq<char>,
    pub bg_red: Seq<char>,
    pub bg_black: Seq<char>,
}

impl View for Palette {
    type V = PaletteView;

    open spec fn view(&self) -> PaletteView {
        PaletteView {
            clear_screen: self.clear_screen@,
            clear_line: self.clear_line@,
            bold: self.bold@,
            reset: self.reset@,
            fg_red: self.fg_red@,
            fg_white: self.fg_white@,
            bg_red: self.bg_red@,
            bg_black: self.bg_black@,
        }
    }
}

impl PaletteView {
    /// Every sequence is empty: text painted with this palette has no
    /// styling and clears nothing.
    pub open spec fn is_plain(self) -> bool {
        &&& self.clear_screen.len() == 0
        &&& self.clear_line.len() == 0
        &&& self.bold.len() == 0
        &&& self.reset.len() == 0
        &&& self.fg_red.len() == 0
        &&& self.fg_white.len() == 0
        &&& self.bg_red.len() == 0
        &&& self.bg_black.len() == 0
    }

    /// The sequences are those of the terminal: the clearing and style
    /// sequences as they stand, and each colour either as it stands or
    /// empty.
    pub open spec fn is_terminal(self) -> bool {
        &&& self.clear_screen == clear_all_code()
        &&& self.clear_line == clear_line_code()
        &&& self.bold == bold_code()
        &&& self.reset == reset_code()
        &&& (self.fg_red == fg_code(1) || self.fg_red.len() == 0)
        &&& (self.fg_white == fg_code(7) || self.fg_white.len() == 0)
        &&& (self.bg_red == bg_code(1) || self.bg_red.len() == 0)
        &&& (self.bg_black == bg_code(0) || self.bg_black.len() == 0)
    }
}

impl Palette {
    /// The palette of the terminal. Each colour is there unless the variable
    /// `NO_COLOR` switches colours off.
    pub fn terminal() -> (palette: Palette)
        ensures
            palette@.is_terminal(),
    {
        Palette {
            clear_screen: clear_all(),
            clear_line: clear_current_line(),
            bold: style_bold(),
            reset: style_reset(),
            fg_red: fg_red(),
            fg_white: fg_white(),
            bg_red: bg_red(),
            bg_black: bg_black(),
        }
    }

    /// The palette without any sequence, for text that goes to a file or a
    /// pipe.
    pub fn plain() -> (palette: Palette)
        ensures
            palette@.is_plain(),
    {
        Palette {
            clear_screen: String::new(),
            clear_line: String::new(),
            bold: String::new(),
            reset: String::new(),
            fg_red: String::new(),
            fg_white: String::new(),
            bg_red: String::new(),
            bg_black: String::new(),
        }
    }
}

} // verus!
