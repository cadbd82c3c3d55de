//! The escape sequences that draw on an ANSI terminal.
//!
//! The sequences themselves come from `termion`. What each of them is, as
//! text, is stated here, and the functions that produce them are believed to
//! return that text: Verus does not read `termion`.

use vstd::prelude::*;

verus! {

/// The decimal digit that stands for `d`, for `d` from 0 to 9.
pub open spec fn digit(d: int) -> char {
    seq!['0', '1', '2', '3', '4', '5', '6', '7', '8', '9'][d]
}

/// The decimal numeral of `n`, without a sign and without leading zeros.
pub open spec fn decimal(n: nat) -> Seq<char>
    decreases n,
{
    if n < 10 {
        seq![digit(n as int)]
    } else {
        decimal(n / 10).push(digit((n % 10) as int))
    }
}

/// The sequence that clears the whole screen.
pub open spec fn clear_code() -> Seq<char> {
    "\x1B[2J"@
}

/// The sequence that moves the cursor to column `col` of row `row`, both
/// counted from 1.
pub open spec fn goto_code(col: nat, row: nat) -> Seq<char> {
    "\x1B["@ + decimal(row) + ";"@ + decimal(col) + "H"@
}

/// The sequence that makes the text that follows white.
pub open spec fn fg_white_code() -> Seq<char> {
    "\x1B[38;5;7m"@
}

/// The sequence that makes the text that follows black.
pub open spec fn fg_black_code() -> Seq<char> {
    "\x1B[38;5;0m"@
}

/// The sequence that gives the text that follows the terminal's own colour.
pub open spec fn fg_reset_code() -> Seq<char> {
    "\x1B[39m"@
}

/// The sequence that paints the cells that follow white.
pub open spec fn bg_white_code() -> Seq<char> {
    "\x1B[48;5;7m"@
}

/// The sequence that paints the cells that follow black.
pub open spec fn bg_black_code() -> Seq<char> {
    "\x1B[48;5;0m"@
}

/// The sequence that paints the cells that follow in the terminal's own
/// colour.
pub open spec fn bg_reset_code() -> Seq<char> {
    "\x1B[49m"@
}

/// `termion::clear::All`, written out by its `Display`. Believed: the text
/// is the one sequence `ESC [ 2 J`.
#[verifier::external_body]
pub(crate) fn clear_all() -> (code: String)
    ensures
        code@ == clear_code(),
{
    format!("{}", termion::clear::All)
}

/// `termion::cursor::Goto`, written out by its `Display`. Believed: the text
/// is `ESC [`, the row in decimal, `;`, the column in decimal and `H`. The
/// position where both are 0 is left out, since `termion` rejects it in
/// debug builds.
#[verifier::external_body]
pub(crate) fn goto(col: u16, row: u16) -> (code: String)
    requires
        col != 0 || row != 0,
    ensures
        code@ == goto_code(col as nat, row as nat),
{
    format!("{}", termion::cursor::Goto(col, row))
}

/// `termion::color::Fg` of `termion::color::White`, written out by its
/// `Display`. Believed: the text is `ESC [ 38;5;7 m`.
#[verifier::external_body]
pub(crate) fn fg_white() -> (code: String)
    ensures
        code@ == fg_white_code(),
{
    format!("{}", termion::color::Fg(termion::color::White))
}

/// `termion::color::Fg` of `termion::color::Black`, written out by its
/// `Display`. Believed: the text is `ESC [ 38;5;0 m`.
#[verifier::external_body]
pub(crate) fn fg_black() -> (code: String)
    ensures
        code@ == fg_black_code(),
{
    format!("{}", termion::color::Fg(termion::color::Black))
}

/// `termion::color::Fg` of `termion::color::Reset`, written out by its
/// `Display`. Believed: the text is `ESC [ 39 m`.
#[verifier::external_body]
pub(crate) fn fg_reset() -> (code: String)
    ensures
        code@ == fg_reset_code(),
{
    format!("{}", termion::color::Fg(termion::color::Reset))
}

/// `termion::color::Bg` of `termion::color::White`, written out by its
/// `Display`. Believed: the text is `ESC [ 48;5;7 m`.
#[verifier::external_body]
pub(crate) fn bg_white() -> (code: String)
    ensures
        code@ == bg_white_code(),
{
    format!("{}", termion::color::Bg(termion::color::White))
}

/// `termion::color::Bg` of `termion::color::Black`, written out by its
/// `Display`. Believed: the text is `ESC [ 48;5;0 m`.
#[verifier::external_body]
pub(crate) fn bg_black() -> (code: String)
    ensures
        code@ == bg_black_code(),
{
    format!("{}", termion::color::Bg(termion::color::Black))
}

/// `termion::color::Bg` of `termion::color::Reset`, written out by its
/// `Display`. Believed: the text is `ESC [ 49 m`.
#[verifier::external_body]
pub(crate) fn bg_reset() -> (code: String)
    ensures
        code@ == bg_reset_code(),
{
    format!("{}", termion::color::Bg(termion::color::Reset))
}

/// `String::push_str` of the standard library. Believed: afterwards the
/// string holds what it held before, followed by `string`.
pub assume_specification[ String::push_str ](s: &mut String, string: &str)
    ensures
        final(s)@ == old(s)@ + string@,
;

/// The text that paints the cell at column `col` of row `row`: the cursor
/// goes there, and two blanks take the colour that is set.
pub open spec fn cell_code(col: nat, row: nat) -> Seq<char> {
    goto_code(col, row) + "  "@
}

/// Appends to `sink` the text that paints the cell at column `col` of row
/// `row`.
pub fn put_cell(sink: &mut String, col: u16, row: u16)
    requires
        col != 0 || row != 0,
    ensures
        final(sink)@ == old(sink)@ + cell_code(col as nat, row as nat),
{
    let code = goto(col, row);
    sink.push_str(code.as_str());
    sink.push_str("  ");
    assert(old(sink)@ + code@ + "  "@ =~= old(sink)@ + (code@ + "  "@));
}

} // verus!
