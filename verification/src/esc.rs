//! ANSI escape sequences used by the redraw protocol. The cursor-movement and
//! line-erase sequences are produced by termion; their exact text is stated
//! here and trusted.
use crate::charseq::dec_of;
use vstd::prelude::*;

verus! {

/// A control sequence introducer followed by `tail`.
pub open spec fn csi(tail: Seq<char>) -> Seq<char> {
    seq!['\u{1b}', '['] + tail
}

/// `ESC [ n D`: move the cursor `n` columns left.
pub open spec fn csi_left(n: nat) -> Seq<char> {
    csi(dec_of(n) + seq!['D'])
}

/// `ESC [ n A`: move the cursor `n` rows up.
pub open spec fn csi_up(n: nat) -> Seq<char> {
    csi(dec_of(n) + seq!['A'])
}

/// `ESC [ y ; x H`: move the cursor to column `x` of row `y`.
pub open spec fn csi_goto(x: nat, y: nat) -> Seq<char> {
    csi(dec_of(y) + seq![';'] + dec_of(x) + seq!['H'])
}

/// `ESC [ 2 K`: erase the current line.
pub open spec fn csi_clear_line() -> Seq<char> {
    csi(seq!['2', 'K'])
}

/// `ESC [ code m`: select graphic rendition `code`.
pub open spec fn sgr(code: nat) -> Seq<char> {
    csi(dec_of(code) + seq!['m'])
}

/// Relies on `termion::cursor::Left`'s `Display`, which writes `ESC [ n D`
/// with `n` in decimal.
#[verifier::external_body]
pub fn left_seq(n: u16) -> (r: Vec<char>)
    ensures
        r@ == csi_left(n as nat),
{
    format!("{}", termion::cursor::Left(n)).chars().collect()
}

/// Relies on `termion::cursor::Up`'s `Display`, which writes `ESC [ n A`
/// with `n` in decimal.
#[verifier::external_body]
pub fn up_seq(n: u16) -> (r: Vec<char>)
    ensures
        r@ == csi_up(n as nat),
{
    format!("{}", termion::cursor::Up(n)).chars().collect()
}

/// Relies on `termion::cursor::Goto`'s `Display`, which writes
/// `ESC [ y ; x H` with both coordinates in decimal. `Goto(0, 0)` is excluded:
/// termion asserts against it.
#[verifier::external_body]
pub fn goto_seq(x: u16, y: u16) -> (r: Vec<char>)
    requires
        x != 0 || y != 0,
    ensures
        r@ == csi_goto(x as nat, y as nat),
{
    format!("{}", termion::cursor::Goto(x, y)).chars().collect()
}

/// Relies on `termion::clear::CurrentLine`'s `Display`, which writes
/// `ESC [ 2 K`.
#[verifier::external_body]
pub fn clear_line_seq() -> (r: Vec<char>)
    ensures
        r@ == csi_clear_line(),
{
    format!("{}", termion::clear::CurrentLine).chars().collect()
}

} // verus!
