//! Terminal text: decimal numbers and the escape sequences for colours
//! and for the cursor.

use vstd::prelude::*;
use vstd::string::StringExecFns;
use termion::color;

verus! {

/// The character of a decimal digit.
pub open spec fn digit_char(d: nat) -> char {
    if d == 0 {
        '0'
    } else if d == 1 {
        '1'
    } else if d == 2 {
        '2'
    } else if d == 3 {
        '3'
    } else if d == 4 {
        '4'
    } else if d == 5 {
        '5'
    } else if d == 6 {
        '6'
    } else if d == 7 {
        '7'
    } else if d == 8 {
        '8'
    } else {
        '9'
    }
}

/// A number in decimal, without leading zeros.
pub open spec fn decimal(n: nat) -> Seq<char>
    decreases n,
{
    if n < 10 {
        seq![digit_char(n)]
    } else {
        decimal(n / 10).push(digit_char(n % 10))
    }
}

/// The escape sequence that selects entry `index` of the 256-colour table
/// as the foreground colour.
pub open spec fn fg_code(index: u8) -> Seq<char> {
    "\x1b[38;5;"@ + decimal(index as nat) + "m"@
}

/// The escape sequence that selects entry `index` of the 256-colour table
/// as the background colour.
pub open spec fn bg_code(index: u8) -> Seq<char> {
    "\x1b[48;5;"@ + decimal(index as nat) + "m"@
}

/// Calls `Display` of `termion::color::Fg` on a `termion::color::AnsiValue`.
/// Trusted: termion writes `ESC [ 38;5;`, the index in decimal, and `m`.
#[verifier::external_body]
pub(crate) fn fg_sequence(index: u8) -> (s: String)
    ensures
        s@ == fg_code(index),
{
    color::Fg(color::AnsiValue(index)).to_string()
}

/// Calls `Display` of `termion::color::Bg` on a `termion::color::AnsiValue`.
/// Trusted: termion writes `ESC [ 48;5;`, the index in decimal, and `m`.
#[verifier::external_body]
pub(crate) fn bg_sequence(index: u8) -> (s: String)
    ensures
        s@ == bg_code(index),
{
    color::Bg(color::AnsiValue(index)).to_string()
}

/// The escape sequence that moves the cursor to a column and a row, both
/// counted from one.
pub open spec fn goto_code(col: u16, row: u16) -> Seq<char> {
    "\x1b["@ + decimal(row as nat) + ";"@ + decimal(col as nat) + "H"@
}

/// Calls `Display` of `termion::cursor::Goto`. Trusted: termion writes
/// `ESC [`, the row in decimal, `;`, the column in decimal, and `H`. It
/// refuses the position `(0, 0)`, which is left out here.
#[verifier::external_body]
pub(crate) fn goto_sequence(col: u16, row: u16) -> (s: String)
    requires
        col != 0 || row != 0,
    ensures
        s@ == goto_code(col, row),
{
    termion::cursor::Goto(col, row).to_string()
}

/// A signed number in decimal.
pub open spec fn signed_decimal(n: int) -> Seq<char> {
    if n < 0 {
        "-"@ + decimal((-n) as nat)
    } else {
        decimal(n as nat)
    }
}

/// Appends one decimal digit.
fn push_digit(out: &mut String, d: u64)
    requires
        d < 10,
    ensures
        final(out)@ == old(out)@.push(digit_char(d as nat)),
{
    proof {
        reveal_strlit("0");
        reveal_strlit("1");
        reveal_strlit("2");
        reveal_strlit("3");
        reveal_strlit("4");
        reveal_strlit("5");
        reveal_strlit("6");
        reveal_strlit("7");
        reveal_strlit("8");
        reveal_strlit("9");
    }
    if d == 0 {
        out.append("0");
    } else if d == 1 {
        out.append("1");
    } else if d == 2 {
        out.append("2");
    } else if d == 3 {
        out.append("3");
    } else if d == 4 {
        out.append("4");
    } else if d == 5 {
        out.append("5");
    } else if d == 6 {
        out.append("6");
    } else if d == 7 {
        out.append("7");
    } else if d == 8 {
        out.append("8");
    } else {
        out.append("9");
    }
    assert(final(out)@ =~= old(out)@.push(digit_char(d as nat)));
}

/// Appends `n` in decimal.
pub fn push_decimal(out: &mut String, n: u64)
    ensures
        final(out)@ == old(out)@ + decimal(n as nat),
    decreases n,
{
    if n < 10 {
        push_digit(out, n);
        assert(final(out)@ =~= old(out)@ + decimal(n as nat));
    } else {
        push_decimal(out, n / 10);
        push_digit(out, n % 10);
        assert(final(out)@ =~= old(out)@ + decimal(n as nat));
    }
}

/// Appends a signed number in decimal.
pub fn push_signed(out: &mut String, n: i32)
    ensures
        final(out)@ == old(out)@ + signed_decimal(n as int),
{
    if n < 0 {
        out.append("-");
        push_decimal(out, (-(n as i64)) as u64);
        assert(final(out)@ =~= old(out)@ + signed_decimal(n as int));
    } else {
        push_decimal(out, n as u64);
    }
}

} // verus!
