//! Construction of the terminal control sequences the program emits:
//! scroll-region selection, cursor movement, and the pieces the status-area
//! redraw is made of. Every builder appends to a caller-supplied buffer;
//! writing the buffer to the terminal device is the surrounding binary's
//! business.

use vstd::prelude::*;
use vstd::string::*;

verus! {

/// The decimal digit character for `d`.
pub open spec fn digit_char(d: int) -> char {
    if d == 0 {
        '0'
    } else if d == 1 {
        '1'
    } else if d == 2 {
        '2'
    } else if d == 3 {
        '3'
    } else if d == 4 {
        '4'
    } else if d == 5 {
        '5'
    } else if d == 6 {
        '6'
    } else if d == 7 {
        '7'
    } else if d == 8 {
        '8'
    } else {
        '9'
    }
}

/// The decimal digits of `n`, most significant first.
pub open spec fn dec_digits(n: int) -> Seq<char>
    decreases n,
{
    if n < 10 {
        seq![digit_char(n)]
    } else {
        dec_digits(n / 10).push(digit_char(n % 10))
    }
}

/// The control sequence that sets the scroll region to the terminal rows
/// `top + 1` through `bottom + 1` (terminal rows are numbered from one).
pub open spec fn scroll_region_seq(top: int, bottom: int) -> Seq<char> {
    "\x1B["@ + dec_digits(top + 1) + ";"@ + dec_digits(bottom + 1) + "r"@
}

/// The control sequence that resets the scroll region to the whole screen.
pub open spec fn reset_scroll_region_seq() -> Seq<char> {
    "\x1B[0r"@
}

/// The control sequence that moves the cursor to column one of `row`.
pub open spec fn cursor_to_row_seq(row: int) -> Seq<char> {
    "\x1B["@ + dec_digits(row) + ";1H"@
}

fn digit_str(d: u16) -> (r: &'static str)
    requires
        d < 10,
    ensures
        r@ == seq![digit_char(d as int)],
{
    if d == 0 {
        proof {
            reveal_strlit("0");
            assert("0"@ =~= seq![digit_char(0)]);
        }
        "0"
    } else if d == 1 {
        proof {
            reveal_strlit("1");
            assert("1"@ =~= seq![digit_char(1)]);
        }
        "1"
    } else if d == 2 {
        proof {
            reveal_strlit("2");
            assert("2"@ =~= seq![digit_char(2)]);
        }
        "2"
    } else if d == 3 {
        proof {
            reveal_strlit("3");
            assert("3"@ =~= seq![digit_char(3)]);
        }
        "3"
    } else if d == 4 {
        proof {
            reveal_strlit("4");
            assert("4"@ =~= seq![digit_char(4)]);
        }
        "4"
    } else if d == 5 {
        proof {
            reveal_strlit("5");
            assert("5"@ =~= seq![digit_char(5)]);
        }
        "5"
    } else if d == 6 {
        proof {
            reveal_strlit("6");
            assert("6"@ =~= seq![digit_char(6)]);
        }
        "6"
    } else if d == 7 {
        proof {
            reveal_strlit("7");
            assert("7"@ =~= seq![digit_char(7)]);
        }
        "7"
    } else if d == 8 {
        proof {
            reveal_strlit("8");
            assert("8"@ =~= seq![digit_char(8)]);
        }
        "8"
    } else {
        proof {
            reveal_strlit("9");
            assert("9"@ =~= seq![digit_char(9)]);
        }
        "9"
    }
}

/// Appends the decimal representation of `n` to `out`.
pub fn push_decimal(out: &mut String, n: u16)
    ensures
        final(out)@ == old(out)@ + dec_digits(n as int),
    decreases n,
{
    if n >= 10 {
        push_decimal(out, n / 10);
        out.append(digit_str(n % 10));
        proof {
            assert(out@ =~= old(out)@ + dec_digits(n as int));
        }
    } else {
        out.append(digit_str(n));
        proof {
            assert(out@ =~= old(out)@ + dec_digits(n as int));
        }
    }
}

/// Appends the sequence that confines scrolling to the rows `top + 1`
/// through `bottom + 1` of the terminal, so that lines printed afterwards
/// never scroll into the status area below that range.
pub fn set_scroll_region_on_term(term: &mut String, top: u16, bottom: u16)
    requires
        top < u16::MAX,
        bottom < u16::MAX,
    ensures
        final(term)@ == old(term)@ + scroll_region_seq(top as int, bottom as int),
{
    term.append("\x1B[");
    push_decimal(term, top + 1);
    term.append(";");
    push_decimal(term, bottom + 1);
    term.append("r");
    proof {
        assert(term@ =~= old(term)@ + scroll_region_seq(top as int, bottom as int));
    }
}

/// Appends the sequence that gives scrolling the whole screen back.
pub fn reset_scroll_region(out: &mut String)
    ensures
        final(out)@ == old(out)@ + reset_scroll_region_seq(),
{
    out.append("\x1B[0r");
}

/// Appends the sequence that moves the cursor to column one of `row`.
pub fn push_cursor_to_row(out: &mut String, row: u16)
    ensures
        final(out)@ == old(out)@ + cursor_to_row_seq(row as int),
{
    out.append("\x1B[");
    push_decimal(out, row);
    out.append(";1H");
    proof {
        assert(out@ =~= old(out)@ + cursor_to_row_seq(row as int));
    }
}

} // verus!
