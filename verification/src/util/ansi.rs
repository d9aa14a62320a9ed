use vstd::prelude::*;

use vstd::string::{StrSliceExecFns, StringExecFns};

verus! {

/// ANSI escape sequences. The library uses these convenience functions for
/// any terminal manipulation: each builds the escape string character by
/// character, and its contract states the exact character sequence built.

/// The escape-sequence opener (ESC followed by '[').
pub fn part_start() -> (r: &'static str)
    ensures
        r@ == "\x1b["@,
{
    "\x1b["
}

/// The escape-sequence terminator for display commands.
pub fn part_end() -> (r: &'static str)
    ensures
        r@ == "m"@,
{
    "m"
}

/// The attribute-reset command body.
pub fn part_reset() -> (r: &'static str)
    ensures
        r@ == "0"@,
{
    "0"
}

/// The truecolor background command prefix.
pub fn part_background_truecolor() -> (r: &'static str)
    ensures
        r@ == "48;2"@,
{
    "48;2"
}

/// The truecolor foreground command prefix.
pub fn part_foreground_truecolor() -> (r: &'static str)
    ensures
        r@ == "38;2"@,
{
    "38;2"
}

/// Clear the screen and home the cursor.
pub fn code_clear() -> (r: &'static str)
    ensures
        r@ == "\x1b[2J\x1b[H"@,
{
    "\x1b[2J\x1b[H"
}

/// Home the cursor.
pub fn code_top_left() -> (r: &'static str)
    ensures
        r@ == "\x1b[H"@,
{
    "\x1b[H"
}

/// Hide the cursor.
pub fn code_hide_cursor() -> (r: &'static str)
    ensures
        r@ == "\x1b[?25l"@,
{
    "\x1b[?25l"
}

/// Show the cursor.
pub fn code_show_cursor() -> (r: &'static str)
    ensures
        r@ == "\x1b[?25h"@,
{
    "\x1b[?25h"
}

/// The character for one decimal digit.
pub open spec fn digit_char_spec(d: int) -> char {
    if d == 0 {
        '0'
    } else if d == 1 {
        '1'
    } else if d == 2 {
        '2'
    } else if d == 3 {
        '3'
    } else if d == 4 {
        '4'
    } else if d == 5 {
        '5'
    } else if d == 6 {
        '6'
    } else if d == 7 {
        '7'
    } else if d == 8 {
        '8'
    } else {
        '9'
    }
}

/// The decimal digits of a non-negative integer, most significant first.
pub open spec fn dec_nat_spec(n: int) -> Seq<char>
    recommends
        n >= 0,
    decreases n,
{
    if n < 10 {
        seq![digit_char_spec(n)]
    } else {
        dec_nat_spec(n / 10).push(digit_char_spec(n % 10))
    }
}

/// The decimal rendering of an integer: a minus sign and the digits of its
/// magnitude when negative, the digits alone otherwise.
pub open spec fn dec_int_spec(n: int) -> Seq<char> {
    if n < 0 {
        seq!['-'] + dec_nat_spec(-n)
    } else {
        dec_nat_spec(n)
    }
}

/// One decimal digit as a string slice.
fn digit_str(d: u64) -> (r: &'static str)
    requires
        d < 10,
    ensures
        r@ == seq![digit_char_spec(d as int)],
{
    if d == 0 {
        proof {
            reveal_strlit("0");
            assert("0"@ =~= seq![digit_char_spec(0)]);
        }
        "0"
    } else if d == 1 {
        proof {
            reveal_strlit("1");
            assert("1"@ =~= seq![digit_char_spec(1)]);
        }
        "1"
    } else if d == 2 {
        proof {
            reveal_strlit("2");
            assert("2"@ =~= seq![digit_char_spec(2)]);
        }
        "2"
    } else if d == 3 {
        proof {
            reveal_strlit("3");
            assert("3"@ =~= seq![digit_char_spec(3)]);
        }
        "3"
    } else if d == 4 {
        proof {
            reveal_strlit("4");
            assert("4"@ =~= seq![digit_char_spec(4)]);
        }
        "4"
    } else if d == 5 {
        proof {
            reveal_strlit("5");
            assert("5"@ =~= seq![digit_char_spec(5)]);
        }
        "5"
    } else if d == 6 {
        proof {
            reveal_strlit("6");
            assert("6"@ =~= seq![digit_char_spec(6)]);
        }
        "6"
    } else if d == 7 {
        proof {
            reveal_strlit("7");
            assert("7"@ =~= seq![digit_char_spec(7)]);
        }
        "7"
    } else if d == 8 {
        proof {
            reveal_strlit("8");
            assert("8"@ =~= seq![digit_char_spec(8)]);
        }
        "8"
    } else {
        proof {
            reveal_strlit("9");
            assert("9"@ =~= seq![digit_char_spec(9)]);
        }
        "9"
    }
}

/// The decimal digits of `n`, most significant first.
pub fn u64_to_decimal(n: u64) -> (r: String)
    ensures
        r@ == dec_nat_spec(n as int),
    decreases n,
{
    if n < 10 {
        digit_str(n).to_owned()
    } else {
        let mut s = u64_to_decimal(n / 10);
        s.append(digit_str(n % 10));
        proof {
            assert(s@ =~= dec_nat_spec(n as int));
        }
        s
    }
}

/// The decimal rendering of `n`, minus sign included when negative.
pub fn i64_to_decimal(n: i64) -> (r: String)
    ensures
        r@ == dec_int_spec(n as int),
{
    if n >= 0 {
        u64_to_decimal(n as u64)
    } else {
        let mag: u64 = ((-(n + 1)) as u64) + 1;
        let mut s = "-".to_owned();
        s.append(u64_to_decimal(mag).as_str());
        proof {
            reveal_strlit("-");
            assert("-"@ =~= seq!['-']);
            assert(s@ =~= dec_int_spec(n as int));
        }
        s
    }
}

/// The escape sequence that moves the cursor to the 0-indexed cell
/// `(col, row)` (the sequence itself is 1-indexed).
pub fn move_cursor(col: i32, row: i32) -> (r: String)
    ensures
        r@ == "\x1b["@ + dec_int_spec(row + 1) + ";"@ + dec_int_spec(col + 1) + "H"@,
{
    let mut s = part_start().to_owned();
    s.append(i64_to_decimal(row as i64 + 1).as_str());
    s.append(";");
    s.append(i64_to_decimal(col as i64 + 1).as_str());
    s.append("H");
    s
}

/// The escape sequence that sets the truecolor background `(r, g, b)`,
/// e.g. the color 40,177,249 gives ESC "[48;2;40;177;249m".
pub fn background_color(r: u8, g: u8, b: u8) -> (out: String)
    ensures
        out@ == "\x1b["@ + "48;2"@ + ";"@ + dec_nat_spec(r as int) + ";"@ + dec_nat_spec(g as int)
            + ";"@ + dec_nat_spec(b as int) + "m"@,
{
    let mut s = part_start().to_owned();
    s.append(part_background_truecolor());
    s.append(";");
    s.append(u64_to_decimal(r as u64).as_str());
    s.append(";");
    s.append(u64_to_decimal(g as u64).as_str());
    s.append(";");
    s.append(u64_to_decimal(b as u64).as_str());
    s.append(part_end());
    s
}

/// The escape sequence that sets the truecolor foreground `(r, g, b)`.
pub fn foreground_color(r: u8, g: u8, b: u8) -> (out: String)
    ensures
        out@ == "\x1b["@ + "38;2"@ + ";"@ + dec_nat_spec(r as int) + ";"@ + dec_nat_spec(g as int)
            + ";"@ + dec_nat_spec(b as int) + "m"@,
{
    let mut s = part_start().to_owned();
    s.append(part_foreground_truecolor());
    s.append(";");
    s.append(u64_to_decimal(r as u64).as_str());
    s.append(";");
    s.append(u64_to_decimal(g as u64).as_str());
    s.append(";");
    s.append(u64_to_decimal(b as u64).as_str());
    s.append(part_end());
    s
}

/// Wrap a command body in the escape opener and terminator.
pub fn make_command_using_part(part: &str) -> (out: String)
    ensures
        out@ == "\x1b["@ + part@ + "m"@,
{
    let mut s = part_start().to_owned();
    s.append(part);
    s.append(part_end());
    s
}

} // verus!
