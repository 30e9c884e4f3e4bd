//! Rendering of pass lines: base-10 rendering of the counter and of the
//! call-site line number, and the `[Pass <count>][Line <line>]` layout,
//! with or without a trailing message.

use vstd::prelude::*;
use vstd::string::StringExecFns;

verus! {

/// The decimal digit character for `d` (meaningful for `d < 10`).
pub open spec fn digit_char(d: nat) -> char {
    if d == 0 {
        '0'
    } else if d == 1 {
        '1'
    } else if d == 2 {
        '2'
    } else if d == 3 {
        '3'
    } else if d == 4 {
        '4'
    } else if d == 5 {
        '5'
    } else if d == 6 {
        '6'
    } else if d == 7 {
        '7'
    } else if d == 8 {
        '8'
    } else {
        '9'
    }
}

/// The base-10 rendering of `n`, most significant digit first, with no
/// leading zeros (a single `'0'` for `n == 0`).
pub open spec fn decimal(n: nat) -> Seq<char>
    decreases n,
{
    if n < 10 {
        seq![digit_char(n)]
    } else {
        decimal(n / 10).push(digit_char(n % 10))
    }
}

/// The one-character string for the decimal digit `d`.
fn digit_str(d: usize) -> (s: &'static str)
    requires
        d < 10,
    ensures
        s@ == seq![digit_char(d as nat)],
{
    proof {
        reveal_strlit("0");
        reveal_strlit("1");
        reveal_strlit("2");
        reveal_strlit("3");
        reveal_strlit("4");
        reveal_strlit("5");
        reveal_strlit("6");
        reveal_strlit("7");
        reveal_strlit("8");
        reveal_strlit("9");
    }
    let s = match d {
        0 => "0",
        1 => "1",
        2 => "2",
        3 => "3",
        4 => "4",
        5 => "5",
        6 => "6",
        7 => "7",
        8 => "8",
        _ => "9",
    };
    proof {
        assert(s@ =~= seq![digit_char(d as nat)]);
    }
    s
}

/// `n` rendered in base 10.
pub fn to_decimal(n: usize) -> (s: String)
    ensures
        s@ == decimal(n as nat),
    decreases n,
{
    if n < 10 {
        String::from_str(digit_str(n))
    } else {
        let mut s = to_decimal(n / 10);
        s.append(digit_str(n % 10));
        proof {
            assert(s@ =~= decimal(n as nat));
        }
        s
    }
}

/// The log line for the `count`-th pass at call-site line `line`:
/// `[Pass <count>][Line <line>]`.
pub open spec fn pass_line(count: nat, line: nat) -> Seq<char> {
    seq!['[', 'P', 'a', 's', 's', ' '] + decimal(count) + seq![']', '[', 'L', 'i', 'n', 'e', ' ']
        + decimal(line) + seq![']']
}

/// The log line with a message after it:
/// `[Pass <count>][Line <line>] <message>`.
pub open spec fn pass_line_message(count: nat, line: nat, message: Seq<char>) -> Seq<char> {
    pass_line(count, line) + seq![' '] + message
}

/// Render `[Pass <count>][Line <line>]`.
pub fn render_pass_line(count: usize, line: usize) -> (s: String)
    ensures
        s@ == pass_line(count as nat, line as nat),
{
    let mut s = String::from_str("[Pass ");
    let count_digits = to_decimal(count);
    s.append(count_digits.as_str());
    s.append("][Line ");
    let line_digits = to_decimal(line);
    s.append(line_digits.as_str());
    s.append("]");
    proof {
        reveal_strlit("[Pass ");
        reveal_strlit("][Line ");
        reveal_strlit("]");
        assert(s@ =~= pass_line(count as nat, line as nat));
    }
    s
}

/// Render `[Pass <count>][Line <line>] <message>`.
pub fn render_pass_line_message(count: usize, line: usize, message: &str) -> (s: String)
    ensures
        s@ == pass_line_message(count as nat, line as nat, message@),
{
    let mut s = render_pass_line(count, line);
    s.append(" ");
    s.append(message);
    proof {
        reveal_strlit(" ");
        assert(s@ =~= pass_line_message(count as nat, line as nat, message@));
    }
    s
}

} // verus!
