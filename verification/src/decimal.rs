//! The decimal text of integers, which makes the built-in integer types usable
//! as the numbers of an expression.
use crate::text::Render;
use vstd::prelude::*;
use vstd::string::StringExecFns;

verus! {

/// The character that stands for the digit `d`, for `d` from 0 to 9.
pub open spec fn digit_char(d: int) -> char
    recommends
        0 <= d <= 9,
{
    ('0' as int + d) as char
}

/// The decimal digits of `n`, most significant first, without leading zeros.
/// Zero is the single digit `0`.
pub open spec fn decimal_text(n: nat) -> Seq<char>
    decreases n,
{
    if n < 10 {
        seq![digit_char(n as int)]
    } else {
        decimal_text(n / 10).push(digit_char((n % 10) as int))
    }
}

/// The decimal text of `v`: a minus sign in front of the digits of a negative
/// number, the bare digits otherwise.
pub open spec fn integer_text(v: int) -> Seq<char> {
    if v < 0 {
        seq!['-'] + decimal_text((-v) as nat)
    } else {
        decimal_text(v as nat)
    }
}

/// The one-character string of the digit `d`.
fn digit_str(d: u64) -> (s: &'static str)
    requires
        d <= 9,
    ensures
        s@ == seq![digit_char(d as int)],
{
    proof {
        reveal_strlit("0");
        reveal_strlit("1");
        reveal_strlit("2");
        reveal_strlit("3");
        reveal_strlit("4");
        reveal_strlit("5");
        reveal_strlit("6");
        reveal_strlit("7");
        reveal_strlit("8");
        reveal_strlit("9");
    }
    match d {
        0 => "0",
        1 => "1",
        2 => "2",
        3 => "3",
        4 => "4",
        5 => "5",
        6 => "6",
        7 => "7",
        8 => "8",
        _ => "9",
    }
}

/// Appends the decimal digits of `n` to `out`.
pub fn write_decimal(n: u64, out: &mut String)
    ensures
        final(out)@ == old(out)@ + decimal_text(n as nat),
    decreases n,
{
    if n >= 10 {
        write_decimal(n / 10, out);
    }
    out.append(digit_str(n % 10));
}

/// Appends the decimal text of `v` to `out`.
pub fn write_integer(v: i64, out: &mut String)
    ensures
        final(out)@ == old(out)@ + integer_text(v as int),
{
    if v < 0 {
        proof {
            reveal_strlit("-");
        }
        out.append("-");
        let magnitude: u64 = (-(v + 1)) as u64 + 1;
        write_decimal(magnitude, out);
    } else {
        write_decimal(v as u64, out);
    }
}

impl Render for u64 {
    open spec fn text(&self) -> Seq<char> {
        decimal_text(*self as nat)
    }

    fn render_into(&self, out: &mut String) {
        write_decimal(*self, out);
    }
}

impl Render for u32 {
    open spec fn text(&self) -> Seq<char> {
        decimal_text(*self as nat)
    }

    fn render_into(&self, out: &mut String) {
        write_decimal(*self as u64, out);
    }
}

impl Render for i64 {
    open spec fn text(&self) -> Seq<char> {
        integer_text(*self as int)
    }

    fn render_into(&self, out: &mut String) {
        write_integer(*self, out);
    }
}

impl Render for i32 {
    open spec fn text(&self) -> Seq<char> {
        integer_text(*self as int)
    }

    fn render_into(&self, out: &mut String) {
        write_integer(*self as i64, out);
    }
}

} // verus!
