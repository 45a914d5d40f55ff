//! Rendering of rounded field values into fixed-width text.
//!
//! Every pattern is built from zero-padded decimal fields and literal
//! unit marks; the spec functions here give the exact character
//! sequence of each field.

use vstd::prelude::*;

verus! {

use vstd::string::StringExecFns;

/// The decimal digit character for `n`.
pub open spec fn digit(n: nat) -> char
    recommends
        n < 10,
{
    if n == 0 {
        '0'
    } else if n == 1 {
        '1'
    } else if n == 2 {
        '2'
    } else if n == 3 {
        '3'
    } else if n == 4 {
        '4'
    } else if n == 5 {
        '5'
    } else if n == 6 {
        '6'
    } else if n == 7 {
        '7'
    } else if n == 8 {
        '8'
    } else {
        '9'
    }
}

/// Two decimal digits, zero padded.
pub open spec fn two_digits(n: nat) -> Seq<char> {
    seq![digit(n / 10 % 10), digit(n % 10)]
}

/// Three decimal digits, zero padded.
pub open spec fn three_digits(n: nat) -> Seq<char> {
    seq![digit(n / 100 % 10), digit(n / 10 % 10), digit(n % 10)]
}

/// Four decimal digits, zero padded.
pub open spec fn four_digits(n: nat) -> Seq<char> {
    seq![digit(n / 1000 % 10), digit(n / 100 % 10), digit(n / 10 % 10), digit(n % 10)]
}

/// Pattern of the milliseconds bucket: three digits and `ms`.
pub open spec fn millis_text(ms: nat) -> Seq<char> {
    three_digits(ms) + seq!['m', 's']
}

/// Pattern of the two-decimal seconds bucket, over centiseconds:
/// `2.07s`.
pub open spec fn centi_text(c: nat) -> Seq<char> {
    seq![digit(c / 100 % 10), '.', digit(c / 10 % 10), digit(c % 10), 's']
}

/// Pattern of the one-decimal seconds bucket, over deciseconds:
/// `12.3s`.
pub open spec fn deci_text(d: nat) -> Seq<char> {
    seq![digit(d / 100 % 10), digit(d / 10 % 10), '.', digit(d % 10), 's']
}

/// Pattern of the paired buckets: one-digit major and two-digit minor,
/// each followed by its unit mark (`2m32s`, `7h07m`, `3d00h`, `1y51w`).
pub open spec fn pair_text(major: nat, major_mark: char, minor: nat, minor_mark: char) -> Seq<
    char,
> {
    seq![digit(major % 10), major_mark] + two_digits(minor) + seq![minor_mark]
}

/// Pattern of the weeks bucket: two-digit weeks, one-digit days:
/// `77w1d`.
pub open spec fn weeks_text(w: nat, d: nat) -> Seq<char> {
    two_digits(w) + seq!['w', digit(d % 10), 'd']
}

/// Pattern of the whole-years bucket: four digits and `y`: `0082y`.
pub open spec fn years_text(y: nat) -> Seq<char> {
    four_digits(y) + seq!['y']
}

/// The single-character string for one decimal digit.
fn digit_str(n: u64) -> (s: &'static str)
    requires
        n < 10,
    ensures
        s@ == seq![digit(n as nat)],
{
    proof {
        reveal_strlit("0");
        reveal_strlit("1");
        reveal_strlit("2");
        reveal_strlit("3");
        reveal_strlit("4");
        reveal_strlit("5");
        reveal_strlit("6");
        reveal_strlit("7");
        reveal_strlit("8");
        reveal_strlit("9");
    }
    let s = match n {
        0 => "0",
        1 => "1",
        2 => "2",
        3 => "3",
        4 => "4",
        5 => "5",
        6 => "6",
        7 => "7",
        8 => "8",
        _ => "9",
    };
    proof {
        assert(s@ =~= seq![digit(n as nat)]);
    }
    s
}

/// Append one decimal digit.
pub fn push_digit(out: &mut String, n: u64)
    requires
        n < 10,
    ensures
        final(out)@ == old(out)@ + seq![digit(n as nat)],
{
    out.append(digit_str(n));
}

/// Append two decimal digits, zero padded.
pub fn push_two(out: &mut String, n: u64)
    requires
        n < 100,
    ensures
        final(out)@ == old(out)@ + two_digits(n as nat),
{
    push_digit(out, n / 10);
    push_digit(out, n % 10);
    assert(out@ =~= old(out)@ + two_digits(n as nat));
}

/// Append three decimal digits, zero padded.
pub fn push_three(out: &mut String, n: u64)
    requires
        n < 1000,
    ensures
        final(out)@ == old(out)@ + three_digits(n as nat),
{
    push_digit(out, n / 100);
    push_digit(out, n / 10 % 10);
    push_digit(out, n % 10);
    assert(out@ =~= old(out)@ + three_digits(n as nat));
}

/// Append four decimal digits, zero padded.
pub fn push_four(out: &mut String, n: u64)
    requires
        n < 10000,
    ensures
        final(out)@ == old(out)@ + four_digits(n as nat),
{
    push_digit(out, n / 1000);
    push_digit(out, n / 100 % 10);
    push_digit(out, n / 10 % 10);
    push_digit(out, n % 10);
    assert(out@ =~= old(out)@ + four_digits(n as nat));
}

/// Render a paired bucket: one-digit major, unit mark, two-digit
/// minor, unit mark.
pub fn render_pair(major: u64, major_mark: &str, minor: u64, minor_mark: &str) -> (s: String)
    requires
        major < 10,
        minor < 100,
        major_mark@.len() == 1,
        minor_mark@.len() == 1,
    ensures
        s@ == pair_text(major as nat, major_mark@[0], minor as nat, minor_mark@[0]),
{
    let mut out = String::new();
    push_digit(&mut out, major);
    out.append(major_mark);
    push_two(&mut out, minor);
    out.append(minor_mark);
    assert(out@ =~= pair_text(major as nat, major_mark@[0], minor as nat, minor_mark@[0]));
    out
}

} // verus!
