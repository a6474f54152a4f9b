//! The timestamp written at the head of each log entry:
//! `YYYY-MM-DD HH:MM:SS`, from the local date and time read by the caller.

use vstd::prelude::*;
use crate::text::{decimal, push_char, push_decimal, push_two_digits, two_digits};

verus! {

/// A character that a timestamp can contain: an ASCII digit, one of the
/// separators `-`, `:` and space, or the `+` that marks a year past 9999.
pub open spec fn timestamp_char(c: char) -> bool {
    ('0' <= c && c <= '9') || c == '-' || c == ':' || c == ' ' || c == '+'
}

/// Text made only of timestamp characters.
pub open spec fn is_timestamp_text(s: Seq<char>) -> bool {
    forall|i: int| 0 <= i < s.len() ==> timestamp_char(#[trigger] s[i])
}

/// Decimal rendering padded with zeros to at least four characters.
pub open spec fn four_digits(n: nat) -> Seq<char> {
    if n < 10 {
        seq!['0', '0', '0'] + decimal(n)
    } else if n < 100 {
        seq!['0', '0'] + decimal(n)
    } else if n < 1000 {
        seq!['0'] + decimal(n)
    } else {
        decimal(n)
    }
}

/// The year of a timestamp: four digits for years 0 to 9999, otherwise a
/// sign followed by at least four digits.
pub open spec fn year_text(year: int) -> Seq<char> {
    if 0 <= year <= 9999 {
        four_digits(year as nat)
    } else if year > 9999 {
        seq!['+'] + four_digits(year as nat)
    } else {
        seq!['-'] + four_digits((-year) as nat)
    }
}

/// `YYYY-MM-DD HH:MM:SS`.
pub open spec fn timestamp_text(
    year: int,
    month: nat,
    day: nat,
    hour: nat,
    minute: nat,
    second: nat,
) -> Seq<char> {
    year_text(year) + seq!['-'] + two_digits(month) + seq!['-'] + two_digits(day) + seq![' ']
        + two_digits(hour) + seq![':'] + two_digits(minute) + seq![':'] + two_digits(second)
}

fn push_four_digits(s: &mut String, n: u64)
    ensures
        final(s)@ == old(s)@ + four_digits(n as nat),
{
    let ghost start = s@;
    if n < 10 {
        push_char(s, '0');
        push_char(s, '0');
        push_char(s, '0');
    } else if n < 100 {
        push_char(s, '0');
        push_char(s, '0');
    } else if n < 1000 {
        push_char(s, '0');
    }
    let ghost mid = s@;
    push_decimal(s, n);
    assert(s@ == start + four_digits(n as nat));
}

/// Renders a local date and time as the timestamp of a log entry.
pub fn format_timestamp(year: i32, month: u32, day: u32, hour: u32, minute: u32, second: u32) -> (r:
    String)
    ensures
        r@ == timestamp_text(
            year as int,
            month as nat,
            day as nat,
            hour as nat,
            minute as nat,
            second as nat,
        ),
{
    let mut r = String::new();
    if 0 <= year && year <= 9999 {
        push_four_digits(&mut r, year as u64);
    } else if year > 9999 {
        push_char(&mut r, '+');
        push_four_digits(&mut r, year as u64);
    } else {
        push_char(&mut r, '-');
        let a: u64 = (0i64 - year as i64) as u64;
        push_four_digits(&mut r, a);
    }
    assert(r@ == year_text(year as int));
    push_char(&mut r, '-');
    push_two_digits(&mut r, month as u64);
    push_char(&mut r, '-');
    push_two_digits(&mut r, day as u64);
    push_char(&mut r, ' ');
    push_two_digits(&mut r, hour as u64);
    push_char(&mut r, ':');
    push_two_digits(&mut r, minute as u64);
    push_char(&mut r, ':');
    push_two_digits(&mut r, second as u64);
    r
}

} // verus!
