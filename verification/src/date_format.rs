//! The text form of a date: `YYYY-MM-DD`, each part padded with zeros.

use crate::date::{Date, Ymd};
use crate::error::DbError;
use crate::text::{
    char_to_digit, digit_char, digit_to_char, digit_value, is_digit, lemma_digit_char,
    lemma_digit_value,
};
use vstd::arithmetic::div_mod::{lemma_fundamental_div_mod, lemma_fundamental_div_mod_converse};
use vstd::prelude::*;
use vstd::string::*;

verus! {

/// The ten characters that stand for a date.
pub open spec fn date_text(d: Ymd) -> Seq<char> {
    seq![
        digit_char(d.year / 1000),
        digit_char(d.year / 100 % 10),
        digit_char(d.year / 10 % 10),
        digit_char(d.year % 10),
        '-',
        digit_char(d.month / 10),
        digit_char(d.month % 10),
        '-',
        digit_char(d.day / 10),
        digit_char(d.day % 10),
    ]
}

/// Four digits, a hyphen, two digits, a hyphen, two digits, and no more.
pub open spec fn has_date_shape(s: Seq<char>) -> bool {
    &&& s.len() == 10
    &&& is_digit(s[0]) && is_digit(s[1]) && is_digit(s[2]) && is_digit(s[3])
    &&& s[4] == '-'
    &&& is_digit(s[5]) && is_digit(s[6])
    &&& s[7] == '-'
    &&& is_digit(s[8]) && is_digit(s[9])
}

/// The three numbers that a text of that shape holds.
pub open spec fn shaped_ymd(s: Seq<char>) -> Ymd {
    Ymd {
        year: 1000 * digit_value(s[0]) + 100 * digit_value(s[1]) + 10 * digit_value(s[2])
            + digit_value(s[3]),
        month: 10 * digit_value(s[5]) + digit_value(s[6]),
        day: 10 * digit_value(s[8]) + digit_value(s[9]),
    }
}

/// The date that a text stands for: the text has the shape and names a day
/// that exists.
pub open spec fn parse_date_text(s: Seq<char>) -> Option<Ymd> {
    if has_date_shape(s) && shaped_ymd(s).is_valid() {
        Some(shaped_ymd(s))
    } else {
        None
    }
}

/// Writes a date as `YYYY-MM-DD`.
pub fn serialize(date: &Date) -> (r: String)
    ensures
        r@ == date_text(date@),
{
    let y: i32 = date.year();
    let m: u32 = date.month();
    let d: u32 = date.day();
    let mut out = String::new();
    out.push(digit_to_char((y / 1000) as u8));
    out.push(digit_to_char((y / 100 % 10) as u8));
    out.push(digit_to_char((y / 10 % 10) as u8));
    out.push(digit_to_char((y % 10) as u8));
    out.push('-');
    out.push(digit_to_char((m / 10) as u8));
    out.push(digit_to_char((m % 10) as u8));
    out.push('-');
    out.push(digit_to_char((d / 10) as u8));
    out.push(digit_to_char((d % 10) as u8));
    assert(out@ =~= date_text(date@));
    out
}

/// The digit at a position of a text, if a digit stands there.
fn digit_at(text: &str, i: usize) -> (r: Option<u32>)
    requires
        i < text@.len(),
    ensures
        r is Some <==> is_digit(text@[i as int]),
        r is Some ==> r.unwrap() == digit_value(text@[i as int]) && r.unwrap() < 10,
{
    match char_to_digit(text.get_char(i)) {
        Some(d) => Some(d as u32),
        None => None,
    }
}

/// Reads a date written as `YYYY-MM-DD`. Any other text, and a day that
/// does not exist, is a format error.
pub fn deserialize(text: &str) -> (r: Result<Date, DbError>)
    ensures
        match r {
            Ok(date) => parse_date_text(text@) == Some(date@),
            Err(e) => e == DbError::Format && parse_date_text(text@) is None,
        },
{
    if text.unicode_len() != 10 {
        return Err(DbError::Format);
    }
    if text.get_char(4) != '-' || text.get_char(7) != '-' {
        return Err(DbError::Format);
    }
    let digits = (
        digit_at(text, 0),
        digit_at(text, 1),
        digit_at(text, 2),
        digit_at(text, 3),
        digit_at(text, 5),
        digit_at(text, 6),
        digit_at(text, 8),
        digit_at(text, 9),
    );
    match digits {
        (Some(y3), Some(y2), Some(y1), Some(y0), Some(m1), Some(m0), Some(d1), Some(d0)) => {
            let year: u32 = 1000 * y3 + 100 * y2 + 10 * y1 + y0;
            match Date::from_ymd(year as i32, 10 * m1 + m0, 10 * d1 + d0) {
                Some(date) => Ok(date),
                None => Err(DbError::Format),
            }
        },
        _ => Err(DbError::Format),
    }
}

/// A number made of four digits has these digits.
proof fn lemma_digits_of_four(a: int, b: int, c: int, d: int)
    requires
        0 <= a < 10,
        0 <= b < 10,
        0 <= c < 10,
        0 <= d < 10,
    ensures
        ({
            let n = 1000 * a + 100 * b + 10 * c + d;
            n / 1000 == a && n / 100 % 10 == b && n / 10 % 10 == c && n % 10 == d
        }),
{
    let n = 1000 * a + 100 * b + 10 * c + d;
    lemma_fundamental_div_mod_converse(n, 1000, a, 100 * b + 10 * c + d);
    lemma_fundamental_div_mod_converse(n, 100, 10 * a + b, 10 * c + d);
    lemma_fundamental_div_mod_converse(10 * a + b, 10, a, b);
    lemma_fundamental_div_mod_converse(n, 10, 100 * a + 10 * b + c, d);
    lemma_fundamental_div_mod_converse(100 * a + 10 * b + c, 10, 10 * a + b, c);
}

/// A number made of two digits has these digits.
proof fn lemma_digits_of_two(a: int, b: int)
    requires
        0 <= a < 10,
        0 <= b < 10,
    ensures
        (10 * a + b) / 10 == a,
        (10 * a + b) % 10 == b,
{
    lemma_fundamental_div_mod_converse(10 * a + b, 10, a, b);
}

/// The four decimal digits of a number below ten thousand give it back.
proof fn lemma_four_digits(n: int)
    requires
        0 <= n <= 9999,
    ensures
        0 <= n / 1000 < 10,
        0 <= n / 100 % 10 < 10,
        0 <= n / 10 % 10 < 10,
        0 <= n % 10 < 10,
        1000 * (n / 1000) + 100 * (n / 100 % 10) + 10 * (n / 10 % 10) + n % 10 == n,
{
    let q1 = n / 10;
    let q2 = q1 / 10;
    let q3 = q2 / 10;
    lemma_fundamental_div_mod(n, 10);
    lemma_fundamental_div_mod(q1, 10);
    lemma_fundamental_div_mod(q2, 10);
    assert(n == 1000 * q3 + 100 * (q2 % 10) + 10 * (q1 % 10) + n % 10);
    lemma_digits_of_four(q3, q2 % 10, q1 % 10, n % 10);
}

/// The two decimal digits of a number below a hundred give it back.
proof fn lemma_two_digits(n: int)
    requires
        0 <= n <= 99,
    ensures
        0 <= n / 10 < 10,
        0 <= n % 10 < 10,
        10 * (n / 10) + n % 10 == n,
{
    lemma_fundamental_div_mod(n, 10);
}

/// A date that was written is read back as the same date.
pub proof fn lemma_date_text_round_trip(d: Ymd)
    requires
        d.is_valid(),
    ensures
        parse_date_text(date_text(d)) == Some(d),
{
    let s = date_text(d);
    lemma_four_digits(d.year);
    lemma_two_digits(d.month);
    lemma_two_digits(d.day);
    lemma_digit_char(d.year / 1000);
    lemma_digit_char(d.year / 100 % 10);
    lemma_digit_char(d.year / 10 % 10);
    lemma_digit_char(d.year % 10);
    lemma_digit_char(d.month / 10);
    lemma_digit_char(d.month % 10);
    lemma_digit_char(d.day / 10);
    lemma_digit_char(d.day % 10);
    assert(has_date_shape(s));
    assert(shaped_ymd(s) == d);
}

/// Only one text stands for a date: a text that is read as a date is the
/// text that is written for it.
pub proof fn lemma_date_text_unique(s: Seq<char>)
    requires
        parse_date_text(s) is Some,
    ensures
        date_text(parse_date_text(s).unwrap()) == s,
{
    let d = shaped_ymd(s);
    lemma_digit_value(s[0]);
    lemma_digit_value(s[1]);
    lemma_digit_value(s[2]);
    lemma_digit_value(s[3]);
    lemma_digit_value(s[5]);
    lemma_digit_value(s[6]);
    lemma_digit_value(s[8]);
    lemma_digit_value(s[9]);
    lemma_digits_of_four(
        digit_value(s[0]),
        digit_value(s[1]),
        digit_value(s[2]),
        digit_value(s[3]),
    );
    lemma_digits_of_two(digit_value(s[5]), digit_value(s[6]));
    lemma_digits_of_two(digit_value(s[8]), digit_value(s[9]));
    assert(date_text(d) =~= s);
}

} // verus!
