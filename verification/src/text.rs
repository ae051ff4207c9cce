//! Text helpers: digits, decimal numbers, and the two normalising steps that
//! the standard library performs on a label.

use vstd::prelude::*;
use vstd::utf8::{encode_utf8, encode_utf8_decode_utf8};

verus! {

/// `String::push` of the standard library appends one character to the end
/// of the string and leaves the rest as it was.
pub assume_specification[ String::push ](s: &mut String, c: char)
    ensures
        final(s)@ == old(s)@.push(c),
;

/// What `str::trim` returns for a text: the text without the white space
/// (in Unicode's sense) at its two ends.
pub uninterp spec fn trimmed(s: Seq<char>) -> Seq<char>;

/// What `str::to_lowercase` returns for a text: its lower-case equivalent
/// by Unicode's rules, which may differ in length from the text.
pub uninterp spec fn lowercased(s: Seq<char>) -> Seq<char>;

/// A visible ASCII character: neither white space nor a control character.
pub open spec fn is_ascii_graphic(c: char) -> bool {
    '!' <= c <= '~'
}

/// An ASCII character that is no upper-case letter.
pub open spec fn is_caseless_ascii(c: char) -> bool {
    c <= '\u{7f}' && !('A' <= c <= 'Z')
}

/// A text that trimming and lower-casing leave as it is: ASCII without
/// upper-case letters, beginning and ending with a visible character.
pub open spec fn is_plain(s: Seq<char>) -> bool {
    &&& s.len() > 0
    &&& is_ascii_graphic(s.first())
    &&& is_ascii_graphic(s.last())
    &&& forall|i: int| 0 <= i < s.len() ==> is_caseless_ascii(#[trigger] s[i])
}

/// The normal form of a text: the text trimmed, then lower-cased. A plain
/// text is its own normal form.
pub open spec fn normalized(s: Seq<char>) -> Seq<char> {
    if is_plain(s) {
        s
    } else {
        lowercased(trimmed(s))
    }
}

/// Calls `str::trim`. Trusted: the result is the text that [`trimmed`] names,
/// and a text that begins and ends with a visible ASCII character has no
/// white space at its ends, so it comes back unchanged.
#[verifier::external_body]
pub(crate) fn trim(s: &str) -> (r: &str)
    ensures
        r@ == trimmed(s@),
        s@.len() > 0 && is_ascii_graphic(s@.first()) && is_ascii_graphic(s@.last()) ==> r@ == s@,
{
    s.trim()
}

/// Calls `str::to_lowercase`. Trusted: the result is the text that
/// [`lowercased`] names, and a text of ASCII characters without upper-case
/// letters is already in lower case, so it comes back unchanged.
#[verifier::external_body]
pub(crate) fn to_lowercase(s: &str) -> (r: String)
    ensures
        r@ == lowercased(s@),
        (forall|i: int| 0 <= i < s@.len() ==> is_caseless_ascii(#[trigger] s@[i])) ==> r@ == s@,
{
    s.to_lowercase()
}

/// The normal form of a text: trimmed, then lower-cased.
pub fn normalize(s: &str) -> (r: String)
    ensures
        r@ == normalized(s@),
{
    to_lowercase(trim(s))
}

/// Whether two texts are the same, character by character.
pub fn same_text(a: &str, b: &str) -> (r: bool)
    ensures
        r == (a@ == b@),
{
    let x = a.as_bytes();
    let y = b.as_bytes();
    proof {
        encode_utf8_decode_utf8(a@);
        encode_utf8_decode_utf8(b@);
    }
    if x.len() != y.len() {
        return false;
    }
    let mut i: usize = 0;
    while i < x.len()
        invariant
            i <= x.len(),
            x.len() == y.len(),
            x@ == encode_utf8(a@),
            y@ == encode_utf8(b@),
            forall|j: int| 0 <= j < i ==> x@[j] == y@[j],
        decreases x.len() - i,
    {
        if x[i] != y[i] {
            return false;
        }
        i += 1;
    }
    assert(x@ =~= y@);
    true
}

/// The character of a decimal digit.
pub open spec fn digit_char(d: int) -> char {
    ('0' as int + d) as char
}

/// Whether a character is one of `0` to `9`.
pub open spec fn is_digit(c: char) -> bool {
    '0' <= c <= '9'
}

/// The number that a digit stands for.
pub open spec fn digit_value(c: char) -> int {
    c as int - '0' as int
}

/// A digit's character is a digit and stands for that digit.
pub proof fn lemma_digit_char(d: int)
    requires
        0 <= d < 10,
    ensures
        is_digit(digit_char(d)),
        digit_value(digit_char(d)) == d,
{
}

/// A digit stands for a number below ten, whose character it is.
pub proof fn lemma_digit_value(c: char)
    requires
        is_digit(c),
    ensures
        0 <= digit_value(c) < 10,
        digit_char(digit_value(c)) == c,
{
}

/// The decimal numeral of a number, without leading zeros.
pub open spec fn decimal(n: nat) -> Seq<char>
    decreases n,
{
    if n < 10 {
        seq![digit_char(n as int)]
    } else {
        decimal(n / 10).push(digit_char((n % 10) as int))
    }
}

/// The character of a digit below ten.
pub(crate) fn digit_to_char(d: u8) -> (c: char)
    requires
        d < 10,
    ensures
        c == digit_char(d as int),
        is_digit(c),
        digit_value(c) == d,
{
    (48u8 + d) as char
}

/// The value of a character if it is a decimal digit.
pub fn char_to_digit(c: char) -> (r: Option<u8>)
    ensures
        r is Some <==> is_digit(c),
        r is Some ==> r.unwrap() == digit_value(c) && r.unwrap() < 10 && digit_char(
            r.unwrap() as int,
        ) == c,
{
    if '0' <= c && c <= '9' {
        Some((c as u32 - 48) as u8)
    } else {
        None
    }
}

/// Appends the decimal numeral of `n` to `out`.
pub fn push_decimal(out: &mut String, n: u64)
    ensures
        final(out)@ == old(out)@ + decimal(n as nat),
    decreases n,
{
    if n >= 10 {
        push_decimal(out, n / 10);
    }
    out.push(digit_to_char((n % 10) as u8));
}

/// The decimal numeral of `n` as a string.
pub fn decimal_string(n: u64) -> (r: String)
    ensures
        r@ == decimal(n as nat),
{
    let mut out = String::new();
    push_decimal(&mut out, n);
    out
}

} // verus!
