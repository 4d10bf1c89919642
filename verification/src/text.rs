//! Small tools on text that both decoders share: comparing strings, finding
//! a key in a list of named values, and reading a decimal integer.

use vstd::prelude::*;
use vstd::string::*;

verus! {

/// True when the two strings hold the same characters.
pub fn same_text(a: &String, b: &str) -> (r: bool)
    ensures
        r == (a@ == b@),
{
    let owned = b.to_owned();
    *a == owned
}

/// The value that `entries` gives for `key`: that of the last entry under
/// that name, if there is one.
pub open spec fn lookup<V>(entries: Seq<(String, V)>, key: Seq<char>) -> Option<V>
    decreases entries.len(),
{
    if entries.len() == 0 {
        None
    } else if entries.last().0@ == key {
        Some(entries.last().1)
    } else {
        lookup(entries.drop_last(), key)
    }
}

/// A key has a value exactly when some entry carries it, and the value is
/// that of the last such entry.
pub proof fn lemma_lookup_is_last<V>(entries: Seq<(String, V)>, key: Seq<char>)
    ensures
        lookup(entries, key) is Some <==> exists|i: int|
            0 <= i < entries.len() && (#[trigger] entries[i]).0@ == key,
        forall|i: int|
            0 <= i < entries.len() && (#[trigger] entries[i]).0@ == key && (forall|j: int|
                i < j < entries.len() ==> (#[trigger] entries[j]).0@ != key) ==> lookup(
                entries,
                key,
            ) == Some(entries[i].1),
    decreases entries.len(),
{
    if entries.len() > 0 {
        let front = entries.drop_last();
        lemma_lookup_is_last(front, key);
        if entries.last().0@ == key {
            assert(entries[entries.len() - 1].0@ == key);
        } else {
            if lookup(entries, key) is Some {
                let i = choose|i: int| 0 <= i < front.len() && (#[trigger] front[i]).0@ == key;
                assert(entries[i] == front[i]);
            }
            if exists|i: int| 0 <= i < entries.len() && (#[trigger] entries[i]).0@ == key {
                let i = choose|i: int| 0 <= i < entries.len() && (#[trigger] entries[i]).0@ == key;
                assert(front[i] == entries[i]);
            }
            assert forall|i: int|
                0 <= i < entries.len() && (#[trigger] entries[i]).0@ == key && (forall|j: int|
                    i < j < entries.len() ==> (#[trigger] entries[j]).0@ != key) implies lookup(
                entries,
                key,
            ) == Some(entries[i].1) by {
                assert(front[i] == entries[i]);
                assert forall|j: int| i < j < front.len() implies (#[trigger] front[j]).0@
                    != key by {
                    assert(front[j] == entries[j]);
                }
            }
        }
    }
}

/// Finds the value that `entries` gives for `key`.
pub fn find<'a, V>(entries: &'a Vec<(String, V)>, key: &str) -> (r: Option<&'a V>)
    ensures
        match r {
            Some(v) => lookup(entries@, key@) == Some(*v),
            None => lookup(entries@, key@) is None,
        },
{
    let wanted = key.to_owned();
    let mut i: usize = entries.len();
    assert(entries@.take(i as int) =~= entries@);
    while i > 0
        invariant
            i <= entries.len(),
            wanted@ == key@,
            lookup(entries@, key@) == lookup(entries@.take(i as int), key@),
        decreases i,
    {
        i = i - 1;
        proof {
            let prefix = entries@.take(i + 1);
            assert(prefix.last() == entries@[i as int]);
            assert(prefix.drop_last() =~= entries@.take(i as int));
        }
        if entries[i].0 == wanted {
            return Some(&entries[i].1);
        }
    }
    None
}

/// True for the ten decimal digits.
pub open spec fn is_digit(c: char) -> bool {
    '0' <= c <= '9'
}

/// The number that a run of decimal digits writes.
pub open spec fn digits_value(s: Seq<char>) -> nat
    decreases s.len(),
{
    if s.len() == 0 {
        0
    } else {
        (digits_value(s.drop_last()) * 10 + (s.last() as nat - '0' as nat)) as nat
    }
}

/// The digits of a numeral, without its sign.
pub open spec fn numeral_digits(s: Seq<char>) -> Seq<char> {
    if s.len() > 0 && (s[0] == '-' || s[0] == '+') {
        s.skip(1)
    } else {
        s
    }
}

/// The mathematical value of a numeral: an optional sign, then digits.
pub open spec fn numeral_value(s: Seq<char>) -> int {
    if s.len() > 0 && s[0] == '-' {
        -(digits_value(numeral_digits(s)) as int)
    } else {
        digits_value(numeral_digits(s)) as int
    }
}

/// The 64-bit integer that `s` writes in decimal: an optional `+` or `-`, then
/// one or more digits and nothing else, with a value that fits.
pub open spec fn decimal_i64(s: Seq<char>) -> Option<i64> {
    let digits = numeral_digits(s);
    if digits.len() > 0 && (forall|i: int| 0 <= i < digits.len() ==> is_digit(#[trigger] digits[i]))
        && i64::MIN <= numeral_value(s) <= i64::MAX {
        Some(numeral_value(s) as i64)
    } else {
        None
    }
}

/// Reads a decimal 64-bit integer.
///
/// Calls `str::parse::<i64>`. The standard library documents it as taking
/// an optional sign followed by decimal digits only, and as failing on an
/// empty string, a lone sign, any other character, and a value out of range.
#[verifier::external_body]
pub(crate) fn parse_i64(text: &str) -> (r: Option<i64>)
    ensures
        r == decimal_i64(text@),
{
    text.parse::<i64>().ok()
}

/// The first position at or after `i` that holds no digit.
pub open spec fn skip_digits(s: Seq<char>, i: int) -> int
    decreases s.len() - i,
{
    if 0 <= i < s.len() && is_digit(s[i]) {
        skip_digits(s, i + 1)
    } else {
        i
    }
}

/// The position after a sign at `i`, or `i` where there is none.
pub open spec fn skip_sign(s: Seq<char>, i: int) -> int {
    if 0 <= i < s.len() && (s[i] == '+' || s[i] == '-') {
        i + 1
    } else {
        i
    }
}

/// True when `s` has a decimal point at `i`.
pub open spec fn has_point(s: Seq<char>, i: int) -> bool {
    0 <= i < s.len() && s[i] == '.'
}

/// True when `s` has an exponent mark at `i`.
pub open spec fn has_exponent(s: Seq<char>, i: int) -> bool {
    0 <= i < s.len() && (s[i] == 'e' || s[i] == 'E')
}

/// True when `s` writes a finite decimal number: an optional sign; digits
/// with at most one decimal point among them, at least one digit in all;
/// then, optionally, an exponent mark, an optional sign and one or more
/// digits; and nothing else.
pub open spec fn is_numeral(s: Seq<char>) -> bool {
    let whole = skip_sign(s, 0);
    let point = skip_digits(s, whole);
    let mantissa_end = if has_point(s, point) {
        skip_digits(s, point + 1)
    } else {
        point
    };
    let digits = (point - whole) + if has_point(s, point) {
        mantissa_end - point - 1
    } else {
        0
    };
    let exponent = skip_sign(s, mantissa_end + 1);
    let end = if has_exponent(s, mantissa_end) {
        skip_digits(s, exponent)
    } else {
        mantissa_end
    };
    digits > 0 && (has_exponent(s, mantissa_end) ==> end > exponent) && end == s.len()
}

/// Finds the end of the run of digits that starts at `start`.
fn digits_end(text: &str, len: usize, start: usize) -> (r: usize)
    requires
        len == text@.len(),
        start <= len,
    ensures
        r == skip_digits(text@, start as int),
        start <= r <= len,
{
    let mut i: usize = start;
    while i < len
        invariant
            len == text@.len(),
            start <= i <= len,
            skip_digits(text@, start as int) == skip_digits(text@, i as int),
        decreases len - i,
    {
        let c = text.get_char(i);
        if !('0' <= c && c <= '9') {
            return i;
        }
        i = i + 1;
    }
    i
}

/// Passes over a sign at `start`, if there is one.
fn sign_end(text: &str, len: usize, start: usize) -> (r: usize)
    requires
        len == text@.len(),
        start <= len,
    ensures
        r == skip_sign(text@, start as int),
        start <= r <= len,
{
    if start < len {
        let c = text.get_char(start);
        if c == '+' || c == '-' {
            return start + 1;
        }
    }
    start
}

/// Tells whether `text` writes a finite decimal number.
pub fn is_decimal_numeral(text: &str) -> (r: bool)
    ensures
        r == is_numeral(text@),
{
    let len = text.unicode_len();
    let whole = sign_end(text, len, 0);
    let point = digits_end(text, len, whole);
    let mut mantissa_end = point;
    let mut digits = point - whole;
    if point < len && text.get_char(point) == '.' {
        mantissa_end = digits_end(text, len, point + 1);
        digits = digits + (mantissa_end - point - 1);
    }
    if digits == 0 {
        return false;
    }
    if mantissa_end < len {
        let c = text.get_char(mantissa_end);
        if c == 'e' || c == 'E' {
            let exponent = sign_end(text, len, mantissa_end + 1);
            let end = digits_end(text, len, exponent);
            return end > exponent && end == len;
        }
    }
    mantissa_end == len
}

} // verus!
