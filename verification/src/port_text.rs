//! Reading a port number from the text of an input field.

use vstd::prelude::*;
use vstd::string::*;
use crate::decimal::decimal;

verus! {

/// Whether `c` is one of the ten ASCII digits.
pub open spec fn is_digit(c: char) -> bool {
    '0' <= c <= '9'
}

/// The number that the digit `c` stands for.
pub open spec fn digit_value(c: char) -> int {
    c as int - '0' as int
}

/// Whether every character of `s` is a digit.
pub open spec fn all_digits(s: Seq<char>) -> bool {
    forall|i: int| 0 <= i < s.len() ==> is_digit(#[trigger] s[i])
}

/// The number that a sequence of digits writes in base ten.
pub open spec fn digits_value(s: Seq<char>) -> int
    decreases s.len(),
{
    if s.len() == 0 {
        0
    } else {
        digits_value(s.drop_last()) * 10 + digit_value(s.last())
    }
}

/// The text without one leading plus sign, if it has one.
pub open spec fn unsigned_part(s: Seq<char>) -> Seq<char> {
    if s.len() > 0 && s[0] == '+' {
        s.subrange(1, s.len() as int)
    } else {
        s
    }
}

/// The port that a text denotes: an optional plus sign, then one or more
/// digits whose value lies between 1 and 65535. Leading zeros are allowed;
/// blanks, a minus sign and an empty numeral are not.
pub open spec fn port_of_text(s: Seq<char>) -> Option<u16> {
    let digits = unsigned_part(s);
    if digits.len() > 0 && all_digits(digits) && 1 <= digits_value(digits) <= 65535 {
        Some(digits_value(digits) as u16)
    } else {
        None
    }
}

/// The port that a text denotes, or `fallback` where it denotes none.
pub open spec fn port_or(s: Seq<char>, fallback: u16) -> u16 {
    match port_of_text(s) {
        Some(port) => port,
        None => fallback,
    }
}

/// A sequence of digits writes at least as much as any of its prefixes.
pub proof fn lemma_digits_value_prefix(s: Seq<char>, k: int)
    requires
        all_digits(s),
        0 <= k <= s.len(),
    ensures
        0 <= digits_value(s.take(k)) <= digits_value(s),
    decreases s.len(),
{
    if k == s.len() {
        assert(s.take(k) =~= s);
        if s.len() > 0 {
            lemma_digits_value_prefix(s.drop_last(), k - 1);
        }
    } else {
        lemma_digits_value_prefix(s.drop_last(), k);
        assert(s.drop_last().take(k) =~= s.take(k));
    }
}

/// The decimal numeral of a number is made of digits and writes that number.
pub proof fn lemma_decimal_writes(n: nat)
    ensures
        decimal(n).len() > 0,
        all_digits(decimal(n)),
        digits_value(decimal(n)) == n,
    decreases n,
{
    if n < 10 {
        assert(digits_value(decimal(n).drop_last()) == 0);
    } else {
        lemma_decimal_writes(n / 10);
        assert(decimal(n).drop_last() =~= decimal(n / 10));
    }
}

/// A port that is written in decimal and read again is the same port.
pub proof fn lemma_port_read_back(port: u16)
    requires
        port >= 1,
    ensures
        port_of_text(decimal(port as nat)) == Some(port),
{
    lemma_decimal_writes(port as nat);
}

/// A text with a character outside ASCII denotes no port.
proof fn lemma_not_ascii_no_port(s: Seq<char>)
    requires
        !vstd::utf8::is_ascii_chars(s),
    ensures
        port_of_text(s) is None,
{
    let i = choose|i: int| 0 <= i < s.len() && !('\0' <= #[trigger] s[i] <= '\u{7f}');
    let digits = unsigned_part(s);
    if digits.len() != s.len() {
        assert(digits[i - 1] == s[i]);
    }
}

/// Reads a port number from `text`.
///
/// The numeral is an optional `+` followed by decimal digits. A text that is
/// empty, holds anything else, or writes a number outside 1..=65535 yields
/// `None`.
pub fn parse_port(text: &str) -> (port: Option<u16>)
    ensures
        port == port_of_text(text@),
{
    if !text.is_ascii() {
        proof {
            lemma_not_ascii_no_port(text@);
        }
        return None;
    }
    let bytes = text.as_bytes();
    let n = bytes.len();
    proof {
        is_ascii_spec_bytes(text);
    }
    let first: usize = if n > 0 && bytes[0] == 43 {
        1
    } else {
        0
    };
    let ghost digits = unsigned_part(text@);
    if first == n {
        return None;
    }
    let mut value: u32 = 0;
    let mut i: usize = first;
    while i < n
        invariant
            first <= i <= n,
            n == text@.len(),
            n == bytes@.len(),
            digits == text@.subrange(first as int, n as int),
            digits == unsigned_part(text@),
            vstd::utf8::is_ascii_chars(text@),
            forall|j: int| 0 <= j < n ==> bytes@[j] == (#[trigger] text@[j]) as u8,
            all_digits(digits.take(i - first)),
            value == digits_value(digits.take(i - first)),
            value <= 65535,
        decreases n - i,
    {
        let b: u8 = bytes[i];
        let ghost more = digits.take(i + 1 - first);
        assert(digits[i - first] == text@[i as int]);
        if b < 48 || b > 57 {
            return None;
        }
        assert(more.drop_last() =~= digits.take(i - first));
        assert(all_digits(more));
        value = value * 10 + (b - 48) as u32;
        if value > 65535 {
            proof {
                if all_digits(digits) {
                    lemma_digits_value_prefix(digits, i + 1 - first);
                }
            }
            return None;
        }
        i += 1;
    }
    assert(digits.take(i - first) =~= digits);
    if value == 0 {
        None
    } else {
        Some(value as u16)
    }
}

/// Reads a port number from `text`, with `fallback` for a text that denotes none.
pub fn parse_port_or(text: &str, fallback: u16) -> (port: u16)
    ensures
        port == port_or(text@, fallback),
{
    match parse_port(text) {
        Some(port) => port,
        None => fallback,
    }
}

} // verus!
