//! Small verified helpers on text: comparing it, writing a number in decimal
//! and reading a signed decimal number.

use vstd::prelude::*;
use vstd::string::*;

verus! {

/// Whether two pieces of text hold the same characters.
pub fn text_eq(a: &str, b: &str) -> (same: bool)
    ensures
        same == (a@ == b@),
{
    let x: String = a.to_owned();
    let y: String = b.to_owned();
    x == y
}

/// Whether `text` begins with `prefix`.
pub open spec fn has_prefix(text: Seq<char>, prefix: Seq<char>) -> bool {
    prefix.len() <= text.len() && text.subrange(0, prefix.len() as int) == prefix
}

/// Whether `text` begins with `prefix`, character by character.
pub fn starts_with(text: &str, prefix: &str) -> (begins: bool)
    ensures
        begins == has_prefix(text@, prefix@),
{
    let length: usize = prefix.unicode_len();
    if text.unicode_len() < length {
        return false;
    }
    let mut i: usize = 0;
    while i < length
        invariant
            i <= length,
            length == prefix@.len(),
            length <= text@.len(),
            text@.subrange(0, i as int) == prefix@.subrange(0, i as int),
        decreases length - i,
    {
        if text.get_char(i) != prefix.get_char(i) {
            assert(text@.subrange(0, length as int)[i as int] != prefix@[i as int]);
            return false;
        }
        assert(text@.subrange(0, i + 1) =~= text@.subrange(0, i as int).push(text@[i as int]));
        assert(prefix@.subrange(0, i + 1) =~= prefix@.subrange(0, i as int).push(
            prefix@[i as int],
        ));
        i += 1;
    }
    assert(prefix@.subrange(0, length as int) =~= prefix@);
    true
}

/// What is left of `text` without its first `count` characters: nothing, if
/// it has no more than that.
pub open spec fn rest_after(text: Seq<char>, count: nat) -> Seq<char> {
    if count <= text.len() {
        text.skip(count as int)
    } else {
        Seq::empty()
    }
}

/// Computes [`rest_after`].
pub fn without_first(text: &str, count: usize) -> (rest: String)
    ensures
        rest@ == rest_after(text@, count as nat),
{
    let length: usize = text.unicode_len();
    if count > length {
        return String::new();
    }
    let rest = text.substring_char(count, length).to_owned();
    assert(rest@ =~= text@.skip(count as int));
    rest
}

/// The character that writes the digit `d`.
pub open spec fn digit_char(d: int) -> char {
    if d == 0 {
        '0'
    } else if d == 1 {
        '1'
    } else if d == 2 {
        '2'
    } else if d == 3 {
        '3'
    } else if d == 4 {
        '4'
    } else if d == 5 {
        '5'
    } else if d == 6 {
        '6'
    } else if d == 7 {
        '7'
    } else if d == 8 {
        '8'
    } else {
        '9'
    }
}

/// The decimal numeral of `n`: no sign, no leading zero but for zero itself.
pub open spec fn decimal(n: nat) -> Seq<char>
    decreases n,
{
    if n < 10 {
        seq![digit_char(n as int)]
    } else {
        decimal(n / 10).push(digit_char((n % 10) as int))
    }
}

/// The one-character text of a digit.
fn digit_text(d: u32) -> (text: &'static str)
    requires
        d < 10,
    ensures
        text@ == seq![digit_char(d as int)],
{
    proof {
        reveal_strlit("0");
        reveal_strlit("1");
        reveal_strlit("2");
        reveal_strlit("3");
        reveal_strlit("4");
        reveal_strlit("5");
        reveal_strlit("6");
        reveal_strlit("7");
        reveal_strlit("8");
        reveal_strlit("9");
    }
    let text = if d == 0 {
        "0"
    } else if d == 1 {
        "1"
    } else if d == 2 {
        "2"
    } else if d == 3 {
        "3"
    } else if d == 4 {
        "4"
    } else if d == 5 {
        "5"
    } else if d == 6 {
        "6"
    } else if d == 7 {
        "7"
    } else if d == 8 {
        "8"
    } else {
        "9"
    };
    assert(text@ =~= seq![digit_char(d as int)]);
    text
}

/// Writes `n` in decimal.
pub fn decimal_string(n: u32) -> (text: String)
    ensures
        text@ == decimal(n as nat),
    decreases n,
{
    if n < 10 {
        digit_text(n).to_owned()
    } else {
        let mut text = decimal_string(n / 10);
        text.append(digit_text(n % 10));
        assert(text@ =~= decimal((n / 10) as nat).push(digit_char((n % 10) as int)));
        text
    }
}

/// The decimal numeral of the integer `n`: that of `n` where it is not
/// negative, else a minus sign and that of `-n`.
pub open spec fn signed_decimal(n: int) -> Seq<char> {
    if n >= 0 {
        decimal(n as nat)
    } else {
        seq!['-'] + decimal((-n) as nat)
    }
}

/// Writes `n` in decimal, with a minus sign before a negative number.
pub fn signed_decimal_string(n: i32) -> (text: String)
    ensures
        text@ == signed_decimal(n as int),
{
    if n >= 0 {
        decimal_string(n as u32)
    } else {
        proof {
            reveal_strlit("-");
        }
        let mut text = "-".to_owned();
        let magnitude: u32 = (-(n as i64)) as u32;
        let digits = decimal_string(magnitude);
        text.append(digits.as_str());
        assert(text@ =~= seq!['-'] + decimal((-n) as nat));
        text
    }
}

/// Whether `c` is one of the ten ASCII digits.
pub open spec fn is_digit(c: char) -> bool {
    '0' <= c && c <= '9'
}

/// The number that the digit `c` writes.
pub open spec fn digit_value(c: char) -> int {
    c as int - '0' as int
}

/// The number that a run of digits writes, the first digit weighing most.
pub open spec fn digits_value(s: Seq<char>) -> int
    decreases s.len(),
{
    if s.len() == 0 {
        0
    } else {
        10 * digits_value(s.drop_last()) + digit_value(s.last())
    }
}

/// Whether `s` is one digit or more and nothing else.
pub open spec fn is_numeral(s: Seq<char>) -> bool {
    s.len() > 0 && forall|i: int| 0 <= i < s.len() ==> is_digit(#[trigger] s[i])
}

/// The integer that `s` writes: a numeral, with `+` or `-` before it or with
/// no sign. Anything else, an empty text or a sign alone writes none.
pub open spec fn signed_value(s: Seq<char>) -> Option<int> {
    if s.len() > 0 && s[0] == '-' {
        if is_numeral(s.skip(1)) {
            Some(-digits_value(s.skip(1)))
        } else {
            None
        }
    } else if s.len() > 0 && s[0] == '+' {
        if is_numeral(s.skip(1)) {
            Some(digits_value(s.skip(1)))
        } else {
            None
        }
    } else if is_numeral(s) {
        Some(digits_value(s))
    } else {
        None
    }
}

/// The 64-bit signed integer that `s` writes, if it writes one that fits.
pub open spec fn parsed_i64(s: Seq<char>) -> Option<i64> {
    match signed_value(s) {
        Some(v) => if i64::MIN <= v <= i64::MAX {
            Some(v as i64)
        } else {
            None
        },
        None => None,
    }
}

/// Reads the magnitude that the characters of `text` from `start` on write.
/// `None` where they are no numeral or write more than 2^63.
fn parse_magnitude(text: &str, start: usize) -> (magnitude: Option<u64>)
    requires
        start <= text@.len(),
    ensures
        match magnitude {
            Some(m) => is_numeral(text@.skip(start as int)) && m == digits_value(
                text@.skip(start as int),
            ) && m <= 0x8000_0000_0000_0000,
            None => !is_numeral(text@.skip(start as int)) || digits_value(
                text@.skip(start as int),
            ) > 0x8000_0000_0000_0000,
        },
{
    let len: usize = text.unicode_len();
    let ghost digits = text@.skip(start as int);
    if start >= len {
        return None;
    }
    let mut value: u64 = 0;
    let mut too_large: bool = false;
    let mut i: usize = start;
    while i < len
        invariant
            start <= i <= len,
            len == text@.len(),
            digits == text@.skip(start as int),
            forall|j: int| 0 <= j < i - start ==> is_digit(#[trigger] digits[j]),
            !too_large ==> value == digits_value(digits.subrange(0, i - start)),
            value <= 0x8000_0000_0000_0000,
            too_large ==> digits_value(digits.subrange(0, i - start)) > 0x8000_0000_0000_0000,
        decreases len - i,
    {
        let c: char = text.get_char(i);
        assert(digits[i - start] == c);
        if !('0' <= c && c <= '9') {
            assert(!is_digit(digits[i - start]));
            return None;
        }
        let d: u64 = (c as u32 - '0' as u32) as u64;
        proof {
            let shorter = digits.subrange(0, i - start);
            let longer = digits.subrange(0, i - start + 1);
            assert(longer.drop_last() =~= shorter);
            assert(longer.last() == c);
            assert(digits_value(longer) == 10 * digits_value(shorter) + d);
        }
        if !too_large {
            if value > 0x0CCC_CCCC_CCCC_CCCC || value * 10 + d > 0x8000_0000_0000_0000 {
                too_large = true;
            } else {
                value = value * 10 + d;
            }
        }
        i += 1;
    }
    proof {
        assert(digits.subrange(0, i - start) =~= digits);
    }
    if too_large {
        None
    } else {
        Some(value)
    }
}

/// Reads a 64-bit signed integer written in decimal, with `+`, `-` or no
/// sign before its digits. `None` for any other text and for a number that
/// does not fit.
pub fn parse_i64(text: &str) -> (number: Option<i64>)
    ensures
        number == parsed_i64(text@),
{
    let len: usize = text.unicode_len();
    if len == 0 {
        return None;
    }
    let first: char = text.get_char(0);
    if first == '-' {
        match parse_magnitude(text, 1) {
            Some(m) => if m == 0x8000_0000_0000_0000 {
                Some(i64::MIN)
            } else {
                Some(-(m as i64))
            },
            None => None,
        }
    } else if first == '+' {
        match parse_magnitude(text, 1) {
            Some(m) => if m > 0x7FFF_FFFF_FFFF_FFFF {
                None
            } else {
                Some(m as i64)
            },
            None => None,
        }
    } else {
        assert(text@.skip(0) =~= text@);
        match parse_magnitude(text, 0) {
            Some(m) => if m > 0x7FFF_FFFF_FFFF_FFFF {
                None
            } else {
                Some(m as i64)
            },
            None => None,
        }
    }
}

/// The decimal numeral of a number is a numeral and writes that number.
proof fn lemma_decimal_reads_back(n: nat)
    ensures
        is_numeral(decimal(n)),
        digits_value(decimal(n)) == n,
    decreases n,
{
    if n < 10 {
        let numeral = seq![digit_char(n as int)];
        assert(decimal(n) =~= numeral);
        assert(numeral.drop_last() =~= Seq::<char>::empty());
        assert(digits_value(numeral.drop_last()) == 0);
        assert(numeral.last() == digit_char(n as int));
    } else {
        lemma_decimal_reads_back(n / 10);
        let front = decimal(n / 10);
        let numeral = front.push(digit_char((n % 10) as int));
        assert(numeral.drop_last() =~= front);
        assert(numeral.last() == digit_char((n % 10) as int));
        assert forall|i: int| 0 <= i < numeral.len() implies is_digit(#[trigger] numeral[i]) by {
            if i < front.len() {
                assert(numeral[i] == front[i]);
            }
        }
    }
}

/// Reading the decimal numeral of an integer gives the integer back.
pub proof fn law_signed_decimal_reads_back(n: int)
    ensures
        signed_value(signed_decimal(n)) == Some(n),
{
    if n >= 0 {
        lemma_decimal_reads_back(n as nat);
        assert(is_digit(decimal(n as nat)[0]));
    } else {
        lemma_decimal_reads_back((-n) as nat);
        assert(signed_decimal(n).skip(1) =~= decimal((-n) as nat));
    }
}

/// Two different integers have different decimal numerals: no two ids share
/// a subject.
pub proof fn law_distinct_numbers_distinct_numerals(a: int, b: int)
    requires
        a != b,
    ensures
        signed_decimal(a) != signed_decimal(b),
{
    law_signed_decimal_reads_back(a);
    law_signed_decimal_reads_back(b);
}

} // verus!
