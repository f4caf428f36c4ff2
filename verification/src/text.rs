//! Decimal text of unsigned numbers, as it goes into requests and log lines.

use vstd::prelude::*;
use vstd::string::*;

verus! {

/// The character of one decimal digit.
pub open spec fn digit_char(d: nat) -> char
    recommends
        d < 10,
{
    if d == 0 {
        '0'
    } else if d == 1 {
        '1'
    } else if d == 2 {
        '2'
    } else if d == 3 {
        '3'
    } else if d == 4 {
        '4'
    } else if d == 5 {
        '5'
    } else if d == 6 {
        '6'
    } else if d == 7 {
        '7'
    } else if d == 8 {
        '8'
    } else {
        '9'
    }
}

/// The decimal digits of `n`, most significant first, with no leading zero
/// (zero itself is the one digit `0`).
pub open spec fn decimal(n: nat) -> Seq<char>
    decreases n,
{
    if n < 10 {
        seq![digit_char(n)]
    } else {
        decimal(n / 10).push(digit_char(n % 10))
    }
}

fn digit_text(d: u64) -> (text: &'static str)
    requires
        d < 10,
    ensures
        text@ == seq![digit_char(d as nat)],
{
    proof {
        reveal_strlit("0");
        reveal_strlit("1");
        reveal_strlit("2");
        reveal_strlit("3");
        reveal_strlit("4");
        reveal_strlit("5");
        reveal_strlit("6");
        reveal_strlit("7");
        reveal_strlit("8");
        reveal_strlit("9");
    }
    let text = if d == 0 {
        "0"
    } else if d == 1 {
        "1"
    } else if d == 2 {
        "2"
    } else if d == 3 {
        "3"
    } else if d == 4 {
        "4"
    } else if d == 5 {
        "5"
    } else if d == 6 {
        "6"
    } else if d == 7 {
        "7"
    } else if d == 8 {
        "8"
    } else {
        "9"
    };
    assert(text@ =~= seq![digit_char(d as nat)]);
    text
}

/// Writes `n` in decimal.
pub fn decimal_text(n: u64) -> (text: String)
    ensures
        text@ == decimal(n as nat),
    decreases n,
{
    if n < 10 {
        String::from_str(digit_text(n))
    } else {
        let mut text = decimal_text(n / 10);
        text.append(digit_text(n % 10));
        assert(text@ =~= decimal(n as nat));
        text
    }
}

/// The value of a decimal digit, and nothing for any other character.
pub open spec fn digit_value(c: char) -> Option<nat> {
    if c == '0' {
        Some(0)
    } else if c == '1' {
        Some(1)
    } else if c == '2' {
        Some(2)
    } else if c == '3' {
        Some(3)
    } else if c == '4' {
        Some(4)
    } else if c == '5' {
        Some(5)
    } else if c == '6' {
        Some(6)
    } else if c == '7' {
        Some(7)
    } else if c == '8' {
        Some(8)
    } else if c == '9' {
        Some(9)
    } else {
        None
    }
}

/// The number that `text` writes, where it is one or more decimal digits
/// and nothing else. Leading zeros count for nothing.
pub open spec fn numeral_value(text: Seq<char>) -> Option<nat>
    decreases text.len(),
{
    if text.len() == 0 {
        None
    } else if text.len() == 1 {
        digit_value(text[0])
    } else {
        match (numeral_value(text.drop_last()), digit_value(text.last())) {
            (Some(high), Some(low)) => Some(high * 10 + low),
            _ => None,
        }
    }
}

/// The digits of a number as it is entered: the text without the plus sign
/// that may lead it.
pub open spec fn unsigned_part(text: Seq<char>) -> Seq<char> {
    if text.len() > 0 && text[0] == '+' {
        text.skip(1)
    } else {
        text
    }
}

/// The number that `text` writes, with or without a leading plus sign,
/// where it fits the width of a page number.
pub open spec fn page_number(text: Seq<char>) -> Option<u32> {
    match numeral_value(unsigned_part(text)) {
        Some(value) => if value <= u32::MAX {
            Some(value as u32)
        } else {
            None
        },
        None => None,
    }
}

/// A numeral is worth at least as much as any of its beginnings, and each
/// beginning of a numeral is a numeral.
pub proof fn lemma_numeral_grows(text: Seq<char>, k: int)
    requires
        1 <= k <= text.len(),
        numeral_value(text) is Some,
    ensures
        numeral_value(text.take(k)) is Some,
        numeral_value(text.take(k))->0 <= numeral_value(text)->0,
    decreases text.len(),
{
    if k == text.len() {
        assert(text.take(k) == text);
    } else {
        lemma_numeral_grows(text.drop_last(), k);
        assert(text.drop_last().take(k) == text.take(k));
    }
}

fn digit_of(c: char) -> (value: Option<u64>)
    ensures
        match value {
            Some(d) => d < 10 && digit_value(c) == Some(d as nat),
            None => digit_value(c) is None,
        },
{
    if c == '0' {
        Some(0)
    } else if c == '1' {
        Some(1)
    } else if c == '2' {
        Some(2)
    } else if c == '3' {
        Some(3)
    } else if c == '4' {
        Some(4)
    } else if c == '5' {
        Some(5)
    } else if c == '6' {
        Some(6)
    } else if c == '7' {
        Some(7)
    } else if c == '8' {
        Some(8)
    } else if c == '9' {
        Some(9)
    } else {
        None
    }
}

/// Reads a page number: one or more decimal digits, with or without a plus
/// sign before them, and nothing else, worth no more than a page number can
/// hold. Anything else is no number.
pub fn parse_decimal(text: &str) -> (value: Option<u32>)
    ensures
        value == page_number(text@),
{
    let len: usize = text.unicode_len();
    let start: usize = if len > 0 && text.get_char(0) == '+' {
        1
    } else {
        0
    };
    let ghost digits = unsigned_part(text@);
    if len == start {
        return None;
    }
    let mut value: u64 = 0;
    let mut i: usize = start;
    while i < len
        invariant
            len == text@.len(),
            start <= i <= len,
            digits == unsigned_part(text@),
            digits.len() == len - start,
            forall|k: int| 0 <= k < digits.len() ==> digits[k] == text@[k + start],
            value <= u32::MAX,
            i > start ==> numeral_value(digits.take(i - start)) == Some(value as nat),
            i == start ==> value == 0,
        decreases len - i,
    {
        let ghost head = digits.take(i - start);
        let ghost longer = digits.take(i - start + 1);
        proof {
            assert(longer.drop_last() == head);
            assert(longer.last() == text@[i as int]);
        }
        match digit_of(text.get_char(i)) {
            Some(d) => {
                let next: u64 = value * 10 + d;
                assert(numeral_value(longer) == Some(next as nat));
                if next > 0xFFFF_FFFF {
                    proof {
                        if numeral_value(digits) is Some {
                            lemma_numeral_grows(digits, i - start + 1);
                        }
                    }
                    return None;
                }
                value = next;
            },
            None => {
                proof {
                    if numeral_value(digits) is Some {
                        lemma_numeral_grows(digits, i - start + 1);
                    }
                }
                return None;
            },
        }
        i = i + 1;
    }
    assert(digits.take(len - start) == digits);
    Some(value as u32)
}

} // verus!
