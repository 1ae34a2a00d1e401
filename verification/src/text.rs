//! Texts: comparing them, and reading and writing numbers in decimal.
use vstd::prelude::*;

verus! {

/// `str`'s `eq` of the standard library: two string slices are equal exactly
/// when they hold the same characters in the same order.
pub assume_specification[ <str as PartialEq>::eq ](a: &str, b: &str) -> (same: bool)
    ensures
        same == (a@ == b@),
;

/// The characters of an optional string.
pub open spec fn opt_text(text: Option<String>) -> Option<Seq<char>> {
    match text {
        Some(t) => Some(t@),
        None => None,
    }
}

/// The characters of each string of a list.
pub open spec fn texts(list: Seq<String>) -> Seq<Seq<char>> {
    list.map_values(|t: String| t@)
}

/// Whether `text` is present and holds exactly the characters of `wanted`.
pub fn holds(text: &Option<String>, wanted: &str) -> (r: bool)
    ensures
        r == (opt_text(*text) == Some(wanted@)),
{
    match text {
        Some(t) => *t.as_str() == *wanted,
        None => false,
    }
}


/// The character that writes the digit `d`.
pub open spec fn digit_char(d: int) -> char {
    if d == 0 {
        '0'
    } else if d == 1 {
        '1'
    } else if d == 2 {
        '2'
    } else if d == 3 {
        '3'
    } else if d == 4 {
        '4'
    } else if d == 5 {
        '5'
    } else if d == 6 {
        '6'
    } else if d == 7 {
        '7'
    } else if d == 8 {
        '8'
    } else {
        '9'
    }
}

/// The digit that `c` writes, if it writes one.
pub open spec fn digit_value(c: char) -> Option<int> {
    if c == '0' {
        Some(0)
    } else if c == '1' {
        Some(1)
    } else if c == '2' {
        Some(2)
    } else if c == '3' {
        Some(3)
    } else if c == '4' {
        Some(4)
    } else if c == '5' {
        Some(5)
    } else if c == '6' {
        Some(6)
    } else if c == '7' {
        Some(7)
    } else if c == '8' {
        Some(8)
    } else if c == '9' {
        Some(9)
    } else {
        None
    }
}

/// The decimal digits of `n`, without leading zeros.
pub open spec fn decimal_digits(n: nat) -> Seq<char>
    decreases n,
{
    if n < 10 {
        seq![digit_char(n as int)]
    } else {
        decimal_digits(n / 10).push(digit_char((n % 10) as int))
    }
}

/// `n` as it is written in decimal, with `-` before a negative number.
pub open spec fn decimal_text(n: int) -> Seq<char> {
    if n < 0 {
        seq!['-'] + decimal_digits((-n) as nat)
    } else {
        decimal_digits(n as nat)
    }
}

/// Whether every character of `text` writes a digit.
pub open spec fn all_digits(text: Seq<char>) -> bool {
    forall|i: int| 0 <= i < text.len() ==> digit_value(#[trigger] text[i]) is Some
}

/// The number that the digits of `text` write in decimal.
pub open spec fn digits_number(text: Seq<char>) -> int
    decreases text.len(),
{
    if text.len() == 0 {
        0
    } else {
        digits_number(text.drop_last()) * 10 + match digit_value(text.last()) {
            Some(d) => d,
            None => 0,
        }
    }
}

/// What is left of `text` without a sign at its front.
pub open spec fn unsigned_part(text: Seq<char>) -> Seq<char> {
    if text.len() > 0 && (text[0] == '-' || text[0] == '+') {
        text.drop_first()
    } else {
        text
    }
}

/// The integer that `text` writes: an optional `+` or `-`, then one digit
/// or more, and nothing else.
pub open spec fn written_integer(text: Seq<char>) -> Option<int> {
    let digits = unsigned_part(text);
    if digits.len() == 0 || !all_digits(digits) {
        None
    } else if text[0] == '-' {
        Some(-digits_number(digits))
    } else {
        Some(digits_number(digits))
    }
}

/// The integer that `text` writes, where it fits the machine's word.
pub open spec fn written_isize(text: Seq<char>) -> Option<isize> {
    match written_integer(text) {
        Some(n) => if isize::MIN <= n <= isize::MAX {
            Some(n as isize)
        } else {
            None
        },
        None => None,
    }
}

/// The text of one digit.
fn digit_text(d: u64) -> (text: &'static str)
    requires
        d < 10,
    ensures
        text@ == seq![digit_char(d as int)],
{
    proof {
        reveal_strlit("0");
        reveal_strlit("1");
        reveal_strlit("2");
        reveal_strlit("3");
        reveal_strlit("4");
        reveal_strlit("5");
        reveal_strlit("6");
        reveal_strlit("7");
        reveal_strlit("8");
        reveal_strlit("9");
    }
    let text = if d == 0 {
        "0"
    } else if d == 1 {
        "1"
    } else if d == 2 {
        "2"
    } else if d == 3 {
        "3"
    } else if d == 4 {
        "4"
    } else if d == 5 {
        "5"
    } else if d == 6 {
        "6"
    } else if d == 7 {
        "7"
    } else if d == 8 {
        "8"
    } else {
        "9"
    };
    assert(text@ =~= seq![digit_char(d as int)]);
    text
}

/// `n` in decimal.
pub fn decimal_u64(n: u64) -> (text: String)
    ensures
        text@ == decimal_digits(n as nat),
{
    let mut text = String::from_str(digit_text(n % 10));
    let mut rest: u64 = n / 10;
    let ghost mut low: Seq<char> = seq![digit_char((n % 10) as int)];
    assert(text@ =~= low);
    while rest > 0
        invariant
            text@ == low,
            low.len() > 0,
            decimal_digits(n as nat) == if rest == 0 {
                low
            } else {
                decimal_digits(rest as nat) + low
            },
        decreases rest,
    {
        let digit = digit_text(rest % 10);
        let ghost old_rest = rest;
        let ghost old_low = low;
        text = String::from_str(digit).concat(text.as_str());
        proof {
            low = seq![digit_char((rest % 10) as int)] + low;
            assert(text@ =~= low);
            if old_rest >= 10 {
                assert(decimal_digits(old_rest as nat) + old_low =~= decimal_digits(
                    (old_rest / 10) as nat,
                ) + low);
            } else {
                assert(decimal_digits(old_rest as nat) + old_low =~= low);
            }
        }
        rest = rest / 10;
    }
    text
}

/// `n` in decimal.
pub fn decimal_usize(n: usize) -> (text: String)
    ensures
        text@ == decimal_text(n as int),
{
    decimal_u64(n as u64)
}

/// `n` in decimal, with `-` before a negative number.
pub fn decimal_i64(n: i64) -> (text: String)
    ensures
        text@ == decimal_text(n as int),
{
    if n < 0 {
        let magnitude: u64 = ((-(n as i128)) as u64);
        let digits = decimal_u64(magnitude);
        proof {
            reveal_strlit("-");
        }
        let text = String::from_str("-").concat(digits.as_str());
        assert(text@ =~= seq!['-'] + decimal_digits((-n) as nat));
        text
    } else {
        decimal_u64(n as u64)
    }
}

/// `n` in decimal, with `-` before a negative number.
pub fn decimal_isize(n: isize) -> (text: String)
    ensures
        text@ == decimal_text(n as int),
{
    decimal_i64(n as i64)
}

/// The digit that `c` writes, if it writes one.
fn digit_of(c: char) -> (d: Option<u8>)
    ensures
        d is Some == digit_value(c) is Some,
        d matches Some(v) ==> digit_value(c) == Some(v as int),
{
    if c == '0' {
        Some(0)
    } else if c == '1' {
        Some(1)
    } else if c == '2' {
        Some(2)
    } else if c == '3' {
        Some(3)
    } else if c == '4' {
        Some(4)
    } else if c == '5' {
        Some(5)
    } else if c == '6' {
        Some(6)
    } else if c == '7' {
        Some(7)
    } else if c == '8' {
        Some(8)
    } else if c == '9' {
        Some(9)
    } else {
        None
    }
}

/// A longer run of digits writes no smaller number.
proof fn lemma_digits_grow(text: Seq<char>, n: int)
    requires
        0 <= n <= text.len(),
    ensures
        0 <= digits_number(text.take(n)) <= digits_number(text),
    decreases text.len() - n,
{
    lemma_digits_not_negative(text.take(n));
    if n < text.len() {
        lemma_digits_grow(text, n + 1);
        assert(text.take(n + 1).drop_last() =~= text.take(n));
    } else {
        assert(text.take(n) =~= text);
    }
}

/// Digits write no negative number.
proof fn lemma_digits_not_negative(text: Seq<char>)
    ensures
        0 <= digits_number(text),
    decreases text.len(),
{
    if text.len() > 0 {
        lemma_digits_not_negative(text.drop_last());
    }
}

/// Reads `text` as an integer of the machine's word, as `str::parse` does:
/// an optional `+` or `-`, then one decimal digit or more, and nothing
/// else; `None` where `text` is not of that form or the number does not
/// fit.
pub fn parse_isize(text: &str) -> (parsed: Option<isize>)
    ensures
        parsed == written_isize(text@),
{
    let len: usize = text.unicode_len();
    if len == 0 {
        return None;
    }
    let sign = text.get_char(0);
    let negative = sign == '-';
    let start: usize = if sign == '-' || sign == '+' {
        1
    } else {
        0
    };
    let ghost digits = unsigned_part(text@);
    assert(digits =~= text@.skip(start as int));
    if start == len {
        return None;
    }
    let mut value: u128 = 0;
    let mut i: usize = start;
    while i < len
        invariant
            start <= i <= len,
            len == text@.len(),
            digits == text@.skip(start as int),
            digits == unsigned_part(text@),
            all_digits(digits.take(i - start)),
            value == digits_number(digits.take(i - start)),
            value <= 0x8000_0000_0000_0000u128,
        decreases len - i,
    {
        let c = text.get_char(i);
        assert(digits[i - start] == c);
        match digit_of(c) {
            Some(d) => {
                let ghost before = digits.take(i - start);
                let ghost now = digits.take(i - start + 1);
                proof {
                    assert(now.drop_last() =~= before);
                    assert(now.last() == c);
                    assert forall|j: int| 0 <= j < now.len() implies digit_value(
                        #[trigger] now[j],
                    ) is Some by {
                        if j < before.len() {
                            assert(now[j] == before[j]);
                        }
                    }
                }
                let grown: u128 = value * 10 + (d as u128);
                if grown > 0x8000_0000_0000_0000u128 {
                    proof {
                        lemma_digits_grow(digits, i - start + 1);
                        if all_digits(digits) {
                            assert(digits_number(digits) > isize::MAX + 1);
                        }
                    }
                    return None;
                }
                value = grown;
            },
            None => {
                assert(!all_digits(digits));
                return None;
            },
        }
        i += 1;
    }
    assert(digits.take(len - start) =~= digits);
    let signed: i128 = if negative {
        -(value as i128)
    } else {
        value as i128
    };
    if signed < isize::MIN as i128 || signed > isize::MAX as i128 {
        None
    } else {
        Some(signed as isize)
    }
}

} // verus!
