//! Numbers and bytes as text.

use vstd::prelude::*;

verus! {

/// `String::push`: appends one character.
pub assume_specification[ String::push ](s: &mut String, c: char)
    ensures
        final(s)@ == old(s)@.push(c),
;

/// The lower-case hexadecimal digit for a number below 16.
pub open spec fn hex_char(n: int) -> char {
    if n < 10 {
        (48 + n) as char
    } else {
        (87 + n) as char
    }
}

/// The `i`-th half of a byte of `bytes`, the upper half of each byte first.
pub open spec fn nibble(bytes: Seq<u8>, i: int) -> int {
    if i % 2 == 0 {
        bytes[i / 2] as int / 16
    } else {
        bytes[i / 2] as int % 16
    }
}

/// `bytes` in lower-case hexadecimal digits.
pub open spec fn hex_digits(bytes: Seq<u8>) -> Seq<char> {
    Seq::new(2 * bytes.len(), |i: int| hex_char(nibble(bytes, i)))
}

/// `bytes` as `0x` and lower-case hexadecimal digits.
pub open spec fn hex_text(bytes: Seq<u8>) -> Seq<char> {
    seq!['0', 'x'] + hex_digits(bytes)
}

fn hex_digit(n: u8) -> (c: char)
    requires
        n < 16,
    ensures
        c == hex_char(n as int),
{
    if n < 10 {
        (48 + n) as char
    } else {
        (87 + n) as char
    }
}

/// `bytes` as `0x` and lower-case hexadecimal digits.
pub fn to_hex(bytes: &[u8]) -> (text: String)
    ensures
        text@ == hex_text(bytes@),
{
    let mut text = String::new();
    text.push('0');
    text.push('x');
    let mut i: usize = 0;
    assert(text@ =~= hex_text(bytes@).take(2));
    while i < bytes.len()
        invariant
            i <= bytes@.len(),
            text@ == hex_text(bytes@).take(2 + 2 * i),
        decreases bytes.len() - i,
    {
        let byte: u8 = bytes[i];
        text.push(hex_digit(byte / 16));
        text.push(hex_digit(byte % 16));
        proof {
            let digits = hex_digits(bytes@);
            assert(digits[2 * i as int] == hex_char(nibble(bytes@, 2 * i as int)));
            assert(digits[2 * i as int + 1] == hex_char(nibble(bytes@, 2 * i as int + 1)));
            assert(text@ =~= hex_text(bytes@).take(2 + 2 * (i + 1)));
        }
        i += 1;
    }
    assert(hex_text(bytes@).take(2 + 2 * bytes@.len() as int) =~= hex_text(bytes@));
    text
}

proof fn hex_char_is_injective(a: int, b: int)
    requires
        0 <= a < 16,
        0 <= b < 16,
        hex_char(a) == hex_char(b),
    ensures
        a == b,
{
}

/// Different bytes have different texts.
pub proof fn hex_text_is_injective(a: Seq<u8>, b: Seq<u8>)
    requires
        hex_text(a) == hex_text(b),
    ensures
        a == b,
{
    assert(hex_text(a).len() == 2 + 2 * a.len());
    assert(hex_text(b).len() == 2 + 2 * b.len());
    assert forall|i: int| 0 <= i < a.len() implies a[i] == b[i] by {
        assert(hex_text(a)[2 + 2 * i] == hex_char(nibble(a, 2 * i)));
        assert(hex_text(b)[2 + 2 * i] == hex_char(nibble(b, 2 * i)));
        assert(hex_text(a)[3 + 2 * i] == hex_char(nibble(a, 2 * i + 1)));
        assert(hex_text(b)[3 + 2 * i] == hex_char(nibble(b, 2 * i + 1)));
        hex_char_is_injective(nibble(a, 2 * i), nibble(b, 2 * i));
        hex_char_is_injective(nibble(a, 2 * i + 1), nibble(b, 2 * i + 1));
    }
    assert(a =~= b);
}

/// `n` in decimal digits, without leading zeros.
pub open spec fn decimal_text(n: nat) -> Seq<char>
    decreases n,
{
    if n < 10 {
        seq![(48 + n) as char]
    } else {
        decimal_text(n / 10).push((48 + n % 10) as char)
    }
}

/// Appends `n` in decimal digits to `text`.
pub fn push_decimal(text: &mut String, n: u64)
    ensures
        final(text)@ == old(text)@ + decimal_text(n as nat),
    decreases n,
{
    if n >= 10 {
        push_decimal(text, n / 10);
    }
    let digit: u8 = (n % 10) as u8;
    text.push((48 + digit) as char);
    assert(text@ =~= old(text)@ + decimal_text(n as nat));
}

/// Whether `c` is a decimal digit.
pub open spec fn is_digit(c: char) -> bool {
    '0' <= c <= '9'
}

/// The number that decimal digits stand for.
pub open spec fn digits_value(digits: Seq<char>) -> int
    decreases digits.len(),
{
    if digits.len() == 0 {
        0
    } else {
        10 * digits_value(digits.drop_last()) + (digits.last() as int - 48)
    }
}

/// `text` without a plus sign in front.
pub open spec fn unsigned(text: Seq<char>) -> Seq<char> {
    if text.len() > 0 && text[0] == '+' {
        text.skip(1)
    } else {
        text
    }
}

/// Whether `text` is a number that fits 64 bits: digits and nothing else, but for a
/// plus sign in front.
pub open spec fn is_u64(text: Seq<char>) -> bool {
    &&& unsigned(text).len() > 0
    &&& forall|i: int| 0 <= i < unsigned(text).len() ==> is_digit(#[trigger] unsigned(text)[i])
    &&& digits_value(unsigned(text)) <= u64::MAX
}

/// The number in `text`, if there is one.
pub open spec fn u64_in(text: Seq<char>) -> Option<u64> {
    if is_u64(text) {
        Some(digits_value(unsigned(text)) as u64)
    } else {
        None
    }
}

proof fn prefix_value(digits: Seq<char>, n: int)
    requires
        0 <= n <= digits.len(),
        forall|i: int| 0 <= i < digits.len() ==> is_digit(#[trigger] digits[i]),
    ensures
        0 <= digits_value(digits.take(n)) <= digits_value(digits),
    decreases digits.len(),
{
    if n == digits.len() {
        assert(digits.take(n) =~= digits);
        if n > 0 {
            let rest = digits.drop_last();
            assert(forall|i: int| 0 <= i < rest.len() ==> rest[i] == digits[i]);
            prefix_value(rest, rest.len() as int);
            assert(rest.take(rest.len() as int) =~= rest);
            assert(is_digit(digits[digits.len() - 1]));
        }
    } else {
        let rest = digits.drop_last();
        assert(forall|i: int| 0 <= i < rest.len() ==> rest[i] == digits[i]);
        prefix_value(rest, n);
        assert(rest.take(n) =~= digits.take(n));
        assert(is_digit(digits[digits.len() - 1]));
    }
}

/// The number in `text`, if there is one: decimal digits, with or without a plus
/// sign in front, that fit 64 bits.
pub fn parse_u64(text: &str) -> (number: Option<u64>)
    ensures
        number == u64_in(text@),
{
    let len = text.unicode_len();
    let start: usize = if len > 0 && text.get_char(0) == '+' {
        1
    } else {
        0
    };
    let ghost digits = unsigned(text@);
    if start == len {
        return None;
    }
    let mut value: u64 = 0;
    let mut i: usize = start;
    assert(digits.take(0).len() == 0);
    while i < len
        invariant
            start <= i <= len,
            start <= 1,
            len == text@.len(),
            digits == unsigned(text@),
            digits == text@.skip(start as int),
            forall|j: int| 0 <= j < i - start ==> is_digit(#[trigger] digits[j]),
            value == digits_value(digits.take(i - start)),
        decreases len - i,
    {
        let c = text.get_char(i);
        assert(c == digits[i - start]);
        if !(c >= '0' && c <= '9') {
            return None;
        }
        let digit: u64 = (c as u32 - 48) as u64;
        assert(digits.take(i + 1 - start).drop_last() =~= digits.take(i - start));
        assert(digits_value(digits.take(i + 1 - start)) == 10 * value + digit);
        if value > (u64::MAX - digit) / 10 {
            proof {
                if is_u64(text@) {
                    prefix_value(digits, i + 1 - start);
                }
            }
            return None;
        }
        value = value * 10 + digit;
        i += 1;
    }
    assert(digits.take(digits.len() as int) =~= digits);
    Some(value)
}

proof fn longer_digits(digits: Seq<char>, c: char)
    ensures
        digits_value(digits.push(c)) == 10 * digits_value(digits) + (c as int - 48),
{
    assert(digits.push(c).drop_last() =~= digits);
}

/// How a number is read: a single digit is its value, and one more digit makes it ten times
/// as much and that digit more, as long as 64 bits hold it. A sign in front, of which there
/// may be one, makes no difference. Whatever else comes in, there is no number, and none
/// comes of it by writing on. So it is settled for every text, character by character.
pub proof fn numbers_are_read_digit_by_digit(text: Seq<char>, c: char)
    ensures
        u64_in(seq![]) is None,
        u64_in(seq!['+']) is None,
        '0' <= c <= '9' && (text.len() == 0 || text == seq!['+']) ==> (u64_in(text.push(c)) matches
            Some(n) && n == c as int - 48),
        '0' <= c <= '9' ==> (u64_in(text) matches Some(n) ==> {
            let longer = 10 * n + (c as int - 48);
            u64_in(text.push(c)) == if longer <= u64::MAX {
                Some(longer as u64)
            } else {
                None
            }
        }),
        !('0' <= c <= '9') ==> u64_in(text.push(c)) is None,
        u64_in(text) is None && text.len() > 0 && text != seq!['+'] ==> u64_in(text.push(c)) is None,
{
    let longer = text.push(c);
    let digits = unsigned(text);
    assert(unsigned(seq!['+']) =~= seq![]);
    assert(unsigned(seq![]) =~= seq![]);
    if text.len() > 0 {
        assert(unsigned(longer) =~= digits.push(c));
        longer_digits(digits, c);
        assert(unsigned(longer)[digits.len() as int] == c);
        assert forall|i: int| 0 <= i < digits.len() implies unsigned(longer)[i] == digits[i] by {}
        if is_u64(longer) && digits.len() > 0 {
            assert forall|i: int| 0 <= i < digits.len() implies is_digit(#[trigger] digits[i]) by {
                assert(is_digit(unsigned(longer)[i]));
            }
            prefix_value(digits, digits.len() as int);
            assert(digits.take(digits.len() as int) =~= digits);
        }
        if is_u64(text) {
            prefix_value(digits, digits.len() as int);
            assert(digits.take(digits.len() as int) =~= digits);
            if '0' <= c <= '9' {
                assert forall|i: int| 0 <= i < unsigned(longer).len() implies is_digit(
                    #[trigger] unsigned(longer)[i],
                ) by {
                    if i < digits.len() {
                        assert(is_digit(digits[i]));
                    }
                }
            }
        }
        if digits.len() == 0 {
            assert(text =~= seq!['+']);
            assert(digits_value(digits) == 0);
        }
    } else {
        assert(longer =~= seq![c]);
        if c == '+' {
            assert(unsigned(longer) =~= seq![]);
        } else {
            assert(unsigned(longer) =~= seq![c]);
            longer_digits(seq![], c);
            assert(Seq::<char>::empty().push(c) =~= seq![c]);
            assert(digits_value(seq![]) == 0);
            assert(unsigned(longer)[0] == c);
        }
    }
}

/// A number that was written in decimal digits is read back, and is written with as few
/// digits as it takes.
pub proof fn decimals_are_read_back(n: u64)
    ensures
        u64_in(decimal_text(n as nat)) == Some(n),
        decimal_text(n as nat).len() > 0,
        decimal_text(n as nat)[0] == '0' ==> n == 0,
    decreases n,
{
    if n >= 10 {
        decimals_are_read_back(n / 10);
        numbers_are_read_digit_by_digit(decimal_text((n / 10) as nat), (48 + n % 10) as char);
    } else {
        numbers_are_read_digit_by_digit(seq![], (48 + n) as char);
        assert(Seq::<char>::empty().push((48 + n) as char) =~= decimal_text(n as nat));
    }
}

} // verus!
