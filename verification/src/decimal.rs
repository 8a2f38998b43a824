//! Unsigned decimal numbers as ASCII text.

use vstd::prelude::*;

verus! {

/// Whether `byte` is one of the ASCII digits `0` to `9`.
pub open spec fn is_digit(byte: u8) -> bool {
    0x30 <= byte <= 0x39
}

/// Whether every byte of `text` is an ASCII digit.
pub open spec fn all_digits(text: Seq<u8>) -> bool {
    forall|i: int| 0 <= i < text.len() ==> is_digit(#[trigger] text[i])
}

/// The number that a string of ASCII digits writes in base ten.
pub open spec fn digits_value(digits: Seq<u8>) -> nat
    decreases digits.len(),
{
    if digits.len() == 0 {
        0
    } else {
        digits_value(digits.drop_last()) * 10 + (digits.last() - 0x30) as nat
    }
}

/// The number that `text` writes: an optional `+`, then one digit or more.
/// `None` where `text` has any other form.
pub open spec fn decimal_number(text: Seq<u8>) -> Option<nat> {
    let digits = if text.len() > 0 && text[0] == 0x2b {
        text.skip(1)
    } else {
        text
    };
    if digits.len() > 0 && all_digits(digits) {
        Some(digits_value(digits))
    } else {
        None
    }
}

/// The digits of `n` in base ten, without leading zeros.
pub open spec fn decimal_digits(n: nat) -> Seq<u8>
    decreases n,
{
    if n < 10 {
        seq![(0x30 + n) as u8]
    } else {
        decimal_digits(n / 10).push((0x30 + n % 10) as u8)
    }
}

/// A string of digits is worth at least as much as any of its beginnings.
pub proof fn lemma_digits_value_grows(digits: Seq<u8>, k: int)
    requires
        0 <= k <= digits.len(),
    ensures
        digits_value(digits.take(k)) <= digits_value(digits),
    decreases digits.len(),
{
    if k == digits.len() {
        assert(digits.take(k) =~= digits);
    } else {
        assert(digits.drop_last().take(k) =~= digits.take(k));
        lemma_digits_value_grows(digits.drop_last(), k);
    }
}

/// What `decimal_digits` writes, `decimal_number` reads back.
pub proof fn lemma_decimal_round_trip(n: nat)
    ensures
        all_digits(decimal_digits(n)),
        decimal_digits(n).len() > 0,
        digits_value(decimal_digits(n)) == n,
        decimal_number(decimal_digits(n)) == Some(n),
    decreases n,
{
    let digits = decimal_digits(n);
    if n < 10 {
        assert(digits.drop_last() =~= Seq::<u8>::empty());
        assert(digits_value(digits.drop_last()) == 0);
    } else {
        lemma_decimal_round_trip(n / 10);
        assert(digits.drop_last() =~= decimal_digits(n / 10));
    }
    assert(digits[0] != 0x2b);
}

/// Reads an unsigned decimal number that fits 64 bits.
pub fn parse_u64(text: &[u8]) -> (number: Option<u64>)
    ensures
        number == match decimal_number(text@) {
            Some(value) => if value <= u64::MAX {
                Some(value as u64)
            } else {
                None
            },
            None => None,
        },
{
    let start: usize = if text.len() > 0 && text[0] == 0x2b {
        1
    } else {
        0
    };
    let ghost digits = text@.skip(start as int);
    assert(text@.skip(0) =~= text@);
    if start == text.len() {
        return None;
    }
    let mut value: u64 = 0;
    let mut i: usize = start;
    while i < text.len()
        invariant
            start <= i <= text.len(),
            start < text.len(),
            start == if text@.len() > 0 && text@[0] == 0x2b {
                1int
            } else {
                0int
            },
            digits == text@.skip(start as int),
            start == 0 ==> digits == text@,
            all_digits(digits.take(i - start)),
            value == digits_value(digits.take(i - start)),
        decreases text.len() - i,
    {
        let byte = text[i];
        let ghost seen = digits.take(i - start + 1);
        proof {
            assert(seen.drop_last() =~= digits.take(i - start));
            assert(seen.last() == byte);
        }
        if byte < 0x30 || byte > 0x39 {
            assert(!is_digit(digits[i - start]));
            return None;
        }
        let digit: u64 = (byte - 0x30) as u64;
        if value > (u64::MAX - digit) / 10 {
            proof {
                assert(digits_value(seen) == value * 10 + digit);
                assert(value * 10 + digit > u64::MAX);
                lemma_digits_value_grows(digits, i - start + 1);
            }
            return None;
        }
        value = value * 10 + digit;
        i += 1;
    }
    assert(digits.take(i - start) =~= digits);
    Some(value)
}

/// Appends the decimal digits of `n` to `buffer`.
pub fn push_decimal(buffer: &mut Vec<u8>, n: u64)
    ensures
        final(buffer)@ == old(buffer)@ + decimal_digits(n as nat),
{
    let mut low: Vec<u8> = Vec::new();
    let mut rest: u64 = n;
    while rest >= 10
        invariant
            decimal_digits(n as nat) == decimal_digits(rest as nat) + Seq::new(
                low@.len(),
                |k: int| low@[low@.len() - 1 - k],
            ),
        decreases rest,
    {
        let ghost before = low@;
        low.push(0x30 + (rest % 10) as u8);
        proof {
            let tail_before = Seq::new(before.len(), |k: int| before[before.len() - 1 - k]);
            let tail_after = Seq::new(low@.len(), |k: int| low@[low@.len() - 1 - k]);
            assert(decimal_digits(rest as nat) + tail_before =~= decimal_digits(
                (rest / 10) as nat,
            ) + tail_after);
        }
        rest = rest / 10;
    }
    let ghost tail = Seq::new(low@.len(), |k: int| low@[low@.len() - 1 - k]);
    buffer.push(0x30 + rest as u8);
    let mut left: usize = low.len();
    while left > 0
        invariant
            left <= low@.len(),
            tail == Seq::new(low@.len(), |k: int| low@[low@.len() - 1 - k]),
            buffer@ == old(buffer)@ + decimal_digits(rest as nat) + tail.take(
                low@.len() - left,
            ),
        decreases left,
    {
        left -= 1;
        buffer.push(low[left]);
        assert(tail.take(low@.len() - left) =~= tail.take(low@.len() - left - 1).push(
            low@[left as int],
        ));
    }
    assert(tail.take(low@.len() as int) =~= tail);
}

} // verus!
