//! Baud rates: the rates a front-end offers, and reading one from text.

use vstd::prelude::*;
use vstd::string::*;

verus! {

/// The rates that a front-end offers, in rising order.
pub open spec fn standard_bauds() -> Seq<u32> {
    seq![
        300u32,
        600,
        750,
        1200,
        2400,
        4800,
        9600,
        19200,
        38400,
        57600,
        115200,
        230400,
        460800,
        500000,
        921600,
        1000000,
        2000000,
    ]
}

/// The rates for a baud selector.
pub fn baud_rates() -> (rates: Vec<u32>)
    ensures
        rates@ == standard_bauds(),
{
    let rates: Vec<u32> = vec![
        300u32,
        600,
        750,
        1200,
        2400,
        4800,
        9600,
        19200,
        38400,
        57600,
        115200,
        230400,
        460800,
        500000,
        921600,
        1000000,
        2000000,
    ];
    assert(rates@ =~= standard_bauds());
    rates
}

/// Whether `rate` is one of the offered rates.
pub fn is_standard(rate: u32) -> (yes: bool)
    ensures
        yes == standard_bauds().contains(rate),
{
    let rates = baud_rates();
    let mut i: usize = 0;
    while i < rates.len()
        invariant
            rates@ == standard_bauds(),
            0 <= i <= rates@.len(),
            forall|j: int| 0 <= j < i ==> rates@[j] != rate,
        decreases rates@.len() - i,
    {
        if rates[i] == rate {
            return true;
        }
        i += 1;
    }
    false
}

pub open spec fn is_digit(c: char) -> bool {
    '0' <= c <= '9'
}

/// Whether every character of `s` is a decimal digit.
pub open spec fn all_digits(s: Seq<char>) -> bool {
    forall|i: int| 0 <= i < s.len() ==> is_digit(#[trigger] s[i])
}

/// The number that the decimal digits `s` write; the empty text writes 0.
pub open spec fn digits_value(s: Seq<char>) -> nat
    decreases s.len(),
{
    if s.len() == 0 {
        0
    } else {
        (digits_value(s.drop_last()) * 10 + (s.last() as u32 - '0' as u32)) as nat
    }
}

/// The baud rate that `s` writes: `s` is one decimal digit or more, and
/// their number is positive and fits in 32 bits.
pub open spec fn parse_baud_spec(s: Seq<char>) -> Option<u32> {
    if s.len() > 0 && all_digits(s) && 0 < digits_value(s) <= u32::MAX {
        Some(digits_value(s) as u32)
    } else {
        None
    }
}

/// A number written in digits is at least what any of its beginnings writes.
proof fn lemma_prefix_value(s: Seq<char>, k: int)
    requires
        all_digits(s),
        0 <= k <= s.len(),
    ensures
        digits_value(s.take(k)) <= digits_value(s),
    decreases s.len(),
{
    if k == s.len() {
        assert(s.take(k) =~= s);
    } else {
        assert(is_digit(s.last()));
        assert(s.drop_last().take(k) =~= s.take(k));
        lemma_prefix_value(s.drop_last(), k);
    }
}

/// Reads a baud rate from text.
pub fn parse_baud(text: &str) -> (r: Option<u32>)
    ensures
        r == parse_baud_spec(text@),
{
    let n: usize = text.unicode_len();
    if n == 0 {
        return None;
    }
    let mut acc: u64 = 0;
    let mut i: usize = 0;
    while i < n
        invariant
            n == text@.len(),
            0 <= i <= n,
            all_digits(text@.take(i as int)),
            acc == digits_value(text@.take(i as int)),
            acc <= u32::MAX,
        decreases n - i,
    {
        let c: char = text.get_char(i);
        if !(c >= '0' && c <= '9') {
            proof {
                assert(text@[i as int] == c);
            }
            return None;
        }
        let d: u64 = (c as u32 - '0' as u32) as u64;
        proof {
            let next = text@.take(i + 1);
            assert(next.drop_last() =~= text@.take(i as int));
            assert(next.last() == c);
            assert forall|j: int| 0 <= j < next.len() implies is_digit(#[trigger] next[j]) by {
                if j < i {
                    assert(text@.take(i as int)[j] == next[j]);
                }
            }
        }
        let next_acc: u64 = acc * 10 + d;
        if next_acc > 0xffff_ffffu64 {
            proof {
                // Every later digit only adds to the number, so it cannot fit.
                if all_digits(text@) {
                    lemma_prefix_value(text@, i + 1);
                }
            }
            return None;
        }
        acc = next_acc;
        i += 1;
    }
    proof {
        assert(text@.take(n as int) =~= text@);
    }
    if acc == 0 {
        None
    } else {
        Some(acc as u32)
    }
}

} // verus!
