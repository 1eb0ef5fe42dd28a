//! Unsigned integers as decimal text, in the one form without leading zeros.

use vstd::prelude::*;

verus! {

/// `n` in decimal digits, without leading zeros.
pub open spec fn decimal(n: nat) -> Seq<u8>
    decreases n,
{
    if n < 10 {
        seq![(48 + n) as u8]
    } else {
        decimal(n / 10).push((48 + n % 10) as u8)
    }
}

/// The number that a run of decimal digits denotes; zero for the empty run.
pub open spec fn digits_value(text: Seq<u8>) -> Option<nat>
    decreases text.len(),
{
    if text.len() == 0 {
        Some(0)
    } else if 48 <= text.last() <= 57 {
        match digits_value(text.drop_last()) {
            Some(high) => Some(high * 10 + (text.last() - 48) as nat),
            None => None,
        }
    } else {
        None
    }
}

/// The number that `text` denotes, if `text` is its decimal form: one digit
/// at least, and no leading zero before another digit.
pub open spec fn parse_decimal(text: Seq<u8>) -> Option<nat> {
    if text.len() == 0 || (text.len() > 1 && text[0] == 48) {
        None
    } else {
        digits_value(text)
    }
}

/// `parse_decimal`, for numbers that a `u64` holds.
pub open spec fn parse_decimal_u64(text: Seq<u8>) -> Option<u64> {
    match parse_decimal(text) {
        Some(v) if v <= u64::MAX => Some(v as u64),
        _ => None,
    }
}

/// The decimal form has a digit, and starts with zero only for zero.
pub proof fn lemma_decimal_shape(n: nat)
    ensures
        decimal(n).len() >= 1,
        n >= 1 ==> decimal(n)[0] != 48,
        n < 10 ==> decimal(n).len() == 1,
        n >= 10 ==> decimal(n).len() > 1,
        forall|i: int| 0 <= i < decimal(n).len() ==> 48 <= #[trigger] decimal(n)[i] <= 57,
    decreases n,
{
    if n >= 10 {
        lemma_decimal_shape(n / 10);
    }
}

/// Reading the decimal form of a number gives the number.
pub proof fn lemma_decimal_round_trip(n: nat)
    ensures
        parse_decimal(decimal(n)) == Some(n),
    decreases n,
{
    lemma_decimal_shape(n);
    lemma_digits_of_decimal(n);
}

proof fn lemma_digits_of_decimal(n: nat)
    ensures
        digits_value(decimal(n)) == Some(n),
    decreases n,
{
    let text = decimal(n);
    if n < 10 {
        assert(text.drop_last() =~= Seq::<u8>::empty());
        assert(digits_value(text.drop_last()) == Some(0nat));
    } else {
        lemma_digits_of_decimal(n / 10);
        assert(text.drop_last() =~= decimal(n / 10));
    }
}

/// A run of digits denotes at least what any of its prefixes denotes, and no
/// number at all once a prefix denotes none.
pub proof fn lemma_digits_prefix(text: Seq<u8>, n: int)
    requires
        0 <= n <= text.len(),
    ensures
        digits_value(text.take(n)) is None ==> digits_value(text) is None,
        digits_value(text) matches Some(v) ==> digits_value(text.take(n)) matches Some(p) && p
            <= v,
    decreases text.len() - n,
{
    if n < text.len() {
        assert(text.take(n + 1).drop_last() =~= text.take(n));
        lemma_digits_prefix(text, n + 1);
    } else {
        assert(text.take(n) =~= text);
    }
}

/// Appends the decimal form of `n` to `out`.
pub fn write_decimal(n: u64, out: &mut Vec<u8>)
    ensures
        final(out)@ == old(out)@ + decimal(n as nat),
{
    let ghost before = out@;
    let mut digits: Vec<u8> = Vec::new();
    let mut rest: u64 = n;
    // `digits` collects all digits but the first, least significant first.
    while rest >= 10
        invariant
            decimal(n as nat) =~= decimal(rest as nat) + digits@.reverse(),
        decreases rest,
    {
        let d: u8 = (rest % 10) as u8;
        let ghost old_digits = digits@;
        digits.push(48 + d);
        proof {
            assert(digits@.reverse() =~= seq![(48 + d) as u8] + old_digits.reverse());
        }
        rest = rest / 10;
    }
    out.push(48 + rest as u8);
    let width: usize = digits.len();
    let mut i: usize = width;
    while i > 0
        invariant
            i <= width,
            digits@.len() == width,
            out@ =~= before + decimal(rest as nat) + digits@.reverse().take(width - i),
        decreases i,
    {
        i = i - 1;
        out.push(digits[i]);
        proof {
            let r = digits@.reverse();
            assert(r[width - i - 1] == digits@[i as int]);
            assert(r.take(width - i) =~= r.take(width - i - 1).push(r[width - i - 1]));
        }
    }
    proof {
        assert(digits@.reverse().take(width as int) =~= digits@.reverse());
    }
}

/// Reads a `u64` from its decimal form.
pub fn read_decimal(text: &[u8]) -> (value: Option<u64>)
    ensures
        value == parse_decimal_u64(text@),
{
    let len: usize = text.len();
    if len == 0 || (len > 1 && text[0] == 48) {
        return None;
    }
    let mut acc: u64 = 0;
    let mut i: usize = 0;
    while i < len
        invariant
            i <= len == text@.len(),
            digits_value(text@.take(i as int)) == Some(acc as nat),
        decreases len - i,
    {
        let c: u8 = text[i];
        proof {
            assert(text@.take(i + 1).drop_last() =~= text@.take(i as int));
            lemma_digits_prefix(text@, i + 1);
        }
        if c < 48 || c > 57 {
            return None;
        }
        let d: u64 = (c - 48) as u64;
        if acc > (u64::MAX - d) / 10 {
            return None;
        }
        acc = acc * 10 + d;
        i = i + 1;
    }
    proof {
        assert(text@.take(i as int) =~= text@);
    }
    Some(acc)
}

} // verus!
