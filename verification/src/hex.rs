//! Fixed-width lower-case hexadecimal text for unsigned integers.

use vstd::prelude::*;

verus! {

/// Sixteen to the power `n`.
pub open spec fn pow16(n: nat) -> nat
    decreases n,
{
    if n == 0 {
        1
    } else {
        16 * pow16((n - 1) as nat)
    }
}

/// The ASCII digit that stands for `d` (lower case for ten to fifteen).
pub open spec fn hex_digit(d: nat) -> u8 {
    if d < 10 {
        (48 + d) as u8
    } else {
        (87 + d) as u8
    }
}

/// The value of an ASCII hex digit of either case, if `c` is one.
pub open spec fn hex_value(c: u8) -> Option<nat> {
    if 48 <= c <= 57 {
        Some((c - 48) as nat)
    } else if 97 <= c <= 102 {
        Some((c - 87) as nat)
    } else if 65 <= c <= 70 {
        Some((c - 55) as nat)
    } else {
        None
    }
}

/// `value` written with exactly `width` hex digits, most significant first.
/// Digits above the width are dropped.
pub open spec fn to_hex(value: nat, width: nat) -> Seq<u8>
    decreases width,
{
    if width == 0 {
        Seq::empty()
    } else {
        to_hex(value / 16, (width - 1) as nat).push(hex_digit(value % 16))
    }
}

/// The number that `text` denotes, if every byte of it is a hex digit.
pub open spec fn from_hex(text: Seq<u8>) -> Option<nat>
    decreases text.len(),
{
    if text.len() == 0 {
        Some(0)
    } else {
        match (from_hex(text.drop_last()), hex_value(text.last())) {
            (Some(high), Some(d)) => Some(high * 16 + d),
            _ => None,
        }
    }
}

/// `to_hex` yields exactly `width` bytes.
pub proof fn lemma_to_hex_len(value: nat, width: nat)
    ensures
        to_hex(value, width).len() == width,
    decreases width,
{
    if width > 0 {
        lemma_to_hex_len(value / 16, (width - 1) as nat);
    }
}

/// Reading back what `to_hex` wrote gives the number again, as long as it
/// fits the width.
pub proof fn lemma_hex_round_trip(value: nat, width: nat)
    requires
        value < pow16(width),
    ensures
        from_hex(to_hex(value, width)) == Some(value),
    decreases width,
{
    if width > 0 {
        let rest = to_hex(value / 16, (width - 1) as nat);
        let text = to_hex(value, width);
        lemma_hex_round_trip(value / 16, (width - 1) as nat);
        assert(text.drop_last() =~= rest);
        assert(text.last() == hex_digit(value % 16));
    }
}

/// A number read from `text` is below sixteen to the length of `text`.
pub proof fn lemma_from_hex_bound(text: Seq<u8>)
    ensures
        from_hex(text) matches Some(v) ==> v < pow16(text.len()),
    decreases text.len(),
{
    if text.len() > 0 {
        lemma_from_hex_bound(text.drop_last());
    }
}

/// `pow16` grows with its argument.
pub proof fn lemma_pow16_increases(a: nat, b: nat)
    requires
        a <= b,
    ensures
        pow16(a) <= pow16(b),
        pow16(a) >= 1,
    decreases b,
{
    if a < b {
        lemma_pow16_increases(a, (b - 1) as nat);
    } else if a > 0 {
        lemma_pow16_increases((a - 1) as nat, (a - 1) as nat);
    }
}

/// Sixteen hex digits hold exactly a `u64`, eight a `u32`.
pub proof fn lemma_pow16_widths()
    ensures
        pow16(8) == 0x1_0000_0000,
        pow16(16) == 0x1_0000_0000_0000_0000,
{
    reveal_with_fuel(pow16, 17);
}

fn digit_of(d: u8) -> (c: u8)
    requires
        d < 16,
    ensures
        c == hex_digit(d as nat),
{
    if d < 10 {
        48 + d
    } else {
        87 + d
    }
}

fn value_of(c: u8) -> (d: Option<u8>)
    ensures
        match d {
            Some(v) => hex_value(c) == Some(v as nat) && v < 16,
            None => hex_value(c) is None,
        },
{
    if 48 <= c && c <= 57 {
        Some(c - 48)
    } else if 97 <= c && c <= 102 {
        Some(c - 87)
    } else if 65 <= c && c <= 70 {
        Some(c - 55)
    } else {
        None
    }
}

/// Appends `value` to `out` as `width` hex digits.
pub fn write_hex(value: u64, width: usize, out: &mut Vec<u8>)
    ensures
        final(out)@ == old(out)@ + to_hex(value as nat, width as nat),
{
    let ghost before = out@;
    let mut digits: Vec<u8> = Vec::new();
    let mut rest: u64 = value;
    let mut k: usize = 0;
    // `digits` collects the digits least significant first.
    while k < width
        invariant
            k <= width,
            digits@.len() == k,
            to_hex(value as nat, width as nat) =~= to_hex(rest as nat, (width - k) as nat)
                + digits@.reverse(),
        decreases width - k,
    {
        let d: u8 = (rest % 16) as u8;
        let ghost old_digits = digits@;
        digits.push(digit_of(d));
        proof {
            let w = (width - k) as nat;
            assert(to_hex(rest as nat, w) == to_hex((rest / 16) as nat, (w - 1) as nat).push(
                hex_digit((rest % 16) as nat),
            ));
            assert(digits@.reverse() =~= seq![hex_digit((rest % 16) as nat)]
                + old_digits.reverse());
        }
        rest = rest / 16;
        k = k + 1;
    }
    let mut i: usize = width;
    while i > 0
        invariant
            i <= width,
            digits@.len() == width,
            out@ =~= before + digits@.reverse().take(width - i),
        decreases i,
    {
        i = i - 1;
        out.push(digits[i]);
        proof {
            let r = digits@.reverse();
            assert(r[width - i - 1] == digits@[i as int]);
            assert(r.take(width - i) =~= r.take(width - i - 1).push(r[width - i - 1]));
        }
    }
    proof {
        assert(digits@.reverse().take(width as int) =~= digits@.reverse());
    }
}

/// Reads a number from at most sixteen hex digits.
pub fn read_hex(text: &[u8]) -> (value: Option<u64>)
    requires
        text@.len() <= 16,
    ensures
        match value {
            Some(v) => from_hex(text@) == Some(v as nat),
            None => from_hex(text@) is None,
        },
{
    let mut acc: u64 = 0;
    let mut i: usize = 0;
    while i < text.len()
        invariant
            i <= text@.len() <= 16,
            from_hex(text@.take(i as int)) == Some(acc as nat),
        decreases text@.len() - i,
    {
        let ghost prefix = text@.take(i as int);
        let ghost next = text@.take(i + 1);
        proof {
            assert(next.drop_last() =~= prefix);
            assert(next.last() == text@[i as int]);
            lemma_from_hex_bound(prefix);
            lemma_pow16_increases(i as nat, 15);
            lemma_pow16_increases(15, 16);
            lemma_pow16_widths();
        }
        match value_of(text[i]) {
            Some(d) => {
                acc = acc * 16 + d as u64;
            },
            None => {
                proof {
                    lemma_from_hex_none(text@, i + 1);
                }
                return None;
            },
        }
        i = i + 1;
    }
    proof {
        assert(text@.take(i as int) =~= text@);
    }
    Some(acc)
}

/// Once a prefix fails to read, the whole text does.
pub proof fn lemma_from_hex_none(text: Seq<u8>, n: int)
    requires
        0 <= n <= text.len(),
        from_hex(text.take(n)) is None,
    ensures
        from_hex(text) is None,
    decreases text.len() - n,
{
    if n < text.len() {
        assert(text.take(n + 1).drop_last() =~= text.take(n));
        lemma_from_hex_none(text, n + 1);
    } else {
        assert(text.take(n) =~= text);
    }
}

} // verus!
