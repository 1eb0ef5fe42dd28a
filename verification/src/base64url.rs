//! Base64 with the URL-safe alphabet and without padding.

use vstd::prelude::*;

verus! {

/// The ASCII symbol for the six-bit value `v`.
pub open spec fn symbol(v: int) -> u8 {
    if v < 26 {
        (65 + v) as u8
    } else if v < 52 {
        (71 + v) as u8
    } else if v < 62 {
        (v - 4) as u8
    } else if v == 62 {
        45
    } else {
        95
    }
}

/// The six-bit value of the symbol `c`, if `c` is in the alphabet.
pub open spec fn symbol_value(c: u8) -> Option<int> {
    if 65 <= c <= 90 {
        Some(c - 65)
    } else if 97 <= c <= 122 {
        Some(c - 71)
    } else if 48 <= c <= 57 {
        Some(c + 4)
    } else if c == 45 {
        Some(62)
    } else if c == 95 {
        Some(63)
    } else {
        None
    }
}

/// The text of `data`: four symbols for each three bytes, and two or three
/// symbols for one or two bytes left over.
pub open spec fn encode(data: Seq<u8>) -> Seq<u8>
    decreases data.len(),
{
    if data.len() == 0 {
        Seq::empty()
    } else if data.len() == 1 {
        seq![symbol((data[0] / 4) as int), symbol((data[0] % 4) * 16)]
    } else if data.len() == 2 {
        seq![
            symbol((data[0] / 4) as int),
            symbol((data[0] % 4) * 16 + data[1] / 16),
            symbol((data[1] % 16) * 4),
        ]
    } else {
        seq![
            symbol((data[0] / 4) as int),
            symbol((data[0] % 4) * 16 + data[1] / 16),
            symbol((data[1] % 16) * 4 + data[2] / 64),
            symbol((data[2] % 64) as int),
        ] + encode(data.skip(3))
    }
}

/// `head` in front of what `tail` holds, if it holds anything.
pub open spec fn prepend(head: Seq<u8>, tail: Option<Seq<u8>>) -> Option<Seq<u8>> {
    match tail {
        Some(rest) => Some(head + rest),
        None => None,
    }
}

/// The bytes that `text` stands for. There are none where a byte of `text`
/// is outside the alphabet, where one symbol is left over, or where the
/// last symbol carries bits that belong to no byte.
pub open spec fn decode(text: Seq<u8>) -> Option<Seq<u8>>
    decreases text.len(),
{
    if text.len() == 0 {
        Some(Seq::empty())
    } else if text.len() == 1 {
        None
    } else if text.len() == 2 {
        match (symbol_value(text[0]), symbol_value(text[1])) {
            (Some(a), Some(b)) if b % 16 == 0 => Some(seq![(a * 4 + b / 16) as u8]),
            _ => None,
        }
    } else if text.len() == 3 {
        match (symbol_value(text[0]), symbol_value(text[1]), symbol_value(text[2])) {
            (Some(a), Some(b), Some(c)) if c % 4 == 0 => Some(
                seq![(a * 4 + b / 16) as u8, ((b % 16) * 16 + c / 4) as u8],
            ),
            _ => None,
        }
    } else {
        match (
            symbol_value(text[0]),
            symbol_value(text[1]),
            symbol_value(text[2]),
            symbol_value(text[3]),
        ) {
            (Some(a), Some(b), Some(c), Some(d)) => prepend(
                seq![
                    (a * 4 + b / 16) as u8,
                    ((b % 16) * 16 + c / 4) as u8,
                    ((c % 4) * 64 + d) as u8,
                ],
                decode(text.skip(4)),
            ),
            _ => None,
        }
    }
}

/// Every byte of `text` is a symbol of the alphabet.
pub open spec fn is_text(text: Seq<u8>) -> bool {
    forall|i: int| 0 <= i < text.len() ==> symbol_value(#[trigger] text[i]) is Some
}

/// A symbol's value is the value it was made from.
pub proof fn lemma_symbol_value(v: int)
    requires
        0 <= v < 64,
    ensures
        symbol_value(symbol(v)) == Some(v),
{
}

/// What `encode` gives is text of the alphabet.
pub proof fn lemma_encode_is_text(data: Seq<u8>)
    ensures
        is_text(encode(data)),
    decreases data.len(),
{
    if data.len() >= 3 {
        lemma_encode_is_text(data.skip(3));
    }
}

/// The four six-bit values of three bytes are in range and give the bytes
/// back.
proof fn lemma_sextets(a: u8, b: u8, c: u8)
    ensures
        ({
            let s0 = (a / 4) as int;
            let s1 = (a % 4) * 16 + b / 16;
            let s2 = (b % 16) * 4 + c / 64;
            let s3 = (c % 64) as int;
            &&& 0 <= s0 < 64 && 0 <= s1 < 64 && 0 <= s2 < 64 && 0 <= s3 < 64
            &&& s0 * 4 + s1 / 16 == a
            &&& (s1 % 16) * 16 + s2 / 4 == b
            &&& (s2 % 4) * 64 + s3 == c
        }),
{
}

/// Decoding what `encode` gives returns the bytes.
pub proof fn lemma_round_trip(data: Seq<u8>)
    ensures
        decode(encode(data)) == Some(data),
    decreases data.len(),
{
    let text = encode(data);
    if data.len() == 0 {
        assert(data =~= Seq::<u8>::empty());
    } else if data.len() == 1 {
        let a = data[0];
        lemma_sextets(a, 0, 0);
        let s0 = (a / 4) as int;
        let s1 = (a % 4) * 16;
        lemma_symbol_value(s0);
        lemma_symbol_value(s1);
        assert(text.len() == 2);
        assert(text[0] == symbol(s0) && text[1] == symbol(s1));
        assert(seq![(s0 * 4 + s1 / 16) as u8] =~= data);
    } else if data.len() == 2 {
        let a = data[0];
        let b = data[1];
        lemma_sextets(a, b, 0);
        let s0 = (a / 4) as int;
        let s1 = (a % 4) * 16 + b / 16;
        let s2 = (b % 16) * 4;
        lemma_symbol_value(s0);
        lemma_symbol_value(s1);
        lemma_symbol_value(s2);
        assert(text.len() == 3);
        assert(text[0] == symbol(s0) && text[1] == symbol(s1) && text[2] == symbol(s2));
        assert(seq![(s0 * 4 + s1 / 16) as u8, ((s1 % 16) * 16 + s2 / 4) as u8] =~= data);
    } else {
        let a = data[0];
        let b = data[1];
        let c = data[2];
        let rest = data.skip(3);
        lemma_sextets(a, b, c);
        let s0 = (a / 4) as int;
        let s1 = (a % 4) * 16 + b / 16;
        let s2 = (b % 16) * 4 + c / 64;
        let s3 = (c % 64) as int;
        lemma_symbol_value(s0);
        lemma_symbol_value(s1);
        lemma_symbol_value(s2);
        lemma_symbol_value(s3);
        lemma_round_trip(rest);
        let quad = seq![symbol(s0), symbol(s1), symbol(s2), symbol(s3)];
        assert(text == quad + encode(rest));
        assert(text.len() >= 4);
        assert(text[0] == symbol(s0) && text[1] == symbol(s1) && text[2] == symbol(s2) && text[3]
            == symbol(s3));
        assert(text.skip(4) =~= encode(rest));
        let triple = seq![
            (s0 * 4 + s1 / 16) as u8,
            ((s1 % 16) * 16 + s2 / 4) as u8,
            ((s2 % 4) * 64 + s3) as u8,
        ];
        assert(decode(text) == prepend(triple, decode(text.skip(4))));
        assert(triple + rest =~= data);
    }
}

fn symbol_of(v: u8) -> (c: u8)
    requires
        v < 64,
    ensures
        c == symbol(v as int),
{
    if v < 26 {
        65 + v
    } else if v < 52 {
        71 + v
    } else if v < 62 {
        v - 4
    } else if v == 62 {
        45
    } else {
        95
    }
}

fn value_of(c: u8) -> (v: Option<u8>)
    ensures
        match v {
            Some(v) => symbol_value(c) == Some(v as int) && v < 64,
            None => symbol_value(c) is None,
        },
{
    if 65 <= c && c <= 90 {
        Some(c - 65)
    } else if 97 <= c && c <= 122 {
        Some(c - 71)
    } else if 48 <= c && c <= 57 {
        Some(c + 4)
    } else if c == 45 {
        Some(62)
    } else if c == 95 {
        Some(63)
    } else {
        None
    }
}

/// Appends the text of `data` to `out`.
pub fn encode_into(data: &[u8], out: &mut Vec<u8>)
    ensures
        final(out)@ == old(out)@ + encode(data@),
{
    let ghost before = out@;
    let len: usize = data.len();
    let mut i: usize = 0;
    proof {
        assert(data@.skip(0) =~= data@);
    }
    let ghost mut done = Seq::<u8>::empty();
    while len - i >= 3
        invariant
            i <= len == data@.len(),
            out@ == before + done,
            encode(data@) == done + encode(data@.skip(i as int)),
        decreases len - i,
    {
        let ghost tail = data@.skip(i as int);
        let a: u8 = data[i];
        let b: u8 = data[i + 1];
        let c: u8 = data[i + 2];
        out.push(symbol_of(a / 4));
        out.push(symbol_of((a % 4) * 16 + b / 16));
        out.push(symbol_of((b % 16) * 4 + c / 64));
        out.push(symbol_of(c % 64));
        proof {
            let quad = seq![
                symbol((a / 4) as int),
                symbol((a % 4) * 16 + b / 16),
                symbol((b % 16) * 4 + c / 64),
                symbol((c % 64) as int),
            ];
            assert(tail.skip(3) =~= data@.skip(i + 3));
            assert(encode(tail) == quad + encode(data@.skip(i + 3)));
            assert(out@ =~= before + (done + quad));
            assert(encode(data@) =~= (done + quad) + encode(data@.skip(i + 3)));
            done = done + quad;
        }
        i = i + 3;
    }
    if len - i == 1 {
        let a: u8 = data[i];
        out.push(symbol_of(a / 4));
        out.push(symbol_of((a % 4) * 16));
        proof {
            assert(out@ =~= before + (done + encode(data@.skip(i as int))));
        }
    } else if len - i == 2 {
        let a: u8 = data[i];
        let b: u8 = data[i + 1];
        out.push(symbol_of(a / 4));
        out.push(symbol_of((a % 4) * 16 + b / 16));
        out.push(symbol_of((b % 16) * 4));
        proof {
            assert(out@ =~= before + (done + encode(data@.skip(i as int))));
        }
    } else {
        proof {
            assert(out@ =~= before + (done + encode(data@.skip(i as int))));
        }
    }
}

/// The bytes that `text` stands for, if it stands for any.
pub fn decode_text(text: &[u8]) -> (data: Option<Vec<u8>>)
    ensures
        match data {
            Some(bytes) => decode(text@) == Some(bytes@),
            None => decode(text@) is None,
        },
{
    let len: usize = text.len();
    let mut out: Vec<u8> = Vec::new();
    let mut i: usize = 0;
    proof {
        assert(text@.skip(0) =~= text@);
    }
    while len - i >= 4
        invariant
            i <= len == text@.len(),
            decode(text@) == prepend(out@, decode(text@.skip(i as int))),
        decreases len - i,
    {
        let ghost tail = text@.skip(i as int);
        let ghost old_out = out@;
        proof {
            assert(tail.skip(4) =~= text@.skip(i + 4));
        }
        match (value_of(text[i]), value_of(text[i + 1]), value_of(text[i + 2]), value_of(text[i + 3])) {
            (Some(a), Some(b), Some(c), Some(d)) => {
                out.push(a * 4 + b / 16);
                out.push((b % 16) * 16 + c / 4);
                out.push((c % 4) * 64 + d);
                proof {
                    let triple = seq![
                        (a * 4 + b / 16) as u8,
                        ((b % 16) * 16 + c / 4) as u8,
                        ((c % 4) * 64 + d) as u8,
                    ];
                    assert(out@ =~= old_out + triple);
                    assert(decode(tail) == prepend(triple, decode(text@.skip(i + 4))));
                    if decode(text@.skip(i + 4)) is Some {
                        let rest = decode(text@.skip(i + 4))->Some_0;
                        assert(old_out + (triple + rest) =~= out@ + rest);
                    }
                }
            },
            _ => {
                return None;
            },
        }
        i = i + 4;
    }
    let ghost tail = text@.skip(i as int);
    if len - i == 0 {
        proof {
            assert(out@ + Seq::<u8>::empty() =~= out@);
        }
        Some(out)
    } else if len - i == 1 {
        None
    } else if len - i == 2 {
        match (value_of(text[i]), value_of(text[i + 1])) {
            (Some(a), Some(b)) => {
                if b % 16 == 0 {
                    out.push(a * 4 + b / 16);
                    Some(out)
                } else {
                    None
                }
            },
            _ => None,
        }
    } else {
        match (value_of(text[i]), value_of(text[i + 1]), value_of(text[i + 2])) {
            (Some(a), Some(b), Some(c)) => {
                if c % 4 == 0 {
                    out.push(a * 4 + b / 16);
                    out.push((b % 16) * 16 + c / 4);
                    Some(out)
                } else {
                    None
                }
            },
            _ => None,
        }
    }
}

} // verus!
