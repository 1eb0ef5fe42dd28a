//! Record identifiers: ninety-six bits, written as twenty-four hex digits.

use crate::hex::{
    from_hex, lemma_from_hex_bound, lemma_hex_round_trip, lemma_pow16_widths, lemma_to_hex_len,
    read_hex, to_hex, write_hex,
};
use vstd::prelude::*;
use vstd::slice::slice_subrange;

verus! {

/// The identifier of a stored record. The first thirty-two bits are the
/// creation time in seconds, the other sixty-four tell records of one second
/// apart.
#[derive(Clone, Copy, Debug, PartialEq, Eq, Structural, Hash)]
pub struct ObjectId {
    pub timestamp: u32,
    pub tail: u64,
}

/// The identifier that twenty-four hex digits denote.
pub open spec fn parse_object_id(text: Seq<u8>) -> Option<ObjectId> {
    if text.len() != 24 {
        None
    } else {
        match (from_hex(text.subrange(0, 8)), from_hex(text.subrange(8, 24))) {
            (Some(t), Some(l)) => Some(ObjectId { timestamp: t as u32, tail: l as u64 }),
            _ => None,
        }
    }
}

impl ObjectId {
    /// The twenty-four lower-case hex digits of the identifier.
    pub open spec fn hex(self) -> Seq<u8> {
        to_hex(self.timestamp as nat, 8) + to_hex(self.tail as nat, 16)
    }

    /// The identifier as text.
    pub fn to_hex(&self) -> (text: Vec<u8>)
        ensures
            text@ == self.hex(),
    {
        let mut text: Vec<u8> = Vec::new();
        write_hex(self.timestamp as u64, 8, &mut text);
        write_hex(self.tail, 16, &mut text);
        text
    }

    /// Reads an identifier from its text: exactly twenty-four hex digits of
    /// either case.
    pub fn parse_str(text: &[u8]) -> (id: Option<ObjectId>)
        ensures
            id == parse_object_id(text@),
    {
        if text.len() != 24 {
            return None;
        }
        let high = read_hex(slice_subrange(text, 0, 8));
        let low = read_hex(slice_subrange(text, 8, 24));
        match (high, low) {
            (Some(t), Some(l)) => {
                proof {
                    lemma_from_hex_bound(text@.subrange(0, 8));
                    lemma_pow16_widths();
                }
                Some(ObjectId { timestamp: t as u32, tail: l })
            },
            _ => None,
        }
    }
}

/// An identifier's text has twenty-four bytes and reads back as the identifier.
pub proof fn lemma_object_id_round_trip(id: ObjectId)
    ensures
        id.hex().len() == 24,
        parse_object_id(id.hex()) == Some(id),
{
    let high = to_hex(id.timestamp as nat, 8);
    let low = to_hex(id.tail as nat, 16);
    lemma_to_hex_len(id.timestamp as nat, 8);
    lemma_to_hex_len(id.tail as nat, 16);
    lemma_pow16_widths();
    lemma_hex_round_trip(id.timestamp as nat, 8);
    lemma_hex_round_trip(id.tail as nat, 16);
    assert(id.hex().subrange(0, 8) =~= high);
    assert(id.hex().subrange(8, 24) =~= low);
}

} // verus!
