//! Object ids and their hexadecimal form.

use vstd::prelude::*;

verus! {

/// The number of bytes of an object id.
pub const ID_LEN: usize = 20;

/// The number of hexadecimal digits that spell an object id.
pub const HEX_LEN: usize = 40;

/// A hexadecimal digit of either case.
pub open spec fn is_hex_digit(b: u8) -> bool {
    (0x30 <= b <= 0x39) || (0x61 <= b <= 0x66) || (0x41 <= b <= 0x46)
}

/// A digit `0`-`9` or a lower-case letter `a`-`f`.
pub open spec fn is_lower_hex_digit(b: u8) -> bool {
    (0x30 <= b <= 0x39) || (0x61 <= b <= 0x66)
}

/// The number that a hexadecimal digit stands for.
pub open spec fn hex_value(b: u8) -> int {
    if 0x30 <= b <= 0x39 {
        b - 0x30
    } else if 0x61 <= b <= 0x66 {
        b - 0x61 + 10
    } else if 0x41 <= b <= 0x46 {
        b - 0x41 + 10
    } else {
        0
    }
}

/// The lower-case digit for a number below sixteen.
pub open spec fn lower_hex_digit(v: int) -> u8 {
    if v < 10 {
        (0x30 + v) as u8
    } else {
        (0x61 + v - 10) as u8
    }
}

/// Every byte of `s` is a lower-case hexadecimal digit.
pub open spec fn all_lower_hex(s: Seq<u8>) -> bool {
    forall|i: int| 0 <= i < s.len() ==> is_lower_hex_digit(#[trigger] s[i])
}

/// Every byte of `s` is a hexadecimal digit.
pub open spec fn all_hex(s: Seq<u8>) -> bool {
    forall|i: int| 0 <= i < s.len() ==> is_hex_digit(#[trigger] s[i])
}

/// The bytes that the digit pairs of `hex` spell, high digit first.
pub open spec fn decode_hex(hex: Seq<u8>) -> Seq<u8> {
    Seq::new(
        (hex.len() / 2) as nat,
        |i: int| (16 * hex_value(hex[2 * i]) + hex_value(hex[2 * i + 1])) as u8,
    )
}

/// Two lower-case digits for each byte, high digit first.
pub open spec fn encode_hex(bytes: Seq<u8>) -> Seq<u8> {
    Seq::new(
        2 * bytes.len(),
        |i: int|
            if i % 2 == 0 {
                lower_hex_digit(bytes[i / 2] as int / 16)
            } else {
                lower_hex_digit(bytes[i / 2] as int % 16)
            },
    )
}

/// The content hash that identifies an object: twenty bytes.
#[derive(Clone, Copy, Debug, PartialEq, Eq, Hash)]
pub struct ObjectId {
    pub bytes: [u8; 20],
}

impl View for ObjectId {
    type V = Seq<u8>;

    open spec fn view(&self) -> Seq<u8> {
        self.bytes@
    }
}

/// What `git_hash::ObjectId::from_hex` makes of `hex`: an id exactly for forty
/// hexadecimal digits of either case, its bytes being what the digit pairs spell.
#[verifier::external_body]
fn parse_hex_id(hex: &[u8]) -> (parsed: Option<ObjectId>)
    ensures
        parsed.is_some() == (hex@.len() == HEX_LEN && all_hex(hex@)),
        parsed.is_some() ==> parsed.unwrap()@ == decode_hex(hex@),
{
    match git_hash::ObjectId::from_hex(hex) {
        Ok(git_hash::ObjectId::Sha1(bytes)) => Some(ObjectId { bytes }),
        Err(_) => None,
    }
}

fn digit_of(v: u8) -> (d: u8)
    requires
        v < 16,
    ensures
        d == lower_hex_digit(v as int),
        is_lower_hex_digit(d),
        hex_value(d) == v,
{
    if v < 10 {
        0x30 + v
    } else {
        0x61 + (v - 10)
    }
}

impl ObjectId {
    /// Reads an id from its hexadecimal form, in which both cases of the
    /// letters are accepted.
    pub fn from_hex(hex: &[u8]) -> (r: Option<ObjectId>)
        ensures
            r is Some <==> hex@.len() == HEX_LEN && all_hex(hex@),
            r matches Some(id) ==> id@ == decode_hex(hex@),
    {
        parse_hex_id(hex)
    }

    /// The forty lower-case hexadecimal digits of this id.
    pub fn to_hex(&self) -> (out: Vec<u8>)
        ensures
            out@ == encode_hex(self@),
    {
        let mut out: Vec<u8> = Vec::new();
        let mut i: usize = 0;
        while i < 20
            invariant
                i <= 20,
                out@.len() == 2 * i,
                forall|k: int| 0 <= k < 2 * i ==> out@[k] == encode_hex(self@)[k],
            decreases 20 - i,
        {
            let b: u8 = self.bytes[i];
            out.push(digit_of(b / 16));
            out.push(digit_of(b % 16));
            i += 1;
        }
        assert(out@ =~= encode_hex(self@));
        out
    }
}

/// The digits that `encode_hex` writes are lower-case, and reading them
/// back gives the bytes they were written from.
pub proof fn lemma_hex_round_trip(bytes: Seq<u8>)
    ensures
        encode_hex(bytes).len() == 2 * bytes.len(),
        all_lower_hex(encode_hex(bytes)),
        decode_hex(encode_hex(bytes)) == bytes,
{
    let hex = encode_hex(bytes);
    assert forall|i: int| 0 <= i < hex.len() implies is_lower_hex_digit(#[trigger] hex[i]) by {
        let b = bytes[i / 2];
        assert(0 <= b as int / 16 < 16);
        assert(0 <= b as int % 16 < 16);
    }
    assert forall|i: int| 0 <= i < bytes.len() implies decode_hex(hex)[i] == bytes[i] by {
        let b = bytes[i];
        assert((2 * i) % 2 == 0);
        assert((2 * i + 1) % 2 == 1);
        assert((2 * i) / 2 == i);
        assert((2 * i + 1) / 2 == i);
        assert(hex[2 * i] == lower_hex_digit(b as int / 16));
        assert(hex[2 * i + 1] == lower_hex_digit(b as int % 16));
        assert(hex_value(lower_hex_digit(b as int / 16)) == b as int / 16);
        assert(hex_value(lower_hex_digit(b as int % 16)) == b as int % 16);
        assert(16 * (b as int / 16) + b as int % 16 == b as int);
    }
    assert(decode_hex(hex) =~= bytes);
}

} // verus!
