//! Unsigned variable-length integers of at most 16 bits.
//!
//! The encoding keeps seven bits of the number in each byte, the least
//! significant first, and sets the eighth bit of every byte but the last.

use unsigned_varint::{decode, encode};
use vstd::prelude::*;

verus! {

/// The encoding of `n`.
pub open spec fn spec_encode_u16(n: u16) -> Seq<u8> {
    if n < 0x80 {
        seq![n as u8]
    } else if n < 0x4000 {
        seq![(n % 128 + 128) as u8, (n / 128) as u8]
    } else {
        seq![(n % 128 + 128) as u8, (n / 128 % 128 + 128) as u8, (n / 16384) as u8]
    }
}

/// The number at the start of `input` and the count of bytes that encode
/// it, or `None` where `input` starts with no encoding: where it ends before
/// a last byte, or three bytes go by without one.
///
/// Of a third byte only the two lowest bits fit into 16 bits. The others
/// are dropped.
pub open spec fn spec_decode_u16(input: Seq<u8>) -> Option<(u16, nat)> {
    if input.len() >= 1 && input[0] < 0x80 {
        Some((input[0] as u16, 1))
    } else if input.len() >= 2 && input[1] < 0x80 {
        Some(((input[0] - 128 + input[1] * 128) as u16, 2))
    } else if input.len() >= 3 && input[2] < 0x80 {
        Some(((input[0] - 128 + (input[1] - 128) * 128 + (input[2] % 4) * 16384) as u16, 3))
    } else {
        None
    }
}

/// Calls `unsigned_varint::encode::u16`.
///
/// The claim: the bytes returned are the encoding of `n` as
/// [`spec_encode_u16`] gives it, one to three bytes with no padding.
#[verifier::external_body]
pub(crate) fn encode_u16(n: u16) -> (out: Vec<u8>)
    ensures
        out@ == spec_encode_u16(n),
{
    let mut buf = [0u8; 3];
    encode::u16(n, &mut buf).to_vec()
}

/// Calls `unsigned_varint::decode::u16`.
///
/// The claim: it succeeds where [`spec_decode_u16`] finds a number, returns
/// that number and the input behind its encoding, and fails everywhere else.
#[verifier::external_body]
pub(crate) fn decode_u16<'a>(input: &'a [u8]) -> (r: Option<(u16, &'a [u8])>)
    ensures
        match spec_decode_u16(input@) {
            Some((n, used)) => r is Some && r->Some_0.0 == n && r->Some_0.1@ == input@.skip(
                used as int,
            ),
            None => r is None,
        },
{
    match decode::u16(input) {
        Ok((n, rest)) => Some((n, rest)),
        Err(_) => None,
    }
}

/// Decoding undoes encoding: in front of any bytes, the encoding of a
/// number is read back as that number.
pub proof fn lemma_decode_undoes_encode(n: u16, rest: Seq<u8>)
    ensures
        spec_decode_u16(spec_encode_u16(n) + rest) == Some((n, spec_encode_u16(n).len())),
        1 <= spec_encode_u16(n).len() <= 3,
{
    let e = spec_encode_u16(n);
    let input = e + rest;
    if n < 0x80 {
        assert(input[0] == e[0]);
    } else if n < 0x4000 {
        assert(input[0] == e[0] && input[1] == e[1]);
    } else {
        assert(input[0] == e[0] && input[1] == e[1] && input[2] == e[2]);
    }
}

} // verus!
