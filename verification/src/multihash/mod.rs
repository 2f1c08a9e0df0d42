//! # Multihash
//!
//! A multihash is a byte string that names a hash algorithm and holds a
//! digest made with it: the algorithm's code as a variable-length integer,
//! the length of the digest in one byte, and the digest.
//!
//! A `Multihash` is a structure that contains a hashing algorithm, plus some hashed data.
//! A `MultihashRef` is the same as a `Multihash`, except that it doesn't own its data.

pub mod digests;
pub mod errors;
pub mod hashes;
pub mod varint;

use crate::bytes::push_range;
use crate::multihash::digests::{
    blake2b512_digest, blake2s256_digest, keccak224_digest, keccak256_digest, keccak384_digest,
    keccak512_digest, sha1_digest, sha2_256_digest, sha2_512_digest, sha3_224_digest,
    sha3_256_digest, sha3_384_digest, sha3_512_digest, spec_blake2b512, spec_blake2s256,
    spec_keccak224, spec_keccak256, spec_keccak384, spec_keccak512, spec_sha1, spec_sha2_256,
    spec_sha2_512, spec_sha3_224, spec_sha3_256, spec_sha3_384, spec_sha3_512,
};
use crate::multihash::errors::{DecodeError, DecodeOwnedError, EncodeError};
use crate::multihash::hashes::lemma_code_names_algorithm;
use crate::multihash::varint::{decode_u16, encode_u16, lemma_decode_undoes_encode, spec_decode_u16, spec_encode_u16};
use vstd::prelude::*;
use vstd::slice::slice_subrange;
use vstd::string::*;

verus! {

/// The digest of `input` under `hash`, for the algorithms that this library
/// computes.
pub open spec fn spec_digest(hash: hashes::Hash, input: Seq<u8>) -> Option<Seq<u8>> {
    match hash {
        hashes::Hash::SHA1 => Some(spec_sha1(input)),
        hashes::Hash::SHA2256 => Some(spec_sha2_256(input)),
        hashes::Hash::SHA2512 => Some(spec_sha2_512(input)),
        hashes::Hash::SHA3224 => Some(spec_sha3_224(input)),
        hashes::Hash::SHA3256 => Some(spec_sha3_256(input)),
        hashes::Hash::SHA3384 => Some(spec_sha3_384(input)),
        hashes::Hash::SHA3512 => Some(spec_sha3_512(input)),
        hashes::Hash::Keccak224 => Some(spec_keccak224(input)),
        hashes::Hash::Keccak256 => Some(spec_keccak256(input)),
        hashes::Hash::Keccak384 => Some(spec_keccak384(input)),
        hashes::Hash::Keccak512 => Some(spec_keccak512(input)),
        hashes::Hash::Blake2b512 => Some(spec_blake2b512(input)),
        hashes::Hash::Blake2s256 => Some(spec_blake2s256(input)),
        hashes::Hash::Blake2b256 => None,
        hashes::Hash::Blake2s128 => None,
    }
}

/// What stands in front of a digest: the code of the algorithm and the
/// length of its digests.
pub open spec fn spec_header(hash: hashes::Hash) -> Seq<u8> {
    spec_encode_u16(hash.spec_code()) + seq![hash.spec_size()]
}

/// The multihash of a digest made with `hash`.
pub open spec fn spec_wrap(hash: hashes::Hash, digest: Seq<u8>) -> Seq<u8> {
    spec_header(hash) + digest
}

/// The algorithm of the multihash that `input` is, or why it is none:
/// `input` must start with the code of an algorithm, go on with the length
/// of that algorithm's digests, and end in as many bytes.
pub open spec fn spec_check(input: Seq<u8>) -> Result<hashes::Hash, DecodeError> {
    if input.len() == 0 {
        Err(DecodeError::BadInputLength)
    } else {
        match spec_decode_u16(input) {
            None => Err(DecodeError::BadInputLength),
            Some((code, used)) => match hashes::Hash::spec_from_code(code) {
                None => Err(DecodeError::UnknownCode),
                Some(alg) => if input.len() - used != alg.spec_size() + 1 {
                    Err(DecodeError::BadInputLength)
                } else if input[used as int] != alg.spec_size() {
                    Err(DecodeError::BadInputLength)
                } else {
                    Ok(alg)
                },
            },
        }
    }
}

/// The digest that the multihash `input` holds.
pub open spec fn spec_payload(input: Seq<u8>) -> Seq<u8>
    recommends
        spec_check(input) is Ok,
{
    input.skip(spec_decode_u16(input).unwrap().1 as int + 1)
}

/// A digest of the right length, wrapped, is a multihash of its algorithm
/// and holds that digest.
pub proof fn lemma_wrap_is_valid(hash: hashes::Hash, digest: Seq<u8>)
    requires
        digest.len() == hash.spec_size(),
    ensures
        spec_check(spec_wrap(hash, digest)) == Ok::<hashes::Hash, DecodeError>(hash),
        spec_payload(spec_wrap(hash, digest)) == digest,
{
    let code = spec_encode_u16(hash.spec_code());
    let rest = seq![hash.spec_size()] + digest;
    let whole = spec_wrap(hash, digest);
    assert(whole =~= code + rest);
    lemma_decode_undoes_encode(hash.spec_code(), rest);
    lemma_code_names_algorithm(hash);
    assert(whole[code.len() as int] == hash.spec_size());
    assert(whole.skip(code.len() as int + 1) =~= digest);
}

/// Encodes data into a multihash.
///
/// # Errors
///
/// Will return an error if the specified hash type is not supported. See the docs for `Hash`
/// to see what is supported.
pub fn encode(hash: hashes::Hash, input: &[u8]) -> (r: Result<Multihash, EncodeError>)
    ensures
        match spec_digest(hash, input@) {
            Some(digest) => {
                &&& r is Ok
                &&& r->Ok_0@ == spec_wrap(hash, digest)
                &&& digest.len() == hash.spec_size()
                &&& spec_check(r->Ok_0@) == Ok::<hashes::Hash, DecodeError>(hash)
                &&& spec_payload(r->Ok_0@) == digest
            },
            None => r is Err && r->Err_0 == EncodeError::UnsupportedType,
        },
{
    let digest = match hash {
        hashes::Hash::SHA1 => sha1_digest(input),
        hashes::Hash::SHA2256 => sha2_256_digest(input),
        hashes::Hash::SHA2512 => sha2_512_digest(input),
        hashes::Hash::SHA3224 => sha3_224_digest(input),
        hashes::Hash::SHA3256 => sha3_256_digest(input),
        hashes::Hash::SHA3384 => sha3_384_digest(input),
        hashes::Hash::SHA3512 => sha3_512_digest(input),
        hashes::Hash::Keccak224 => keccak224_digest(input),
        hashes::Hash::Keccak256 => keccak256_digest(input),
        hashes::Hash::Keccak384 => keccak384_digest(input),
        hashes::Hash::Keccak512 => keccak512_digest(input),
        hashes::Hash::Blake2b512 => blake2b512_digest(input),
        hashes::Hash::Blake2s256 => blake2s256_digest(input),
        _ => {
            return Err(EncodeError::UnsupportedType);
        },
    };
    proof {
        lemma_wrap_is_valid(hash, digest@);
    }
    Ok(Multihash::wrap(hash, digest.as_slice()).unwrap())
}

/// Calls `rand::random`.
///
/// Nothing is claimed of the byte: it is a fresh random one at every call.
#[verifier::external_body]
fn random_byte() -> u8 {
    rand::random()
}

/// Represents a valid multihash.
#[derive(Debug, PartialEq, Eq, Hash)]
pub struct Multihash {
    bytes: Vec<u8>,
}

impl Clone for Multihash {
    fn clone(&self) -> (r: Multihash)
        ensures
            r@ == self@,
    {
        self.as_ref().into_owned()
    }
}

impl View for Multihash {
    type V = Seq<u8>;

    closed spec fn view(&self) -> Seq<u8> {
        self.bytes@
    }
}

impl Multihash {
    #[verifier::type_invariant]
    spec fn valid(&self) -> bool {
        spec_check(self.bytes@) is Ok
    }

    /// The multihash of a digest made with `hash`, or `None` where the
    /// digest has not the length of that algorithm's digests.
    pub fn wrap(hash: hashes::Hash, digest: &[u8]) -> (r: Option<Multihash>)
        ensures
            digest@.len() == hash.spec_size() <==> r is Some,
            r is Some ==> r->Some_0@ == spec_wrap(hash, digest@),
    {
        let size = hash.size();
        if digest.len() != size as usize {
            return None;
        }
        let mut output = encode_u16(hash.code());
        output.push(size);
        push_range(&mut output, digest, 0, digest.len());
        proof {
            assert(digest@.subrange(0, digest@.len() as int) =~= digest@);
            assert(output@ =~= spec_wrap(hash, digest@));
            lemma_wrap_is_valid(hash, digest@);
        }
        Some(Multihash { bytes: output })
    }

    /// The multihash that owns `bytes`, or the error with `bytes` in it.
    pub closed spec fn spec_from_bytes(bytes: Vec<u8>) -> Result<Multihash, DecodeOwnedError> {
        match spec_check(bytes@) {
            Ok(_) => Ok(Multihash { bytes }),
            Err(e) => Err(DecodeOwnedError { error: e, data: bytes }),
        }
    }

    /// Verifies whether `bytes` contains a valid multihash, and if so returns a `Multihash`.
    pub fn from_bytes(bytes: Vec<u8>) -> (r: Result<Multihash, DecodeOwnedError>)
        ensures
            r == Multihash::spec_from_bytes(bytes),
            match spec_check(bytes@) {
                Ok(_) => r is Ok && r->Ok_0@ == bytes@,
                Err(e) => r is Err && r->Err_0.error == e && r->Err_0.data@ == bytes@,
            },
    {
        if let Err(err) = MultihashRef::from_slice(bytes.as_slice()) {
            return Err(DecodeOwnedError { error: err, data: bytes });
        }
        Ok(Multihash { bytes })
    }

    /// Generates a random `Multihash` from a cryptographically secure PRNG.
    ///
    /// Whatever the bytes drawn, the result is a multihash of `hash`.
    pub fn random(hash: hashes::Hash) -> (r: Multihash)
        ensures
            spec_check(r@) == Ok::<hashes::Hash, DecodeError>(hash),
            r@.len() == spec_header(hash).len() + hash.spec_size(),
            spec_header(hash).is_prefix_of(r@),
    {
        let size = hash.size();
        let mut digest: Vec<u8> = Vec::new();
        let mut i: u8 = 0;
        while i < size
            invariant
                i <= size,
                digest@.len() == i,
            decreases size - i,
        {
            digest.push(random_byte());
            i += 1;
        }
        proof {
            lemma_wrap_is_valid(hash, digest@);
        }
        Multihash::wrap(hash, digest.as_slice()).unwrap()
    }

    /// Returns the bytes representation of the multihash.
    pub fn into_bytes(self) -> (bytes: Vec<u8>)
        ensures
            bytes@ == self@,
            spec_check(bytes@) is Ok,
    {
        proof {
            use_type_invariant(&self);
        }
        self.bytes
    }

    /// Returns the bytes representation of this multihash.
    pub fn as_bytes(&self) -> (bytes: &[u8])
        ensures
            bytes@ == self@,
            spec_check(bytes@) is Ok,
    {
        proof {
            use_type_invariant(self);
        }
        self.bytes.as_slice()
    }

    /// Builds a `MultihashRef` corresponding to this `Multihash`.
    pub fn as_ref(&self) -> (r: MultihashRef<'_>)
        ensures
            r@ == self@,
    {
        proof {
            use_type_invariant(self);
        }
        MultihashRef { bytes: self.bytes.as_slice() }
    }

    /// Returns which hashing algorithm is used in this multihash.
    pub fn algorithm(&self) -> (alg: hashes::Hash)
        ensures
            spec_check(self@) == Ok::<hashes::Hash, DecodeError>(alg),
    {
        self.as_ref().algorithm()
    }

    /// Returns the hashed data.
    pub fn digest(&self) -> (digest: &[u8])
        ensures
            digest@ == spec_payload(self@),
            spec_check(self@) is Ok,
            digest@.len() == spec_check(self@)->Ok_0.spec_size(),
    {
        self.as_ref().digest()
    }
}

impl<'a> PartialEq<MultihashRef<'a>> for Multihash {
    fn eq(&self, other: &MultihashRef<'a>) -> (r: bool)
        ensures
            r <==> self@ == other@,
    {
        same_bytes(self.bytes.as_slice(), other.bytes)
    }
}

impl<'a> vstd::std_specs::cmp::PartialEqSpecImpl<MultihashRef<'a>> for Multihash {
    open spec fn obeys_eq_spec() -> bool {
        true
    }

    open spec fn eq_spec(&self, other: &MultihashRef<'a>) -> bool {
        self@ == other@
    }
}

impl vstd::std_specs::convert::TryFromSpecImpl<Vec<u8>> for Multihash {
    open spec fn obeys_try_from_spec() -> bool {
        true
    }

    open spec fn try_from_spec(v: Vec<u8>) -> Result<Multihash, DecodeOwnedError> {
        Multihash::spec_from_bytes(v)
    }
}

impl std::convert::TryFrom<Vec<u8>> for Multihash {
    type Error = DecodeOwnedError;

    fn try_from(value: Vec<u8>) -> (r: Result<Multihash, DecodeOwnedError>) {
        Multihash::from_bytes(value)
    }
}

/// Represents a valid multihash.
#[derive(Debug, Copy, Clone, PartialEq, Eq, Hash)]
pub struct MultihashRef<'a> {
    bytes: &'a [u8],
}

impl<'a> View for MultihashRef<'a> {
    type V = Seq<u8>;

    closed spec fn view(&self) -> Seq<u8> {
        self.bytes@
    }
}

impl<'a> MultihashRef<'a> {
    #[verifier::type_invariant]
    spec fn valid(&self) -> bool {
        spec_check(self.bytes@) is Ok
    }

    /// Verifies whether `bytes` contains a valid multihash, and if so returns a `MultihashRef`.
    pub fn from_slice(input: &'a [u8]) -> (r: Result<MultihashRef<'a>, DecodeError>)
        ensures
            match spec_check(input@) {
                Ok(_) => r is Ok && r->Ok_0@ == input@,
                Err(e) => r is Err && r->Err_0 == e,
            },
    {
        if input.len() == 0 {
            return Err(DecodeError::BadInputLength);
        }
        // NOTE: We choose u16 here because there is no hashing algorithm implemented in this crate
        // whose length exceeds 2^16 - 1.
        let (code, bytes) = match decode_u16(input) {
            Some(decoded) => decoded,
            None => {
                return Err(DecodeError::BadInputLength);
            },
        };
        let alg = match hashes::Hash::from_code(code) {
            Some(alg) => alg,
            None => {
                return Err(DecodeError::UnknownCode);
            },
        };
        let hash_len = alg.size() as usize;

        // Length of input after hash code should be exactly hash_len + 1
        if bytes.len() != hash_len + 1 {
            return Err(DecodeError::BadInputLength);
        }
        if bytes[0] as usize != hash_len {
            return Err(DecodeError::BadInputLength);
        }
        Ok(MultihashRef { bytes: input })
    }

    /// Returns which hashing algorithm is used in this multihash.
    pub fn algorithm(&self) -> (alg: hashes::Hash)
        ensures
            spec_check(self@) == Ok::<hashes::Hash, DecodeError>(alg),
    {
        proof {
            use_type_invariant(self);
        }
        let (code, _) = decode_u16(self.bytes).unwrap();
        hashes::Hash::from_code(code).unwrap()
    }

    /// Returns the hashed data.
    pub fn digest(&self) -> (digest: &'a [u8])
        ensures
            digest@ == spec_payload(self@),
            spec_check(self@) is Ok,
            digest@.len() == spec_check(self@)->Ok_0.spec_size(),
    {
        proof {
            use_type_invariant(self);
        }
        let (_, bytes) = decode_u16(self.bytes).unwrap();
        let digest = slice_subrange(bytes, 1, bytes.len());
        assert(digest@ =~= spec_payload(self@));
        digest
    }

    /// Builds a `Multihash` that owns the data.
    ///
    /// This operation allocates.
    pub fn into_owned(&self) -> (r: Multihash)
        ensures
            r@ == self@,
    {
        proof {
            use_type_invariant(self);
        }
        let mut bytes: Vec<u8> = Vec::new();
        push_range(&mut bytes, self.bytes, 0, self.bytes.len());
        assert(bytes@ =~= self.bytes@);
        Multihash { bytes }
    }

    /// Returns the bytes representation of this multihash.
    pub fn as_bytes(&self) -> (bytes: &'a [u8])
        ensures
            bytes@ == self@,
            spec_check(bytes@) is Ok,
    {
        proof {
            use_type_invariant(self);
        }
        self.bytes
    }
}

impl<'a> PartialEq<Multihash> for MultihashRef<'a> {
    fn eq(&self, other: &Multihash) -> (r: bool)
        ensures
            r <==> self@ == other@,
    {
        same_bytes(self.bytes, other.bytes.as_slice())
    }
}

impl<'a> vstd::std_specs::cmp::PartialEqSpecImpl<Multihash> for MultihashRef<'a> {
    open spec fn obeys_eq_spec() -> bool {
        true
    }

    open spec fn eq_spec(&self, other: &Multihash) -> bool {
        self@ == other@
    }
}

/// Whether two byte strings are the same.
fn same_bytes(a: &[u8], b: &[u8]) -> (r: bool)
    ensures
        r <==> a@ == b@,
{
    if a.len() != b.len() {
        return false;
    }
    let mut i: usize = 0;
    while i < a.len()
        invariant
            i <= a@.len(),
            a@.len() == b@.len(),
            a@.subrange(0, i as int) == b@.subrange(0, i as int),
        decreases a@.len() - i,
    {
        if a[i] != b[i] {
            return false;
        }
        i += 1;
        assert(a@.subrange(0, i as int) =~= a@.subrange(0, i - 1).push(a@[i - 1]));
        assert(b@.subrange(0, i as int) =~= b@.subrange(0, i - 1).push(b@[i - 1]));
    }
    assert(a@ =~= a@.subrange(0, i as int));
    assert(b@ =~= b@.subrange(0, i as int));
    true
}

/// The character that stands for a number below 16 in base 16.
pub open spec fn spec_hex_digit(n: u8) -> char
    recommends
        n < 16,
{
    if n == 0 {
        '0'
    } else if n == 1 {
        '1'
    } else if n == 2 {
        '2'
    } else if n == 3 {
        '3'
    } else if n == 4 {
        '4'
    } else if n == 5 {
        '5'
    } else if n == 6 {
        '6'
    } else if n == 7 {
        '7'
    } else if n == 8 {
        '8'
    } else if n == 9 {
        '9'
    } else if n == 10 {
        'a'
    } else if n == 11 {
        'b'
    } else if n == 12 {
        'c'
    } else if n == 13 {
        'd'
    } else if n == 14 {
        'e'
    } else {
        'f'
    }
}

/// The hex representation of bytes: two characters to a byte, the high
/// half first, in lower case.
pub open spec fn spec_to_hex(bytes: Seq<u8>) -> Seq<char> {
    Seq::new(
        2 * bytes.len(),
        |i: int|
            if i % 2 == 0 {
                spec_hex_digit(bytes[i / 2] / 16)
            } else {
                spec_hex_digit(bytes[i / 2] % 16)
            },
    )
}

fn hex_digit(n: u8) -> (s: &'static str)
    requires
        n < 16,
    ensures
        s@ == seq![spec_hex_digit(n)],
{
    proof {
        reveal_strlit("0");
        reveal_strlit("1");
        reveal_strlit("2");
        reveal_strlit("3");
        reveal_strlit("4");
        reveal_strlit("5");
        reveal_strlit("6");
        reveal_strlit("7");
        reveal_strlit("8");
        reveal_strlit("9");
        reveal_strlit("a");
        reveal_strlit("b");
        reveal_strlit("c");
        reveal_strlit("d");
        reveal_strlit("e");
        reveal_strlit("f");
    }
    let s = if n == 0 {
        "0"
    } else if n == 1 {
        "1"
    } else if n == 2 {
        "2"
    } else if n == 3 {
        "3"
    } else if n == 4 {
        "4"
    } else if n == 5 {
        "5"
    } else if n == 6 {
        "6"
    } else if n == 7 {
        "7"
    } else if n == 8 {
        "8"
    } else if n == 9 {
        "9"
    } else if n == 10 {
        "a"
    } else if n == 11 {
        "b"
    } else if n == 12 {
        "c"
    } else if n == 13 {
        "d"
    } else if n == 14 {
        "e"
    } else {
        "f"
    };
    assert(s@ =~= seq![spec_hex_digit(n)]);
    s
}

/// Convert bytes to a hex representation
pub fn to_hex(bytes: &[u8]) -> (hex: String)
    ensures
        hex@ == spec_to_hex(bytes@),
{
    let mut hex = String::new();
    let mut i: usize = 0;
    while i < bytes.len()
        invariant
            i <= bytes@.len(),
            hex@ == spec_to_hex(bytes@.subrange(0, i as int)),
        decreases bytes@.len() - i,
    {
        let byte = bytes[i];
        let ghost before = hex@;
        hex.append(hex_digit(byte / 16));
        hex.append(hex_digit(byte % 16));
        i += 1;
        assert(hex@ =~= spec_to_hex(bytes@.subrange(0, i as int))) by {
            let now = bytes@.subrange(0, i as int);
            let prev = bytes@.subrange(0, i - 1);
            assert(hex@ == before + seq![spec_hex_digit(byte / 16)] + seq![
                spec_hex_digit(byte % 16),
            ]);
            assert forall|k: int| 0 <= k < 2 * i implies hex@[k] == spec_to_hex(now)[k] by {
                if k < 2 * (i - 1) {
                    assert(hex@[k] == spec_to_hex(prev)[k]);
                    assert(prev[k / 2] == now[k / 2]);
                } else {
                    assert(now[k / 2] == byte);
                }
            }
        }
    }
    assert(bytes@.subrange(0, i as int) =~= bytes@);
    hex
}

} // verus!
