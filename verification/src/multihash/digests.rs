//! The hash functions, as the digest crates compute them.
//!
//! Nothing is proved of a digest here. Each function below has a name for
//! the digest of an input, and a wrapper that calls the hash function and
//! claims that it returns the digest so named, with the length that the
//! function's output type fixes.

use sha2::Digest;
use vstd::prelude::*;

verus! {

/// The SHA-1 digest of `input`.
pub uninterp spec fn spec_sha1(input: Seq<u8>) -> Seq<u8>;

/// Calls `Digest::digest` of `sha1::Sha1`.
///
/// The claim: the result is the SHA-1 digest of `input`, a function of
/// `input` alone, and is 20 bytes long.
#[verifier::external_body]
pub(crate) fn sha1_digest(input: &[u8]) -> (out: Vec<u8>)
    ensures
        out@ == spec_sha1(input@),
        out@.len() == 20,
{
    sha1::Sha1::digest(input).to_vec()
}

/// The SHA-256 digest of `input`.
pub uninterp spec fn spec_sha2_256(input: Seq<u8>) -> Seq<u8>;

/// Calls `Digest::digest` of `sha2::Sha256`.
///
/// The claim: the result is the SHA-256 digest of `input`, a function of
/// `input` alone, and is 32 bytes long.
#[verifier::external_body]
pub(crate) fn sha2_256_digest(input: &[u8]) -> (out: Vec<u8>)
    ensures
        out@ == spec_sha2_256(input@),
        out@.len() == 32,
{
    sha2::Sha256::digest(input).to_vec()
}

/// The SHA-512 digest of `input`.
pub uninterp spec fn spec_sha2_512(input: Seq<u8>) -> Seq<u8>;

/// Calls `Digest::digest` of `sha2::Sha512`.
///
/// The claim: the result is the SHA-512 digest of `input`, a function of
/// `input` alone, and is 64 bytes long.
#[verifier::external_body]
pub(crate) fn sha2_512_digest(input: &[u8]) -> (out: Vec<u8>)
    ensures
        out@ == spec_sha2_512(input@),
        out@.len() == 64,
{
    sha2::Sha512::digest(input).to_vec()
}

/// The SHA3-224 digest of `input`.
pub uninterp spec fn spec_sha3_224(input: Seq<u8>) -> Seq<u8>;

/// Calls `Digest::digest` of `sha3::Sha3_224`.
///
/// The claim: the result is the SHA3-224 digest of `input`, a function of
/// `input` alone, and is 28 bytes long.
#[verifier::external_body]
pub(crate) fn sha3_224_digest(input: &[u8]) -> (out: Vec<u8>)
    ensures
        out@ == spec_sha3_224(input@),
        out@.len() == 28,
{
    sha3::Sha3_224::digest(input).to_vec()
}

/// The SHA3-256 digest of `input`.
pub uninterp spec fn spec_sha3_256(input: Seq<u8>) -> Seq<u8>;

/// Calls `Digest::digest` of `sha3::Sha3_256`.
///
/// The claim: the result is the SHA3-256 digest of `input`, a function of
/// `input` alone, and is 32 bytes long.
#[verifier::external_body]
pub(crate) fn sha3_256_digest(input: &[u8]) -> (out: Vec<u8>)
    ensures
        out@ == spec_sha3_256(input@),
        out@.len() == 32,
{
    sha3::Sha3_256::digest(input).to_vec()
}

/// The SHA3-384 digest of `input`.
pub uninterp spec fn spec_sha3_384(input: Seq<u8>) -> Seq<u8>;

/// Calls `Digest::digest` of `sha3::Sha3_384`.
///
/// The claim: the result is the SHA3-384 digest of `input`, a function of
/// `input` alone, and is 48 bytes long.
#[verifier::external_body]
pub(crate) fn sha3_384_digest(input: &[u8]) -> (out: Vec<u8>)
    ensures
        out@ == spec_sha3_384(input@),
        out@.len() == 48,
{
    sha3::Sha3_384::digest(input).to_vec()
}

/// The SHA3-512 digest of `input`.
pub uninterp spec fn spec_sha3_512(input: Seq<u8>) -> Seq<u8>;

/// Calls `Digest::digest` of `sha3::Sha3_512`.
///
/// The claim: the result is the SHA3-512 digest of `input`, a function of
/// `input` alone, and is 64 bytes long.
#[verifier::external_body]
pub(crate) fn sha3_512_digest(input: &[u8]) -> (out: Vec<u8>)
    ensures
        out@ == spec_sha3_512(input@),
        out@.len() == 64,
{
    sha3::Sha3_512::digest(input).to_vec()
}

/// The Keccak-224 digest of `input`.
pub uninterp spec fn spec_keccak224(input: Seq<u8>) -> Seq<u8>;

/// Calls `Digest::digest` of `sha3::Keccak224`.
///
/// The claim: the result is the Keccak-224 digest of `input`, a function of
/// `input` alone, and is 28 bytes long.
#[verifier::external_body]
pub(crate) fn keccak224_digest(input: &[u8]) -> (out: Vec<u8>)
    ensures
        out@ == spec_keccak224(input@),
        out@.len() == 28,
{
    sha3::Keccak224::digest(input).to_vec()
}

/// The Keccak-256 digest of `input`.
pub uninterp spec fn spec_keccak256(input: Seq<u8>) -> Seq<u8>;

/// Calls `Digest::digest` of `sha3::Keccak256`.
///
/// The claim: the result is the Keccak-256 digest of `input`, a function of
/// `input` alone, and is 32 bytes long.
#[verifier::external_body]
pub(crate) fn keccak256_digest(input: &[u8]) -> (out: Vec<u8>)
    ensures
        out@ == spec_keccak256(input@),
        out@.len() == 32,
{
    sha3::Keccak256::digest(input).to_vec()
}

/// The Keccak-384 digest of `input`.
pub uninterp spec fn spec_keccak384(input: Seq<u8>) -> Seq<u8>;

/// Calls `Digest::digest` of `sha3::Keccak384`.
///
/// The claim: the result is the Keccak-384 digest of `input`, a function of
/// `input` alone, and is 48 bytes long.
#[verifier::external_body]
pub(crate) fn keccak384_digest(input: &[u8]) -> (out: Vec<u8>)
    ensures
        out@ == spec_keccak384(input@),
        out@.len() == 48,
{
    sha3::Keccak384::digest(input).to_vec()
}

/// The Keccak-512 digest of `input`.
pub uninterp spec fn spec_keccak512(input: Seq<u8>) -> Seq<u8>;

/// Calls `Digest::digest` of `sha3::Keccak512`.
///
/// The claim: the result is the Keccak-512 digest of `input`, a function of
/// `input` alone, and is 64 bytes long.
#[verifier::external_body]
pub(crate) fn keccak512_digest(input: &[u8]) -> (out: Vec<u8>)
    ensures
        out@ == spec_keccak512(input@),
        out@.len() == 64,
{
    sha3::Keccak512::digest(input).to_vec()
}

/// The BLAKE2b-512 digest of `input`.
pub uninterp spec fn spec_blake2b512(input: Seq<u8>) -> Seq<u8>;

/// Calls `Digest::digest` of `blake2::Blake2b`.
///
/// The claim: the result is the BLAKE2b-512 digest of `input`, a function of
/// `input` alone, and is 64 bytes long.
#[verifier::external_body]
pub(crate) fn blake2b512_digest(input: &[u8]) -> (out: Vec<u8>)
    ensures
        out@ == spec_blake2b512(input@),
        out@.len() == 64,
{
    blake2::Blake2b::digest(input).to_vec()
}

/// The BLAKE2s-256 digest of `input`.
pub uninterp spec fn spec_blake2s256(input: Seq<u8>) -> Seq<u8>;

/// Calls `Digest::digest` of `blake2::Blake2s`.
///
/// The claim: the result is the BLAKE2s-256 digest of `input`, a function of
/// `input` alone, and is 32 bytes long.
#[verifier::external_body]
pub(crate) fn blake2s256_digest(input: &[u8]) -> (out: Vec<u8>)
    ensures
        out@ == spec_blake2s256(input@),
        out@.len() == 32,
{
    blake2::Blake2s::digest(input).to_vec()
}

} // verus!
