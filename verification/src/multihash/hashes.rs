//! The hash algorithms of the multihash table.

use vstd::prelude::*;

verus! {

/// A hash algorithm that the multihash table lists.
///
/// Not every listed algorithm can be computed by this library.
#[derive(PartialEq, Eq, Structural, Clone, Copy, Debug, Hash)]
pub enum Hash {
    /// SHA-1 (20-byte hash size)
    SHA1,
    /// SHA-256 (32-byte hash size)
    SHA2256,
    /// SHA-512 (64-byte hash size)
    SHA2512,
    /// SHA3-512 (64-byte hash size)
    SHA3512,
    /// SHA3-384 (48-byte hash size)
    SHA3384,
    /// SHA3-256 (32-byte hash size)
    SHA3256,
    /// SHA3-224 (28-byte hash size)
    SHA3224,
    /// Keccak-224 (28-byte hash size)
    Keccak224,
    /// Keccak-256 (32-byte hash size)
    Keccak256,
    /// Keccak-384 (48-byte hash size)
    Keccak384,
    /// Keccak-512 (64-byte hash size)
    Keccak512,
    /// BLAKE2b-512 (64-byte hash size)
    Blake2b512,
    /// BLAKE2b-256 (32-byte hash size)
    Blake2b256,
    /// BLAKE2s-256 (32-byte hash size)
    Blake2s256,
    /// BLAKE2s-128 (16-byte hash size)
    Blake2s128,
}

impl Hash {
    /// The code of the algorithm in the multihash table.
    pub open spec fn spec_code(&self) -> u16 {
        match *self {
            Hash::SHA1 => 0x11,
            Hash::SHA2256 => 0x12,
            Hash::SHA2512 => 0x13,
            Hash::SHA3224 => 0x17,
            Hash::SHA3256 => 0x16,
            Hash::SHA3384 => 0x15,
            Hash::SHA3512 => 0x14,
            Hash::Keccak224 => 0x1A,
            Hash::Keccak256 => 0x1B,
            Hash::Keccak384 => 0x1C,
            Hash::Keccak512 => 0x1D,
            Hash::Blake2b512 => 0xB240,
            Hash::Blake2b256 => 0xB220,
            Hash::Blake2s256 => 0xB260,
            Hash::Blake2s128 => 0xB250,
        }
    }

    /// The length in bytes of a digest of the algorithm.
    pub open spec fn spec_size(&self) -> u8 {
        match *self {
            Hash::SHA1 => 20,
            Hash::SHA2256 => 32,
            Hash::SHA2512 => 64,
            Hash::SHA3224 => 28,
            Hash::SHA3256 => 32,
            Hash::SHA3384 => 48,
            Hash::SHA3512 => 64,
            Hash::Keccak224 => 28,
            Hash::Keccak256 => 32,
            Hash::Keccak384 => 48,
            Hash::Keccak512 => 64,
            Hash::Blake2b512 => 64,
            Hash::Blake2b256 => 32,
            Hash::Blake2s256 => 32,
            Hash::Blake2s128 => 16,
        }
    }

    /// The algorithm that a code of the multihash table stands for.
    pub open spec fn spec_from_code(code: u16) -> Option<Hash> {
        if code == 0x11 {
            Some(Hash::SHA1)
        } else if code == 0x12 {
            Some(Hash::SHA2256)
        } else if code == 0x13 {
            Some(Hash::SHA2512)
        } else if code == 0x14 {
            Some(Hash::SHA3512)
        } else if code == 0x15 {
            Some(Hash::SHA3384)
        } else if code == 0x16 {
            Some(Hash::SHA3256)
        } else if code == 0x17 {
            Some(Hash::SHA3224)
        } else if code == 0x1A {
            Some(Hash::Keccak224)
        } else if code == 0x1B {
            Some(Hash::Keccak256)
        } else if code == 0x1C {
            Some(Hash::Keccak384)
        } else if code == 0x1D {
            Some(Hash::Keccak512)
        } else if code == 0xB240 {
            Some(Hash::Blake2b512)
        } else if code == 0xB220 {
            Some(Hash::Blake2b256)
        } else if code == 0xB260 {
            Some(Hash::Blake2s256)
        } else if code == 0xB250 {
            Some(Hash::Blake2s128)
        } else {
            None
        }
    }

    /// Get the corresponding hash code.
    #[verifier::when_used_as_spec(spec_code)]
    pub fn code(&self) -> (c: u16)
        ensures
            c == self.spec_code(),
    {
        match *self {
            Hash::SHA1 => 0x11,
            Hash::SHA2256 => 0x12,
            Hash::SHA2512 => 0x13,
            Hash::SHA3224 => 0x17,
            Hash::SHA3256 => 0x16,
            Hash::SHA3384 => 0x15,
            Hash::SHA3512 => 0x14,
            Hash::Keccak224 => 0x1A,
            Hash::Keccak256 => 0x1B,
            Hash::Keccak384 => 0x1C,
            Hash::Keccak512 => 0x1D,
            Hash::Blake2b512 => 0xB240,
            Hash::Blake2b256 => 0xB220,
            Hash::Blake2s256 => 0xB260,
            Hash::Blake2s128 => 0xB250,
        }
    }

    /// Get the hash length in bytes.
    #[verifier::when_used_as_spec(spec_size)]
    pub fn size(&self) -> (s: u8)
        ensures
            s == self.spec_size(),
    {
        match *self {
            Hash::SHA1 => 20,
            Hash::SHA2256 => 32,
            Hash::SHA2512 => 64,
            Hash::SHA3224 => 28,
            Hash::SHA3256 => 32,
            Hash::SHA3384 => 48,
            Hash::SHA3512 => 64,
            Hash::Keccak224 => 28,
            Hash::Keccak256 => 32,
            Hash::Keccak384 => 48,
            Hash::Keccak512 => 64,
            Hash::Blake2b512 => 64,
            Hash::Blake2b256 => 32,
            Hash::Blake2s256 => 32,
            Hash::Blake2s128 => 16,
        }
    }

    /// Returns the algorithm corresponding to a code, or `None` if no algorithm is matching.
    pub fn from_code(code: u16) -> (r: Option<Hash>)
        ensures
            r == Hash::spec_from_code(code),
            match r {
                Some(h) => h.spec_code() == code,
                None => forall|h: Hash| h.spec_code() != code,
            },
    {
        Some(
            match code {
                0x11 => Hash::SHA1,
                0x12 => Hash::SHA2256,
                0x13 => Hash::SHA2512,
                0x14 => Hash::SHA3512,
                0x15 => Hash::SHA3384,
                0x16 => Hash::SHA3256,
                0x17 => Hash::SHA3224,
                0x1A => Hash::Keccak224,
                0x1B => Hash::Keccak256,
                0x1C => Hash::Keccak384,
                0x1D => Hash::Keccak512,
                0xB240 => Hash::Blake2b512,
                0xB220 => Hash::Blake2b256,
                0xB260 => Hash::Blake2s256,
                0xB250 => Hash::Blake2s128,
                _ => return None,
            },
        )
    }
}

} // verus!

verus! {

/// A code stands for the algorithm that has it, and for no other.
pub proof fn lemma_code_names_algorithm(hash: Hash)
    ensures
        Hash::spec_from_code(hash.spec_code()) == Some(hash),
{
}

} // verus!
