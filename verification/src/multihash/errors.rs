//! The errors of the multihash codec.

use vstd::prelude::*;

verus! {

/// Error that can happen when encoding some bytes into a multihash.
#[derive(PartialEq, Eq, Structural, Clone, Copy, Debug)]
pub enum EncodeError {
    /// The requested hash algorithm isn't supported by this library.
    UnsupportedType,
}

/// Error that can happen when decoding some bytes.
#[derive(PartialEq, Eq, Structural, Clone, Copy, Debug)]
pub enum DecodeError {
    /// The input doesn't have a correct length.
    BadInputLength,
    /// The code of the hashing algorithm is incorrect.
    UnknownCode,
}

/// Error that can happen when decoding some bytes.
///
/// Same as `DecodeError`, but allows retreiving the data whose decoding was attempted.
#[derive(PartialEq, Eq, Clone, Debug)]
pub struct DecodeOwnedError {
    /// The error.
    pub error: DecodeError,
    /// The data whose decoding was attempted.
    pub data: Vec<u8>,
}

impl EncodeError {
    /// The error in words.
    pub fn message(&self) -> (m: &'static str)
        ensures
            m@ == "This type is not supported yet"@,
    {
        "This type is not supported yet"
    }
}

impl DecodeError {
    /// The error in words.
    pub fn message(&self) -> (m: &'static str)
        ensures
            m@ == match *self {
                DecodeError::BadInputLength => "Not matching input length"@,
                DecodeError::UnknownCode => "Found unknown code"@,
            },
    {
        match self {
            DecodeError::BadInputLength => "Not matching input length",
            DecodeError::UnknownCode => "Found unknown code",
        }
    }
}

impl DecodeOwnedError {
    /// The error in words.
    pub fn message(&self) -> (m: &'static str)
        ensures
            m@ == match self.error {
                DecodeError::BadInputLength => "Not matching input length"@,
                DecodeError::UnknownCode => "Found unknown code"@,
            },
    {
        self.error.message()
    }
}

} // verus!
