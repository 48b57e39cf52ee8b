//! The engine's status codes as typed errors.
use vstd::prelude::*;

verus! {

/// Why a decode failed. The engine reports these as status codes 1, 2 and 3.
#[derive(Clone, Copy, Debug, PartialEq, Eq, Structural)]
pub enum DecodeError {
    /// No symbol was found in the image.
    NotFound,
    /// A symbol was found but its structure is invalid.
    FormatError,
    /// A symbol was found and is well formed, but its checksum does not match.
    ChecksumError,
}

/// Why an encode failed: the engine refused the text, symbology or
/// parameters, and says no more than that.
#[derive(Clone, Copy, Debug, PartialEq, Eq, Structural)]
pub enum EncodeError {
    FormatError,
}

/// The decode error that an engine status code stands for, if any.
pub open spec fn decode_error_of(code: int) -> Option<DecodeError> {
    if code == 1 {
        Some(DecodeError::NotFound)
    } else if code == 2 {
        Some(DecodeError::FormatError)
    } else if code == 3 {
        Some(DecodeError::ChecksumError)
    } else {
        None
    }
}

impl DecodeError {
    /// The engine's status code for this error.
    pub open spec fn spec_code(self) -> int {
        match self {
            DecodeError::NotFound => 1,
            DecodeError::FormatError => 2,
            DecodeError::ChecksumError => 3,
        }
    }

    /// The engine's status code for this error.
    pub fn code(&self) -> (r: i32)
        ensures
            r == self.spec_code(),
    {
        match self {
            DecodeError::NotFound => 1,
            DecodeError::FormatError => 2,
            DecodeError::ChecksumError => 3,
        }
    }

    /// The error that an unsigned status code stands for; `None` for a code
    /// outside the three known ones.
    pub fn from_u64(n: u64) -> (r: Option<DecodeError>)
        ensures
            r == decode_error_of(n as int),
    {
        match n {
            1 => Some(DecodeError::NotFound),
            2 => Some(DecodeError::FormatError),
            3 => Some(DecodeError::ChecksumError),
            _ => None,
        }
    }

    /// The error that a signed status code stands for; `None` for a negative
    /// code or one outside the three known ones.
    pub fn from_i64(n: i64) -> (r: Option<DecodeError>)
        ensures
            r == decode_error_of(n as int),
    {
        if n < 0 {
            return None;
        }
        DecodeError::from_u64(n as u64)
    }

    /// The error that a status code of the engine's own width stands for.
    pub fn from_i32(n: i32) -> (r: Option<DecodeError>)
        ensures
            r == decode_error_of(n as int),
    {
        DecodeError::from_i64(n as i64)
    }
}

/// Each decode error maps to its status code and back to itself, and no two
/// errors share a code.
pub proof fn lemma_decode_code_round_trip(e: DecodeError)
    ensures
        decode_error_of(e.spec_code()) == Some(e),
        1 <= e.spec_code() <= 3,
{
}

} // verus!
