//! Errors shared by the header parsers and serialisers.

use vstd::prelude::*;

verus! {

/// A buffer is shorter than a header needs.
#[derive(Clone, Copy, Debug, PartialEq, Eq, Structural)]
pub struct LengthError {
    /// The number of bytes the header needs.
    pub expected: usize,
    /// The number of bytes the buffer holds.
    pub actual: usize,
}

/// Why bytes could not be read as a header.
#[derive(Debug, PartialEq, Eq, Structural)]
pub enum ParseError<E> {
    /// The buffer is too short.
    Length(LengthError),
    /// The bytes break a rule of the header's format.
    Invalid(E),
    /// The buffer is longer than a packet can be (its length is carried).
    BufferTooLong(usize),
}

/// Why a header could not be written into a buffer.
#[derive(Debug, PartialEq, Eq, Structural)]
pub enum DeParseError<E> {
    /// The buffer is too short.
    Length(LengthError),
    /// The header cannot be written as it stands.
    Invalid(E),
    /// The buffer is longer than a packet can be (its length is carried).
    BufferTooLong(usize),
}

} // verus!
