//! Why a decode can fail.

use vstd::prelude::*;

verus! {

/// Why the input could not serve a read.
#[derive(Clone, Copy, Debug, PartialEq, Eq, Structural)]
pub enum IoError {
    /// The input ended before the bytes that the read asked for.
    UnexpectedEof,
}

/// Why a decode was given up.
#[derive(Clone, Copy, Debug, PartialEq, Eq)]
pub enum Error {
    /// Kept for a policy on format versions; no decoder raises it.
    UnsupportedVersion,
    /// A field held a value that the format does not allow; the text names the field.
    InvalidData(&'static str),
    /// The input failed to deliver bytes.
    Io(IoError),
}

impl Error {
    /// The error of a read that ran past the end of the input.
    pub open spec fn end_of_input() -> Error {
        Error::Io(IoError::UnexpectedEof)
    }

    /// Whether the error tells of the input itself, not of what it holds.
    pub open spec fn is_io(self) -> bool {
        self is Io
    }

    /// Whether the error tells of a field that broke the format's rules.
    pub open spec fn is_structural(self) -> bool {
        self is InvalidData
    }
}

} // verus!
