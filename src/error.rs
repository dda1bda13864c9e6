//! The failures that decoding an archive can report.
use vstd::prelude::*;

verus! {

/// Why a decoding step failed.
#[derive(Clone, Copy, Debug, PartialEq, Eq, Structural)]
pub enum WadError {
    /// The source could not be read: it ends before a fixed-size part of it.
    IoError,
    /// The header does not start with a recognised identifier.
    MalformedHeader,
    /// A range of bytes named by the archive lies outside the source.
    OutOfBounds,
    /// A lump's length is not a multiple of the size of its records.
    UnexpectedRecordSize,
    /// A name holds a byte that is not printable ASCII, or a non-zero byte
    /// after its zero padding.
    InvalidName,
    /// A name is longer than eight bytes.
    NameTooLong,
    /// No lump has the name asked for.
    NotFound,
}

} // verus!
