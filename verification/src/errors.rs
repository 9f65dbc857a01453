//! The closed set of failures the library reports.

use vstd::prelude::*;

verus! {

/// Every way an operation of this library can fail.
#[derive(Debug, Clone, PartialEq, Eq)]
pub enum Error {
    /// The underlying transport failed to read or write.
    Io(String),
    /// An offset or length does not fit the integer type that carries it.
    IntConversion,
    /// The opened path is not a character device.
    NotChardev,
    /// The read deadline elapsed without data.
    Timeout,
    /// A complement byte or the checksum byte did not match.
    Checksum,
    /// A range check failed before anything was put on the wire.
    InvalidData(&'static str),
    /// The brick answered, but not with what the command calls for.
    RcxError(&'static str),
    /// The image file is structurally invalid.
    Parse(String),
    /// The input ended in the middle of an instruction or a frame.
    InsufficientData,
    /// The byte is not an opcode of the catalogue.
    InvalidOpcode(u8),
}

} // verus!
