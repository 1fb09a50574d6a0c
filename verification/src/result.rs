//! Error taxonomy of the linker's ingestion layer.
//!
//! Every fallible decode step returns a typed result; a malformed file
//! aborts only that file's parse.

use vstd::prelude::*;

verus! {

/// The error kinds that decoding an object file can produce.
#[derive(Debug, Clone, Copy, PartialEq, Eq)]
pub enum LinkerError {
    /// No input path was given (reported by the command-line driver).
    InvalidArguments,
    /// Reading the file from storage failed (reported by the driver).
    IOFailure,
    /// The buffer does not begin with the ELF magic bytes.
    NotAnElfFile,
    /// A fixed-size read would run past the end of the buffer, or a
    /// table length is inconsistent with its entry size.
    MalformedSlice,
    /// The object file has no symbol table section.
    MissingRequiredSection,
    /// A string-table lookup found no terminator or invalid text.
    MalformedStringTable,
}

pub type LinkerResult<T> = Result<T, LinkerError>;

} // verus!
