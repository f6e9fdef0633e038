//! The one error type of the crate.

use vstd::prelude::*;

verus! {

/// Everything that can go wrong between the form and the written files.
#[derive(Debug, Clone, Copy, PartialEq, Eq, Structural)]
pub enum ErrMessages {
    /// A page number is zero; pages count from one.
    NoNil,
    /// One of the three fields of a request is empty.
    NoInput,
    /// A page bound is not a decimal number that fits 32 bits.
    NoNumber,
    /// There is no source file at the given path.
    NoFile,
    /// An output could not be produced or written.
    FileSave,
    /// The source file is there but is no document that pages can be taken
    /// from.
    FileLoad,
    /// No error: what the form shows after a clean start.
    Empty,
}

} // verus!
