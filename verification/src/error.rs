//! The failures a stream can report.

use vstd::prelude::*;

verus! {

/// Why a stream operation failed.
#[derive(Clone, Copy, Debug, PartialEq, Eq, Structural)]
pub enum StreamError {
    /// The stream ended before the requested amount was read.
    UnexpectedEof,
    /// The stream could take no more bytes.
    WriteZero,
    /// The bytes read were not valid text.
    InvalidData,
    /// A request named a position that does not exist.
    InvalidInput,
    /// The operation was interrupted and may be tried again.
    Interrupted,
    /// The operation would have had to wait.
    WouldBlock,
    /// Any other failure of the underlying stream.
    Other,
}

} // verus!
