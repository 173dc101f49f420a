//! The error taxonomy of the replace operation.

use vstd::prelude::*;

verus! {

/// Every way a replace operation can end other than full success.
///
/// Each variant is terminal for the invocation that reports it; the library
/// never retries a whole operation.
#[derive(Clone, Copy, Debug, PartialEq, Eq, Structural)]
pub enum ErrorKind {
    /// The destination path has no usable file-name component (it is empty,
    /// `.`, `..`, or ends in a directory separator).
    InvalidPath,
    /// The temporary file could not be created.
    CreateFailed,
    /// The input stream reported an error mid-transfer.
    ReadFailed,
    /// Writing a chunk to the temporary file failed.
    WriteFailed,
    /// Both the rename and the copy fallback failed.
    CommitFailed,
    /// The copy fallback succeeded but the temporary file could not be
    /// deleted; the destination already holds the correct bytes.
    CleanupFailed,
}

} // verus!
