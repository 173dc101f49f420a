//! Atomic file-replacement library.
//!
//! The library turns the contents of an input byte stream into the new
//! contents of a destination file without ever exposing a partially written
//! destination: the bytes are staged in a temporary file that lives in the
//! destination's directory and are committed with a single rename, with a
//! copy-then-delete fallback when the rename is not possible.
//!
//! All filesystem and stream I/O is performed by the caller; the library
//! decides every step of the protocol and proves its guarantees.

pub mod cli;
pub mod errors;
pub mod machine;
pub mod resolve;
