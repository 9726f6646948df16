//! Binary files with magic numbers and versioning.
//!
//! A file in this format begins with a fixed ten-byte header: an eight-byte
//! magic identifier followed by a two-byte format version, both big-endian.
//! Everything after byte offset ten is opaque payload owned by the caller.
//!
//! This crate holds the format's logic: the header codec, the validation
//! routine that accepts or rejects a header against a configured
//! (magic, version) pair, and the error values a mismatch produces.

pub mod codec;
pub mod errors;
pub mod header;

use vstd::prelude::*;

verus! {

/// The number of bytes the header occupies: eight for the magic, two for the
/// version. Payload starts at this offset.
pub const HEADER_LEN: usize = 10;

} // verus!
