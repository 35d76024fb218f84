//! The digest type, the error taxonomy and the format's fixed sizes.

use vstd::prelude::*;

verus! {

/// Largest number of bytes hashed as one leaf.
pub const CHUNK_SIZE: usize = 4096;

/// Width of a digest in bytes.
pub const DIGEST_SIZE: usize = 32;

/// Width of a parent node's canonical bytes: two child digests.
pub const NODE_SIZE: usize = 2 * DIGEST_SIZE;

/// Width of the little-endian total-length field of the encoded format.
pub const HEADER_SIZE: usize = 8;

/// The identity of a node's content.
pub type Digest = [u8; DIGEST_SIZE];

/// Why an operation on possibly untrusted bytes failed.
#[derive(Clone, Copy, Debug, PartialEq, Eq, Structural)]
pub enum Error {
    /// The recomputed digest disagrees with the expected one.
    HashMismatch,
    /// Fewer bytes were supplied than the node claims to cover.
    ShortInput,
    /// A length computation would leave the representable range.
    Overflow,
}

pub type Result<T> = core::result::Result<T, Error>;

} // verus!
