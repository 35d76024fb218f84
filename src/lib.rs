//! Hashing and verification primitives for a BLAKE2b Merkle tree over
//! fixed-size chunks, with domain separation between root and interior nodes.

mod blake2b;
mod constant_time;
pub mod digest;
pub mod hashing;
pub mod length;
pub mod verify;

pub use digest::{Digest, Error, Result, CHUNK_SIZE, DIGEST_SIZE, HEADER_SIZE, NODE_SIZE};
pub use hashing::{hash, hash_node, hash_root, hash_two};
pub use verify::{verify, verify_node};
