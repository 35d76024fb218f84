//! Checking untrusted bytes against an expected digest.

use vstd::prelude::*;

use crate::constant_time::equal_in_constant_time;
use crate::digest::{Digest, Error, Result, DIGEST_SIZE};
use crate::hashing::{hash, hash_node, hash_spec, node_digest};

verus! {

/// What checking a whole buffer against an expected digest gives.
pub open spec fn verify_outcome(input: Seq<u8>, expected: Seq<u8>) -> Result<()> {
    if expected == hash_spec(input) {
        Ok(())
    } else {
        Err(Error::HashMismatch)
    }
}

/// Checks the first `len` bytes of `input` as a node under `suffix` against
/// `digest`, comparing in constant time, and hands back those bytes.
pub fn verify_node<'a>(input: &'a [u8], len: usize, digest: &Digest, suffix: &[u8]) -> (r: Result<
    &'a [u8],
>)
    ensures
        match r {
            Ok(bytes) => {
                &&& len <= input@.len()
                &&& bytes@ == input@.subrange(0, len as int)
                &&& node_digest(bytes@, suffix@) == digest@
            },
            Err(e) => {
                ||| e == Error::ShortInput && input@.len() < len
                ||| e == Error::HashMismatch && len <= input@.len() && node_digest(
                    input@.subrange(0, len as int),
                    suffix@,
                ) != digest@
            },
        },
{
    if input.len() < len {
        return Err(Error::ShortInput);
    }
    let bytes = vstd::slice::slice_subrange(input, 0, len);
    let computed = hash_node(bytes, suffix);
    if equal_in_constant_time(digest, &computed) {
        Ok(bytes)
    } else {
        Err(Error::HashMismatch)
    }
}

/// Checks a whole buffer against `digest`, comparing in constant time.
pub fn verify(input: &[u8], digest: &Digest) -> (r: Result<()>)
    ensures
        r == verify_outcome(input@, digest@),
{
    let computed = hash(input);
    if equal_in_constant_time(digest, &computed) {
        Ok(())
    } else {
        Err(Error::HashMismatch)
    }
}

/// A buffer verifies against its own digest.
pub proof fn lemma_verify_own_digest(input: Seq<u8>, digest: Digest)
    requires
        digest@ == hash_spec(input),
    ensures
        verify_outcome(input, digest@) == Ok::<(), Error>(()),
{
}

/// Flipping any one bit of a buffer's digest makes the buffer fail to verify
/// against it, with a mismatch.
pub proof fn lemma_verify_rejects_flipped_bit(input: Seq<u8>, digest: Digest, i: int, bit: u8)
    requires
        digest@ == hash_spec(input),
        0 <= i < DIGEST_SIZE,
        bit < 8,
    ensures
        verify_outcome(input, digest@.update(i, digest@[i] ^ (1u8 << bit))) == Err::<(), Error>(
            Error::HashMismatch,
        ),
{
    let b = digest@[i];
    assert(b ^ (1u8 << bit) != b) by (bit_vector)
        requires
            bit < 8,
    ;
    assert(digest@.update(i, b ^ (1u8 << bit))[i] != digest@[i]);
}

} // verus!
