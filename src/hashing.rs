//! Content hashing, node hashing and root finalization.

use vstd::prelude::*;

use crate::blake2b::{
    blake2b_absorbed, blake2b_digest, blake2b_last_node, blake2b_out_len, state_finalize,
    state_new, state_set_last_node, state_update,
};
use crate::digest::{Digest, DIGEST_SIZE};
use crate::length::{le_u64, le_u64_bytes, lemma_le_u64_bytes_injective};

verus! {

/// The plain content digest of `input`: BLAKE2b-256.
pub open spec fn hash_spec(input: Seq<u8>) -> Seq<u8> {
    blake2b_digest(input, DIGEST_SIZE as nat, false)
}

/// What BLAKE2b is run on to hash a node: the node's bytes followed by the
/// suffix, and the last-node flag, set exactly when the suffix is not empty.
pub open spec fn node_hash_params(node: Seq<u8>, suffix: Seq<u8>) -> (Seq<u8>, bool) {
    (node + suffix, suffix.len() > 0)
}

/// The digest of a node under a suffix.
pub open spec fn node_digest(node: Seq<u8>, suffix: Seq<u8>) -> Seq<u8> {
    let p = node_hash_params(node, suffix);
    blake2b_digest(p.0, DIGEST_SIZE as nat, p.1)
}

/// The digest of a root node over `len` bytes of input in all.
pub open spec fn root_digest(node: Seq<u8>, len: u64) -> Seq<u8> {
    node_digest(node, le_u64_bytes(len))
}

/// Appends the length suffix to a context and marks it as the root's.
fn suffix_root(state: &mut blake2_c::blake2b::State, len: u64)
    ensures
        blake2b_absorbed(*final(state)) == blake2b_absorbed(*old(state)) + le_u64_bytes(len),
        blake2b_out_len(*final(state)) == blake2b_out_len(*old(state)),
        blake2b_last_node(*final(state)),
{
    let len_bytes = le_u64(len);
    state_update(state, &len_bytes);
    state_set_last_node(state, true);
}

/// The digest of a context that has all its input, as a fixed-width value.
fn finalize_node(state: blake2_c::blake2b::State) -> (r: Digest)
    requires
        blake2b_out_len(state) == DIGEST_SIZE,
    ensures
        r@ == blake2b_digest(blake2b_absorbed(state), DIGEST_SIZE as nat, blake2b_last_node(state)),
{
    let bytes = state_finalize(state);
    let mut digest: Digest = [0u8; DIGEST_SIZE];
    let mut i: usize = 0;
    while i < DIGEST_SIZE
        invariant
            bytes@.len() == DIGEST_SIZE,
            i <= DIGEST_SIZE,
            forall|j: int| 0 <= j < i ==> digest@[j] == bytes@[j],
        decreases DIGEST_SIZE - i,
    {
        digest[i] = bytes[i];
        i = i + 1;
    }
    assert(digest@ =~= bytes@);
    digest
}

/// Ends a root computation: the length suffix, then the digest.
fn finalize_root(state: blake2_c::blake2b::State, len: u64) -> (r: Digest)
    requires
        blake2b_out_len(state) == DIGEST_SIZE,
    ensures
        r@ == blake2b_digest(blake2b_absorbed(state) + le_u64_bytes(len), DIGEST_SIZE as nat, true),
{
    let mut state = state;
    suffix_root(&mut state, len);
    finalize_node(state)
}

/// The root digest of `node` for a tree over `len` bytes of input.
pub fn hash_root(node: &[u8], len: u64) -> (r: Digest)
    ensures
        r@ == root_digest(node@, len),
{
    let mut state = state_new(DIGEST_SIZE);
    state_update(&mut state, node);
    assert(blake2b_absorbed(state) =~= node@);
    finalize_root(state, len)
}

/// The content digest of `input`.
pub fn hash(input: &[u8]) -> (r: Digest)
    ensures
        r@ == hash_spec(input@),
{
    let mut state = state_new(DIGEST_SIZE);
    state_update(&mut state, input);
    assert(blake2b_absorbed(state) =~= input@);
    finalize_node(state)
}

/// The content digest of `input1` followed by `input2`, without joining them.
pub fn hash_two(input1: &[u8], input2: &[u8]) -> (r: Digest)
    ensures
        r@ == hash_spec(input1@ + input2@),
{
    let mut state = state_new(DIGEST_SIZE);
    state_update(&mut state, input1);
    state_update(&mut state, input2);
    assert(blake2b_absorbed(state) =~= input1@ + input2@);
    finalize_node(state)
}

/// The digest of a node's canonical bytes; a non-empty `suffix` is absorbed
/// after them and the digest is taken as the last node's.
pub fn hash_node(node: &[u8], suffix: &[u8]) -> (r: Digest)
    ensures
        r@ == node_digest(node@, suffix@),
{
    let mut state = state_new(DIGEST_SIZE);
    state_update(&mut state, node);
    if suffix.len() != 0 {
        state_update(&mut state, suffix);
        state_set_last_node(&mut state, true);
    }
    assert(blake2b_absorbed(state) =~= node@ + suffix@);
    finalize_node(state)
}

/// Roots over the same node bytes but different total lengths are hashed
/// over different BLAKE2b inputs, so their digests differ unless BLAKE2b
/// collides.
pub proof fn lemma_root_lengths_hash_different_inputs(node: Seq<u8>, len1: u64, len2: u64)
    requires
        len1 != len2,
    ensures
        node_hash_params(node, le_u64_bytes(len1)) != node_hash_params(node, le_u64_bytes(len2)),
{
    let a = node + le_u64_bytes(len1);
    let b = node + le_u64_bytes(len2);
    if a == b {
        assert(le_u64_bytes(len1) =~= a.subrange(node.len() as int, a.len() as int));
        assert(le_u64_bytes(len2) =~= b.subrange(node.len() as int, b.len() as int));
        lemma_le_u64_bytes_injective(len1, len2);
    }
}

/// A node hashed with a non-empty suffix is hashed with the last-node flag set,
/// and the same node hashed with no suffix without it, so the two digests
/// differ unless BLAKE2b collides.
pub proof fn lemma_suffix_sets_last_node(node: Seq<u8>, suffix: Seq<u8>)
    requires
        suffix.len() > 0,
    ensures
        node_hash_params(node, suffix).1,
        !node_hash_params(node, Seq::<u8>::empty()).1,
        node_hash_params(node, Seq::<u8>::empty()) != node_hash_params(node, suffix),
{
}

/// The content digest is the digest of a node with no suffix.
pub proof fn lemma_hash_is_unsuffixed_node(input: Seq<u8>)
    ensures
        hash_spec(input) == node_digest(input, Seq::<u8>::empty()),
{
    assert(input + Seq::<u8>::empty() =~= input);
}

/// Two digests of the same buffer are the same value: the digest depends on
/// the bytes alone.
pub proof fn lemma_hash_deterministic(input: Seq<u8>, d1: Digest, d2: Digest)
    requires
        d1@ == hash_spec(input),
        d2@ == hash_spec(input),
    ensures
        d1 == d2,
{
    assert(d1 =~= d2);
}

} // verus!
