//! The incremental BLAKE2b context of the `blake2_c` crate, as this library
//! relies on it.
//!
//! A context is modelled by what it has absorbed, the digest length it was
//! made with, and its last-node flag; its digest is named, not defined.

use vstd::prelude::*;

verus! {

#[verifier::external_type_specification]
#[verifier::external_body]
pub struct ExState(blake2_c::blake2b::State);

/// The bytes fed into a context since it was made.
pub uninterp spec fn blake2b_absorbed(s: blake2_c::blake2b::State) -> Seq<u8>;

/// The digest length, in bytes, that a context was made with.
pub uninterp spec fn blake2b_out_len(s: blake2_c::blake2b::State) -> nat;

/// Whether a context is marked as hashing the last node of a tree layer.
pub uninterp spec fn blake2b_last_node(s: blake2_c::blake2b::State) -> bool;

/// The BLAKE2b digest of `input`, with default parameters but for the digest
/// length `out_len` and the last-node flag `last_node`.
pub uninterp spec fn blake2b_digest(input: Seq<u8>, out_len: nat, last_node: bool) -> Seq<u8>;

/// Relies on `blake2b::State::new`: a fresh context with the given digest
/// length, nothing absorbed and the last-node flag clear. It panics outside
/// `1..=64`.
#[verifier::external_body]
pub(crate) fn state_new(out_len: usize) -> (s: blake2_c::blake2b::State)
    requires
        1 <= out_len <= 64,
    ensures
        blake2b_absorbed(s) == Seq::<u8>::empty(),
        blake2b_out_len(s) == out_len,
        !blake2b_last_node(s),
{
    blake2_c::blake2b::State::new(out_len)
}

/// Relies on `blake2b::State::update`: appends `input` to what the context
/// has absorbed and leaves its parameters alone.
#[verifier::external_body]
pub(crate) fn state_update(s: &mut blake2_c::blake2b::State, input: &[u8])
    ensures
        blake2b_absorbed(*final(s)) == blake2b_absorbed(*old(s)) + input@,
        blake2b_out_len(*final(s)) == blake2b_out_len(*old(s)),
        blake2b_last_node(*final(s)) == blake2b_last_node(*old(s)),
{
    s.update(input);
}

/// Relies on `blake2b::State::set_last_node`: sets the last-node flag and
/// changes nothing else.
#[verifier::external_body]
pub(crate) fn state_set_last_node(s: &mut blake2_c::blake2b::State, val: bool)
    ensures
        blake2b_absorbed(*final(s)) == blake2b_absorbed(*old(s)),
        blake2b_out_len(*final(s)) == blake2b_out_len(*old(s)),
        blake2b_last_node(*final(s)) == val,
{
    s.set_last_node(val);
}

/// Relies on `blake2b::State::finalize`: the digest of what the context
/// absorbed, `out_len` bytes long. The context is consumed, since a second
/// `finalize` on it panics.
#[verifier::external_body]
pub(crate) fn state_finalize(s: blake2_c::blake2b::State) -> (r: Vec<u8>)
    ensures
        r@ == blake2b_digest(blake2b_absorbed(s), blake2b_out_len(s), blake2b_last_node(s)),
        r@.len() == blake2b_out_len(s),
{
    let mut s = s;
    s.finalize().bytes.to_vec()
}

} // verus!
