//! The root suffix: a total length as eight little-endian bytes.

use vstd::prelude::*;

verus! {

/// Byte `i` of `n` counting from the least significant one.
pub open spec fn le_byte(n: u64, i: u64) -> u8 {
    ((n >> (8 * i)) & 0xff) as u8
}

/// The eight-byte little-endian encoding of `n`.
pub open spec fn le_u64_bytes(n: u64) -> Seq<u8> {
    seq![
        le_byte(n, 0),
        le_byte(n, 1),
        le_byte(n, 2),
        le_byte(n, 3),
        le_byte(n, 4),
        le_byte(n, 5),
        le_byte(n, 6),
        le_byte(n, 7),
    ]
}

/// Distinct lengths have distinct encodings.
pub proof fn lemma_le_u64_bytes_injective(a: u64, b: u64)
    requires
        le_u64_bytes(a) == le_u64_bytes(b),
    ensures
        a == b,
{
    let sa = le_u64_bytes(a);
    let sb = le_u64_bytes(b);
    assert(sa[0] == sb[0] && sa[1] == sb[1] && sa[2] == sb[2] && sa[3] == sb[3]);
    assert(sa[4] == sb[4] && sa[5] == sb[5] && sa[6] == sb[6] && sa[7] == sb[7]);
    assert(((a >> 0) & 0xff) as u8 == ((b >> 0) & 0xff) as u8
        && ((a >> 8) & 0xff) as u8 == ((b >> 8) & 0xff) as u8
        && ((a >> 16) & 0xff) as u8 == ((b >> 16) & 0xff) as u8
        && ((a >> 24) & 0xff) as u8 == ((b >> 24) & 0xff) as u8
        && ((a >> 32) & 0xff) as u8 == ((b >> 32) & 0xff) as u8
        && ((a >> 40) & 0xff) as u8 == ((b >> 40) & 0xff) as u8
        && ((a >> 48) & 0xff) as u8 == ((b >> 48) & 0xff) as u8
        && ((a >> 56) & 0xff) as u8 == ((b >> 56) & 0xff) as u8 ==> a == b) by (bit_vector);
}

/// Writes `n` as eight little-endian bytes.
pub fn le_u64(n: u64) -> (r: [u8; 8])
    ensures
        r@ == le_u64_bytes(n),
{
    let r: [u8; 8] = [
        (n & 0xff) as u8,
        ((n >> 8) & 0xff) as u8,
        ((n >> 16) & 0xff) as u8,
        ((n >> 24) & 0xff) as u8,
        ((n >> 32) & 0xff) as u8,
        ((n >> 40) & 0xff) as u8,
        ((n >> 48) & 0xff) as u8,
        ((n >> 56) & 0xff) as u8,
    ];
    assert(n == n >> 0) by (bit_vector);
    assert(r@ =~= le_u64_bytes(n));
    r
}

} // verus!
