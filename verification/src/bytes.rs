//! Big-endian field access on byte buffers.

use vstd::prelude::*;

verus! {

/// The big-endian 16-bit value stored at `s[i..i + 2]`.
pub open spec fn be16_at(s: Seq<u8>, i: int) -> u16 {
    (s[i] as int * 0x100 + s[i + 1] as int) as u16
}

/// The big-endian 32-bit value stored at `s[i..i + 4]`.
pub open spec fn be32_at(s: Seq<u8>, i: int) -> u32 {
    (s[i] as int * 0x1000000 + s[i + 1] as int * 0x10000 + s[i + 2] as int * 0x100
        + s[i + 3] as int) as u32
}

/// The two bytes of the big-endian encoding of `v`.
pub open spec fn be16_bytes(v: u16) -> Seq<u8> {
    seq![(v / 0x100) as u8, (v % 0x100) as u8]
}

/// The four bytes of the big-endian encoding of `v`.
pub open spec fn be32_bytes(v: u32) -> Seq<u8> {
    seq![
        (v / 0x1000000) as u8,
        ((v / 0x10000) % 0x100) as u8,
        ((v / 0x100) % 0x100) as u8,
        (v % 0x100) as u8,
    ]
}

/// Parse a big endian u16 out of the first two bytes.
pub fn read_u16(val: &[u8]) -> (r: u16)
    requires
        val@.len() >= 2,
    ensures
        r == be16_at(val@, 0),
{
    (val[0] as u16) * 0x100 + (val[1] as u16)
}

/// Parse a big endian u32 out of the first four bytes.
pub fn read_u32(val: &[u8]) -> (r: u32)
    requires
        val@.len() >= 4,
    ensures
        r == be32_at(val@, 0),
{
    (val[0] as u32) * 0x1000000 + (val[1] as u32) * 0x10000 + (val[2] as u32) * 0x100
        + (val[3] as u32)
}

/// The big-endian byte pair of `v`.
pub fn u16_to_be(v: u16) -> (r: [u8; 2])
    ensures
        r@ == be16_bytes(v),
        be16_at(r@, 0) == v,
{
    let r = [(v / 0x100) as u8, (v % 0x100) as u8];
    assert(r@ =~= be16_bytes(v));
    r
}

/// The big-endian byte quadruple of `v`.
pub fn u32_to_be(v: u32) -> (r: [u8; 4])
    ensures
        r@ == be32_bytes(v),
        be32_at(r@, 0) == v,
{
    let r = [
        (v / 0x1000000) as u8,
        ((v / 0x10000) % 0x100) as u8,
        ((v / 0x100) % 0x100) as u8,
        (v % 0x100) as u8,
    ];
    assert(r@ =~= be32_bytes(v));
    r
}

} // verus!
