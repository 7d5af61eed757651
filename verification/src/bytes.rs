//! Byte-level helpers: copying slices and the big-endian form of 64-bit lengths.
use vstd::prelude::*;

verus! {

/// A vector holding the bytes of `b`.
pub fn copy_bytes(b: &[u8]) -> (v: Vec<u8>)
    ensures
        v@ == b@,
{
    let mut v: Vec<u8> = Vec::new();
    let mut i: usize = 0;
    while i < b.len()
        invariant
            i <= b@.len(),
            v@ == b@.subrange(0, i as int),
        decreases b@.len() - i,
    {
        v.push(b[i]);
        i = i + 1;
        assert(v@ =~= b@.subrange(0, i as int));
    }
    assert(b@.subrange(0, b@.len() as int) =~= b@);
    v
}

/// Appends the bytes of `b` to `v`.
pub fn append_bytes(v: &mut Vec<u8>, b: &[u8])
    ensures
        final(v)@ == old(v)@ + b@,
{
    let ghost start = v@;
    let mut i: usize = 0;
    while i < b.len()
        invariant
            i <= b@.len(),
            v@ == start + b@.subrange(0, i as int),
        decreases b@.len() - i,
    {
        v.push(b[i]);
        i = i + 1;
        assert(v@ =~= start + b@.subrange(0, i as int));
    }
    assert(b@.subrange(0, b@.len() as int) =~= b@);
}

/// The eight bytes of `x`, most significant first (`u64::to_be_bytes`).
pub open spec fn be_bytes(x: u64) -> Seq<u8> {
    seq![
        (x >> 56u64) as u8,
        (x >> 48u64) as u8,
        (x >> 40u64) as u8,
        (x >> 32u64) as u8,
        (x >> 24u64) as u8,
        (x >> 16u64) as u8,
        (x >> 8u64) as u8,
        x as u8,
    ]
}

/// The number that eight bytes stand for, most significant first (`u64::from_be_bytes`).
pub open spec fn be_value(b: Seq<u8>) -> u64
    recommends
        b.len() == 8,
{
    be_value8(b[0], b[1], b[2], b[3], b[4], b[5], b[6], b[7])
}

/// The number that the bytes `b0` (most significant) to `b7` stand for.
pub open spec fn be_value8(b0: u8, b1: u8, b2: u8, b3: u8, b4: u8, b5: u8, b6: u8, b7: u8) -> u64 {
    (b0 as u64) << 56u64 | (b1 as u64) << 48u64 | (b2 as u64) << 40u64 | (b3 as u64) << 32u64
        | (b4 as u64) << 24u64 | (b5 as u64) << 16u64 | (b6 as u64) << 8u64 | (b7 as u64)
}

/// The big-endian bytes of `x`, as `AsyncWriteExt::write_u64` sends them.
pub fn u64_to_be(x: u64) -> (b: Vec<u8>)
    ensures
        b@ == be_bytes(x),
{
    let mut b: Vec<u8> = Vec::new();
    b.push((x >> 56u64) as u8);
    b.push((x >> 48u64) as u8);
    b.push((x >> 40u64) as u8);
    b.push((x >> 32u64) as u8);
    b.push((x >> 24u64) as u8);
    b.push((x >> 16u64) as u8);
    b.push((x >> 8u64) as u8);
    b.push(x as u8);
    assert(b@ =~= be_bytes(x));
    b
}

/// The number that eight big-endian bytes stand for, as `AsyncReadExt::read_u64` reads it.
pub fn u64_from_be(b: &[u8]) -> (x: u64)
    requires
        b@.len() == 8,
    ensures
        x == be_value(b@),
{
    (b[0] as u64) << 56u64 | (b[1] as u64) << 48u64 | (b[2] as u64) << 40u64 | (b[3] as u64)
        << 32u64 | (b[4] as u64) << 24u64 | (b[5] as u64) << 16u64 | (b[6] as u64) << 8u64
        | (b[7] as u64)
}

/// Reading back a written length gives that length.
pub proof fn lemma_be_round_trip(x: u64)
    ensures
        be_value(be_bytes(x)) == x,
{
    assert(be_value8(
        (x >> 56u64) as u8,
        (x >> 48u64) as u8,
        (x >> 40u64) as u8,
        (x >> 32u64) as u8,
        (x >> 24u64) as u8,
        (x >> 16u64) as u8,
        (x >> 8u64) as u8,
        x as u8,
    ) == x) by (bit_vector);
}

} // verus!
