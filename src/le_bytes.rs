use vstd::bytes::*;
use vstd::prelude::*;
use vstd::slice::slice_subrange;

verus! {

/// The little-endian `u16` stored at `off`.
pub fn read_u16_at<const N: usize>(data: &[u8; N], off: usize) -> (r: u16)
    requires
        off + 2 <= N,
    ensures
        r == spec_u16_from_le_bytes(data@.subrange(off as int, off + 2)),
{
    u16_from_le_bytes(slice_subrange(data.as_slice(), off, off + 2))
}

/// The little-endian `u32` stored at `off`.
pub fn read_u32_at<const N: usize>(data: &[u8; N], off: usize) -> (r: u32)
    requires
        off + 4 <= N,
    ensures
        r == spec_u32_from_le_bytes(data@.subrange(off as int, off + 4)),
{
    u32_from_le_bytes(slice_subrange(data.as_slice(), off, off + 4))
}

/// The little-endian `u64` stored at `off`.
pub fn read_u64_at<const N: usize>(data: &[u8; N], off: usize) -> (r: u64)
    requires
        off + 8 <= N,
    ensures
        r == spec_u64_from_le_bytes(data@.subrange(off as int, off + 8)),
{
    u64_from_le_bytes(slice_subrange(data.as_slice(), off, off + 8))
}

/// Appends the little-endian bytes of `x`.
pub fn push_u16(out: &mut Vec<u8>, x: u16)
    ensures
        final(out)@ == old(out)@ + spec_u16_to_le_bytes(x),
{
    let mut b = u16_to_le_bytes(x);
    out.append(&mut b);
}

/// Appends the little-endian bytes of `x`.
pub fn push_u32(out: &mut Vec<u8>, x: u32)
    ensures
        final(out)@ == old(out)@ + spec_u32_to_le_bytes(x),
{
    let mut b = u32_to_le_bytes(x);
    out.append(&mut b);
}

/// Appends the little-endian bytes of `x`.
pub fn push_u64(out: &mut Vec<u8>, x: u64)
    ensures
        final(out)@ == old(out)@ + spec_u64_to_le_bytes(x),
{
    let mut b = u64_to_le_bytes(x);
    out.append(&mut b);
}

pub fn to_array30(v: &Vec<u8>) -> (r: [u8; 30])
    requires
        v@.len() == 30,
    ensures
        r@ == v@,
{
    let r = [
        v[0], v[1], v[2], v[3], v[4], v[5], v[6], v[7], v[8], v[9],
        v[10], v[11], v[12], v[13], v[14], v[15], v[16], v[17], v[18], v[19],
        v[20], v[21], v[22], v[23], v[24], v[25], v[26], v[27], v[28], v[29],
    ];
    assert(r@ =~= v@);
    r
}

pub fn to_array32(v: &Vec<u8>) -> (r: [u8; 32])
    requires
        v@.len() == 32,
    ensures
        r@ == v@,
{
    let r = [
        v[0], v[1], v[2], v[3], v[4], v[5], v[6], v[7], v[8], v[9],
        v[10], v[11], v[12], v[13], v[14], v[15], v[16], v[17], v[18], v[19],
        v[20], v[21], v[22], v[23], v[24], v[25], v[26], v[27], v[28], v[29],
        v[30], v[31],
    ];
    assert(r@ =~= v@);
    r
}

/// Reading a value back from its own little-endian bytes, for each width used in the records.
pub proof fn lemma_le_round_trips()
    ensures
        forall|x: u16| #![auto] spec_u16_to_le_bytes(x).len() == 2 && spec_u16_from_le_bytes(spec_u16_to_le_bytes(x)) == x,
        forall|x: u32| #![auto] spec_u32_to_le_bytes(x).len() == 4 && spec_u32_from_le_bytes(spec_u32_to_le_bytes(x)) == x,
        forall|x: u64| #![auto] spec_u64_to_le_bytes(x).len() == 8 && spec_u64_from_le_bytes(spec_u64_to_le_bytes(x)) == x,
        forall|s: Seq<u8>| s.len() == 2 ==> #[trigger] spec_u16_to_le_bytes(spec_u16_from_le_bytes(s)) == s,
        forall|s: Seq<u8>| s.len() == 4 ==> #[trigger] spec_u32_to_le_bytes(spec_u32_from_le_bytes(s)) == s,
        forall|s: Seq<u8>| s.len() == 8 ==> #[trigger] spec_u64_to_le_bytes(spec_u64_from_le_bytes(s)) == s,
{
    lemma_auto_spec_u16_to_from_le_bytes();
    lemma_auto_spec_u32_to_from_le_bytes();
    lemma_auto_spec_u64_to_from_le_bytes();
}

} // verus!
