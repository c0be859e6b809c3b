//! Little-endian views of multi-byte integers: every integer of the Livox
//! wire protocol is carried low byte first.
use vstd::prelude::*;

verus! {

/// The two little-endian bytes of a 16-bit integer.
pub open spec fn le16(x: u16) -> Seq<u8> {
    seq![(x % 256) as u8, (x / 256) as u8]
}

/// The four little-endian bytes of a 32-bit integer.
pub open spec fn le32(x: u32) -> Seq<u8> {
    seq![
        (x % 256) as u8,
        ((x / 256) % 256) as u8,
        ((x / 65536) % 256) as u8,
        (x / 16777216) as u8,
    ]
}

/// The 16-bit integer carried by two little-endian bytes.
pub open spec fn u16_of(b0: u8, b1: u8) -> u16 {
    (b0 + b1 * 0x100) as u16
}

/// The 32-bit integer carried by four little-endian bytes.
pub open spec fn u32_of(b0: u8, b1: u8, b2: u8, b3: u8) -> u32 {
    (b0 + b1 * 0x100 + b2 * 0x10000 + b3 * 0x1000000) as u32
}

/// The 64-bit integer carried by eight little-endian bytes.
pub open spec fn u64_of(s: Seq<u8>, i: int) -> u64 {
    (s[i] + s[i + 1] * 0x100 + s[i + 2] * 0x10000 + s[i + 3] * 0x1000000 + s[i + 4] * 0x100000000
        + s[i + 5] * 0x10000000000 + s[i + 6] * 0x1000000000000 + s[i + 7]
        * 0x100000000000000) as u64
}

/// Reading back the two bytes of `le16` yields the integer again.
pub broadcast proof fn lemma_le16_roundtrip(x: u16)
    ensures
        #![trigger le16(x)]
        u16_of(le16(x)[0], le16(x)[1]) == x,
{
}

/// Reading back the four bytes of `le32` yields the integer again.
pub broadcast proof fn lemma_le32_roundtrip(x: u32)
    ensures
        #![trigger le32(x)]
        u32_of(le32(x)[0], le32(x)[1], le32(x)[2], le32(x)[3]) == x,
{
}

/// A 32-bit two's-complement round trip through the unsigned wire form.
pub broadcast proof fn lemma_i32_roundtrip(x: i32)
    ensures
        #![trigger x as u32]
        (x as u32) as i32 == x,
{
    assert((x as u32) as i32 == x) by (bit_vector);
}

/// A 16-bit integer determines its two little-endian bytes.
pub proof fn lemma_u16_of_injective(a0: u8, a1: u8, b0: u8, b1: u8)
    ensures
        u16_of(a0, a1) == u16_of(b0, b1) ==> a0 == b0 && a1 == b1,
{
}

/// A 32-bit integer determines its four little-endian bytes.
#[verifier::rlimit(50)]
pub proof fn lemma_u32_of_injective(a0: u8, a1: u8, a2: u8, a3: u8, b0: u8, b1: u8, b2: u8, b3: u8)
    ensures
        u32_of(a0, a1, a2, a3) == u32_of(b0, b1, b2, b3) ==> a0 == b0 && a1 == b1 && a2 == b2
            && a3 == b3,
{
}

/// Append the two little-endian bytes of `x`.
pub fn push_le16(out: &mut Vec<u8>, x: u16)
    ensures
        final(out)@ == old(out)@ + le16(x),
{
    out.push((x % 256) as u8);
    out.push((x / 256) as u8);
    assert(out@ =~= old(out)@ + le16(x));
}

/// Append the four little-endian bytes of `x`.
pub fn push_le32(out: &mut Vec<u8>, x: u32)
    ensures
        final(out)@ == old(out)@ + le32(x),
{
    out.push((x % 256) as u8);
    out.push(((x / 256) % 256) as u8);
    out.push(((x / 65536) % 256) as u8);
    out.push((x / 16777216) as u8);
    assert(out@ =~= old(out)@ + le32(x));
}

/// Read the 16-bit integer at offset `i`.
pub fn get_le16(bytes: &[u8], i: usize) -> (r: u16)
    requires
        i + 2 <= bytes@.len(),
    ensures
        r == u16_of(bytes@[i as int], bytes@[i + 1]),
{
    bytes[i] as u16 + bytes[i + 1] as u16 * 0x100
}

/// Read the 32-bit integer at offset `i`.
pub fn get_le32(bytes: &[u8], i: usize) -> (r: u32)
    requires
        i + 4 <= bytes@.len(),
    ensures
        r == u32_of(bytes@[i as int], bytes@[i + 1], bytes@[i + 2], bytes@[i + 3]),
{
    bytes[i] as u32 + bytes[i + 1] as u32 * 0x100 + bytes[i + 2] as u32 * 0x10000 + bytes[i
        + 3] as u32 * 0x1000000
}

/// Read the 64-bit integer at offset `i`.
pub fn get_le64(bytes: &[u8], i: usize) -> (r: u64)
    requires
        i + 8 <= bytes@.len(),
    ensures
        r == u64_of(bytes@, i as int),
{
    bytes[i] as u64 + bytes[i + 1] as u64 * 0x100 + bytes[i + 2] as u64 * 0x10000 + bytes[i
        + 3] as u64 * 0x1000000 + bytes[i + 4] as u64 * 0x100000000 + bytes[i + 5] as u64
        * 0x10000000000 + bytes[i + 6] as u64 * 0x1000000000000 + bytes[i + 7] as u64
        * 0x100000000000000
}

} // verus!
