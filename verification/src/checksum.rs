//! The two checksums of the control-frame envelope.
//!
//! The header carries a CRC-16/MCRF4XX over the first seven bytes, seeded so
//! that the shift register starts at 0x4C49; the whole frame carries a
//! CRC-32/ISO-HDLC whose register starts at the complement of 0x564F580A.
//! Both are computed by the `crc` crate; this module only names their
//! results, so that the codec's contracts can speak about them.
use vstd::prelude::*;

verus! {

/// Seed of the header checksum. `crc` reflects the seed of a reflected
/// algorithm, so this is 0x4C49 bit-reversed and starts the register at
/// 0x4C49.
pub const HEADER_CRC_SEED: u16 = 0x9232;

/// Seed of the whole-frame checksum: the complement of 0x564F580A
/// bit-reversed, which starts the register at the complement of 0x564F580A.
pub const FRAME_CRC_SEED: u32 = 0xAFE50D95;

/// The CRC-16/MCRF4XX of `data` computed from the seed `init`.
pub uninterp spec fn crc16_of(init: u16, data: Seq<u8>) -> u16;

/// The CRC-32/ISO-HDLC of `data` computed from the seed `init`.
pub uninterp spec fn crc32_of(init: u32, data: Seq<u8>) -> u32;

/// Relies on `crc::Crc::<u16>::digest_with_initial` with CRC-16/MCRF4XX
/// (poly 0x1021 reflected, no output xor): the result is a function of the
/// seed and the bytes alone.
#[verifier::external_body]
pub(crate) fn crc16_checksum(init: u16, data: &[u8]) -> (r: u16)
    ensures
        r == crc16_of(init, data@),
{
    let crc = crc::Crc::<u16>::new(&crc::CRC_16_MCRF4XX);
    let mut digest = crc.digest_with_initial(init);
    digest.update(data);
    digest.finalize()
}

/// Relies on `crc::Crc::<u32>::digest_with_initial` with CRC-32/ISO-HDLC
/// (poly 0x04C11DB7 reflected, output xor 0xFFFFFFFF): the result is a
/// function of the seed and the bytes alone.
#[verifier::external_body]
pub(crate) fn crc32_checksum(init: u32, data: &[u8]) -> (r: u32)
    ensures
        r == crc32_of(init, data@),
{
    let crc = crc::Crc::<u32>::new(&crc::CRC_32_ISO_HDLC);
    let mut digest = crc.digest_with_initial(init);
    digest.update(data);
    digest.finalize()
}

} // verus!
