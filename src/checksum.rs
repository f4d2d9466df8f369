//! Page checksums: CRC-16 over the CCITT polynomial (the one X.25 uses),
//! initial value 0, no final XOR, bits in normal order, as computed by the
//! `crc` crate.

use vstd::prelude::*;

verus! {

/// The CRC-16/CCITT checksum of a byte string: polynomial 0x1021,
/// initial value 0, no reflection, no final XOR.
pub uninterp spec fn crc16_ccitt(b: Seq<u8>) -> u16;

/// Relies on `crc::Crc::<u16>::checksum` with the `CRC_16_XMODEM` parameters
/// (polynomial 0x1021, initial value 0, no reflection, no final XOR): a
/// function of the bytes alone.
#[verifier::external_body]
fn checksum_ccitt(b: &[u8]) -> (r: u16)
    ensures
        r == crc16_ccitt(b@),
{
    crc::Crc::<u16>::new(&crc::CRC_16_XMODEM).checksum(b)
}

/// The checksum of one page.
pub fn page_checksum(page: &[u8]) -> (r: u16)
    ensures
        r == crc16_ccitt(page@),
{
    checksum_ccitt(page)
}

/// The same bytes always have the same checksum.
pub proof fn lemma_checksum_deterministic(a: Seq<u8>, b: Seq<u8>)
    requires
        a == b,
    ensures
        crc16_ccitt(a) == crc16_ccitt(b),
{
}

} // verus!
