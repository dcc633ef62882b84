//! The integrity code that binary-image frames carry: a CRC-32/IEEE checksum
//! of the raw payload, rendered as four big-endian bytes.
use vstd::prelude::*;

verus! {

/// The CRC-32/IEEE checksum of a byte sequence, as the outside checksum
/// routine computes it: a function of the input bytes alone.
pub uninterp spec fn crc32_of(b: Seq<u8>) -> u32;

/// Relies on crc::crc32::checksum_ieee: the CRC-32/IEEE-802.3 checksum,
/// determined by the input bytes alone.
#[verifier::external_body]
pub(crate) fn crc32_ieee(b: &Vec<u8>) -> (r: u32)
    ensures
        r == crc32_of(b@),
{
    crc::crc32::checksum_ieee(b.as_slice())
}

/// The four bytes of a 32-bit word, most significant first.
pub open spec fn u32_be_bytes(x: u32) -> Seq<u8> {
    seq![
        ((x >> 24) & 0xff) as u8,
        ((x >> 16) & 0xff) as u8,
        ((x >> 8) & 0xff) as u8,
        (x & 0xff) as u8,
    ]
}

/// Big-endian byte decomposition of a 32-bit word.
pub fn transform_u32_to_array_of_u8(x: u32) -> (r: [u8; 4])
    ensures
        r@ == u32_be_bytes(x),
{
    let b1: u8 = ((x >> 24) & 0xff) as u8;
    let b2: u8 = ((x >> 16) & 0xff) as u8;
    let b3: u8 = ((x >> 8) & 0xff) as u8;
    let b4: u8 = (x & 0xff) as u8;
    let r: [u8; 4] = [b1, b2, b3, b4];
    proof {
        assert(r@ =~= u32_be_bytes(x));
    }
    r
}

} // verus!
