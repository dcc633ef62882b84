//! The frame encoder: every payload becomes `STX, TYPE, DELIM, <body>, ETX`.
//! Messages and syscall invocations travel verbatim under the notification
//! type; binary images travel hex-encoded under the application type, led by
//! the hex rendering of their CRC-32 checksum and one more delimiter.
use vstd::prelude::*;

use crate::checksum::{crc32_ieee, crc32_of, transform_u32_to_array_of_u8, u32_be_bytes};
use crate::hex::{hex_encode, hex_of, lemma_hex_of_len};

verus! {

/// Start-of-frame byte.
pub const STX: u8 = 0x02;

/// End-of-frame byte.
pub const ETX: u8 = 0x03;

/// Field delimiter (ASCII unit separator).
pub const DELIM: u8 = 0x1f;

/// Frame type for messages and syscall invocations (ASCII 'N').
pub const TYPE_NOTIFICATION: u8 = 0x4e;

/// Frame type for binary images (ASCII 'A').
pub const TYPE_APPLICATION: u8 = 0x41;

/// The frame that carries a message or syscall body verbatim.
pub open spec fn message_frame(body: Seq<u8>) -> Seq<u8> {
    seq![STX, TYPE_NOTIFICATION, DELIM] + body + seq![ETX]
}

/// The frame that carries a binary image: the hex rendering of the payload's
/// CRC-32 checksum, a delimiter, then the hex rendering of the payload.
pub open spec fn binary_frame(raw: Seq<u8>) -> Seq<u8> {
    seq![STX, TYPE_APPLICATION, DELIM] + hex_of(u32_be_bytes(crc32_of(raw))) + seq![DELIM]
        + hex_of(raw) + seq![ETX]
}

/// What every frame this encoder produces looks like from the outside.
pub open spec fn frame_well_formed(f: Seq<u8>) -> bool {
    &&& f.len() >= 4
    &&& f[0] == STX
    &&& f[f.len() - 1] == ETX
    &&& (f[1] == TYPE_NOTIFICATION || f[1] == TYPE_APPLICATION)
    &&& f[2] == DELIM
}

fn extend_bytes(dst: &mut Vec<u8>, src: &Vec<u8>)
    ensures
        final(dst)@ == old(dst)@ + src@,
{
    let ghost orig: Seq<u8> = dst@;
    let mut i: usize = 0;
    while i < src.len()
        invariant
            i <= src@.len(),
            dst@ == orig + src@.subrange(0, i as int),
        decreases src@.len() - i,
    {
        dst.push(src[i]);
        proof {
            assert(orig + src@.subrange(0, i as int + 1) =~= (orig + src@.subrange(
                0,
                i as int,
            )).push(src@[i as int]));
        }
        i = i + 1;
    }
    proof {
        assert(src@.subrange(0, src@.len() as int) =~= src@);
    }
}

/// Encodes a message body into a notification frame.
pub fn encode_message(msg: &Vec<u8>) -> (r: Vec<u8>)
    ensures
        r@ == message_frame(msg@),
{
    let mut r: Vec<u8> = Vec::new();
    r.push(STX);
    r.push(TYPE_NOTIFICATION);
    r.push(DELIM);
    extend_bytes(&mut r, msg);
    r.push(ETX);
    proof {
        assert(r@ =~= message_frame(msg@));
    }
    r
}

/// Encodes a syscall invocation. On the wire it is a notification frame, the
/// same shape as a message: the receiving device tells the two apart by
/// content, not by frame type.
pub fn encode_syscall(syscall: &Vec<u8>) -> (r: Vec<u8>)
    ensures
        r@ == message_frame(syscall@),
{
    encode_message(syscall)
}

/// Encodes a raw binary image into an application frame: checksum hex, a
/// delimiter, then the payload hex.
pub fn encode_binary(raw: &Vec<u8>) -> (r: Vec<u8>)
    ensures
        r@ == binary_frame(raw@),
{
    let digest: u32 = crc32_ieee(raw);
    let dbytes: [u8; 4] = transform_u32_to_array_of_u8(digest);
    let mut dvec: Vec<u8> = Vec::new();
    dvec.push(dbytes[0]);
    dvec.push(dbytes[1]);
    dvec.push(dbytes[2]);
    dvec.push(dbytes[3]);
    proof {
        assert(dvec@ =~= u32_be_bytes(digest));
    }
    let digest_hex: Vec<u8> = hex_encode(&dvec);
    let payload_hex: Vec<u8> = hex_encode(raw);
    let mut r: Vec<u8> = Vec::new();
    r.push(STX);
    r.push(TYPE_APPLICATION);
    r.push(DELIM);
    extend_bytes(&mut r, &digest_hex);
    r.push(DELIM);
    extend_bytes(&mut r, &payload_hex);
    r.push(ETX);
    proof {
        assert(r@ =~= binary_frame(raw@));
    }
    r
}

/// Every message (and syscall) frame is well formed: it starts with STX, ends
/// with ETX, carries the notification type, and a delimiter follows the type.
pub proof fn lemma_message_frame_well_formed(body: Seq<u8>)
    ensures
        frame_well_formed(message_frame(body)),
{
    let f = message_frame(body);
    assert(f.len() == 4 + body.len());
    assert(f[f.len() - 1] == ETX);
}

/// Every binary-image frame is well formed: it starts with STX, ends with
/// ETX, carries the application type, and a delimiter follows the type.
pub proof fn lemma_binary_frame_well_formed(raw: Seq<u8>)
    ensures
        frame_well_formed(binary_frame(raw)),
{
    let f = binary_frame(raw);
    lemma_hex_of_len(u32_be_bytes(crc32_of(raw)));
    lemma_hex_of_len(raw);
    assert(f.len() == 13 + 2 * raw.len());
    assert(f[f.len() - 1] == ETX);
}

/// The shape of a binary-image frame's body: eight checksum characters and a
/// delimiter after the header, then a hex payload of exactly twice the raw
/// length before the closing ETX.
pub proof fn lemma_binary_frame_body(raw: Seq<u8>)
    ensures
        binary_frame(raw).len() == 13 + 2 * raw.len(),
        binary_frame(raw).subrange(3, 11) == hex_of(u32_be_bytes(crc32_of(raw))),
        binary_frame(raw)[11] == DELIM,
        binary_frame(raw).subrange(12, binary_frame(raw).len() - 1) == hex_of(raw),
{
    let f = binary_frame(raw);
    lemma_hex_of_len(u32_be_bytes(crc32_of(raw)));
    lemma_hex_of_len(raw);
    assert(f.len() == 13 + 2 * raw.len());
    assert(f.subrange(3, 11) =~= hex_of(u32_be_bytes(crc32_of(raw))));
    assert(f.subrange(12, f.len() - 1) =~= hex_of(raw));
}

} // verus!
