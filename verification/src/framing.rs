//! Packets on a byte stream: four bytes of length, the highest first, and the
//! payload.

use crate::bytes::{
    be_bytes, be_value, law_highest_byte_comes_first, lemma_be_bytes_read_back,
    lemma_pow256_values, push_all, push_be, read_be,
};
use crate::protocol::MAX_FRAME_BYTES;
use vstd::prelude::*;

verus! {

/// The largest encrypted packet: a frame and its authentication tag.
pub const MAX_NOISE_PACKET_BYTES: u32 = 4_194_320;

/// A packet over the limit; holds its length, or `u32::MAX` where that does
/// not fit.
#[derive(Clone, Copy, Debug, PartialEq, Eq, Structural)]
pub struct PacketTooLarge(pub u32);

/// What stands on the stream for a payload.
pub open spec fn packet(payload: Seq<u8>) -> Seq<u8> {
    be_bytes(payload.len(), 4) + payload
}

/// The error for a payload of `len` bytes, where it is over `max`.
pub open spec fn too_large(len: nat, max: u32) -> Option<PacketTooLarge> {
    if len > u32::MAX {
        Some(PacketTooLarge(u32::MAX))
    } else if len > max {
        Some(PacketTooLarge(len as u32))
    } else {
        None
    }
}

/// The bytes to write for a payload of at most `max` bytes.
pub fn write_packet(payload: &[u8], max: u32) -> (out: Result<Vec<u8>, PacketTooLarge>)
    ensures
        match out {
            Ok(bytes) => too_large(payload@.len(), max) is None && bytes@ == packet(payload@),
            Err(error) => too_large(payload@.len(), max) == Some(error),
        },
{
    if payload.len() > u32::MAX as usize {
        return Err(PacketTooLarge(u32::MAX));
    }
    let len: u32 = payload.len() as u32;
    if len > max {
        return Err(PacketTooLarge(len));
    }
    let mut out: Vec<u8> = Vec::new();
    push_be(&mut out, len as u64, 4);
    push_all(&mut out, payload);
    assert(out@ =~= packet(payload@));
    Ok(out)
}

/// The length of the payload that follows a header, at most `max`.
pub fn read_packet_len(header: &[u8; 4], max: u32) -> (out: Result<usize, PacketTooLarge>)
    ensures
        match out {
            Ok(len) => len == be_value(header@) && len <= max,
            Err(PacketTooLarge(len)) => len == be_value(header@) && len > max,
        },
{
    let n: u64 = read_be(header.as_slice(), 0, 4);
    proof {
        lemma_pow256_values();
        crate::bytes::lemma_be_value_bound(header@);
        assert(header@.subrange(0, 4) =~= header@);
    }
    let len: u32 = n as u32;
    if len > max {
        Err(PacketTooLarge(len))
    } else {
        Ok(len as usize)
    }
}

/// The bytes to write for an encoded frame.
pub fn write_frame(payload: &[u8]) -> (out: Result<Vec<u8>, PacketTooLarge>)
    ensures
        match out {
            Ok(bytes) => payload@.len() <= MAX_FRAME_BYTES && bytes@ == packet(payload@),
            Err(error) => too_large(payload@.len(), MAX_FRAME_BYTES) == Some(error),
        },
{
    write_packet(payload, MAX_FRAME_BYTES)
}

/// The length of the encoded frame that follows a header.
pub fn read_frame(header: &[u8; 4]) -> (out: Result<usize, PacketTooLarge>)
    ensures
        match out {
            Ok(len) => len == be_value(header@) && len <= MAX_FRAME_BYTES,
            Err(PacketTooLarge(len)) => len == be_value(header@) && len > MAX_FRAME_BYTES,
        },
{
    read_packet_len(header, MAX_FRAME_BYTES)
}

/// A reader of a packet that was written finds its payload: the header gives
/// the payload's length, and so many bytes behind it are the payload.
pub proof fn law_packet_reads_back(payload: Seq<u8>)
    requires
        payload.len() <= u32::MAX,
    ensures
        packet(payload).len() == 4 + payload.len(),
        be_value(packet(payload).take(4)) == payload.len(),
        packet(payload).skip(4) == payload,
{
    lemma_pow256_values();
    lemma_be_bytes_read_back(payload.len(), 4);
    assert(packet(payload).take(4) =~= be_bytes(payload.len(), 4));
    assert(packet(payload).skip(4) =~= payload);
}

/// What follows a packet on the stream is untouched by reading it.
pub proof fn law_packets_do_not_run_together(payload: Seq<u8>, rest: Seq<u8>)
    requires
        payload.len() <= u32::MAX,
    ensures
        be_value((packet(payload) + rest).take(4)) == payload.len(),
        (packet(payload) + rest).subrange(4, 4int + payload.len()) == payload,
        (packet(payload) + rest).skip((4 + payload.len()) as int) == rest,
{
    law_packet_reads_back(payload);
    let stream = packet(payload) + rest;
    assert(stream.take(4) =~= packet(payload).take(4));
    assert(stream.subrange(4, 4int + payload.len()) =~= packet(payload).skip(4));
    assert(stream.skip((4 + payload.len()) as int) =~= rest);
}

/// A packet begins with its length, highest byte first, and goes on with what
/// it holds.
pub proof fn law_packet_begins_with_its_length(payload: Seq<u8>, i: int)
    requires
        payload.len() <= u32::MAX,
        0 <= i < payload.len(),
    ensures
        packet(payload)[0] == payload.len() / 0x100_0000,
        packet(payload)[1] == payload.len() / 0x1_0000 % 256,
        packet(payload)[2] == payload.len() / 0x100 % 256,
        packet(payload)[3] == payload.len() % 256,
        packet(payload)[4 + i] == payload[i],
{
    law_highest_byte_comes_first(payload.len());
}

/// What is refused is what is longer than allowed, and the refusal names the
/// length.
pub proof fn law_only_long_packets_are_refused(len: nat, max: u32)
    ensures
        too_large(len, max) is None <==> len <= max,
        max < len <= u32::MAX ==> too_large(len, max) == Some(PacketTooLarge(len as u32)),
{
}

} // verus!
