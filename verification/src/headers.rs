//! The two header packets that open every outbound Opus-in-Ogg stream: the
//! identification header ("OpusHead") and the comment header ("OpusTags").
//! Multi-byte fields are little-endian.

use vstd::prelude::*;

verus! {

/// The magic bytes "OpusHead" that open the identification header.
pub open spec fn opus_head_magic() -> Seq<u8> {
    seq![0x4fu8, 0x70u8, 0x75u8, 0x73u8, 0x48u8, 0x65u8, 0x61u8, 0x64u8]
}

/// The magic bytes "OpusTags" that open the comment header.
pub open spec fn opus_tags_magic() -> Seq<u8> {
    seq![0x4fu8, 0x70u8, 0x75u8, 0x73u8, 0x54u8, 0x61u8, 0x67u8, 0x73u8]
}

/// The vendor string carried by the comment header.
pub open spec fn vendor_string_bytes() -> Seq<u8> {
    // "KyutaiMoshi"
    seq![0x4bu8, 0x79u8, 0x75u8, 0x74u8, 0x61u8, 0x69u8, 0x4du8, 0x6fu8, 0x73u8, 0x68u8, 0x69u8]
}

/// A 16-bit value in little-endian byte order.
pub open spec fn u16_le_bytes(v: u16) -> Seq<u8> {
    seq![(v & 0xff) as u8, ((v >> 8) & 0xff) as u8]
}

/// A 32-bit value in little-endian byte order.
pub open spec fn u32_le_bytes(v: u32) -> Seq<u8> {
    seq![
        (v & 0xff) as u8,
        ((v >> 8) & 0xff) as u8,
        ((v >> 16) & 0xff) as u8,
        ((v >> 24) & 0xff) as u8,
    ]
}

/// The identification header: magic, version 1, one channel, a pre-skip of
/// 3840 samples, a declared input rate of 48000 Hz (container metadata, kept
/// distinct from the codec's operating rate on purpose), zero output gain and
/// channel-mapping family zero.
pub open spec fn opus_head_bytes() -> Seq<u8> {
    opus_head_magic() + seq![1u8, 1u8] + u16_le_bytes(3840) + u32_le_bytes(48000)
        + u16_le_bytes(0) + seq![0u8]
}

/// The comment header: magic, vendor string length, vendor string, and a
/// zero count of further tags.
pub open spec fn opus_tags_bytes() -> Seq<u8> {
    opus_tags_magic() + u32_le_bytes(11) + vendor_string_bytes() + u32_le_bytes(0)
}

/// Appends a 16-bit value in little-endian order.
pub fn push_u16_le(out: &mut Vec<u8>, v: u16)
    ensures
        final(out)@ == old(out)@ + u16_le_bytes(v),
{
    proof {
        assert((v & 0xff) < 256 && ((v >> 8) & 0xff) < 256) by (bit_vector);
    }
    out.push((v & 0xff) as u8);
    out.push(((v >> 8) & 0xff) as u8);
    proof {
        assert(out@ =~= old(out)@ + u16_le_bytes(v));
    }
}

/// Appends a 32-bit value in little-endian order.
pub fn push_u32_le(out: &mut Vec<u8>, v: u32)
    ensures
        final(out)@ == old(out)@ + u32_le_bytes(v),
{
    proof {
        assert((v & 0xff) < 256 && ((v >> 8) & 0xff) < 256 && ((v >> 16) & 0xff) < 256
            && ((v >> 24) & 0xff) < 256) by (bit_vector);
    }
    out.push((v & 0xff) as u8);
    out.push(((v >> 8) & 0xff) as u8);
    out.push(((v >> 16) & 0xff) as u8);
    out.push(((v >> 24) & 0xff) as u8);
    proof {
        assert(out@ =~= old(out)@ + u32_le_bytes(v));
    }
}

/// Builds the identification header packet.
pub fn write_opus_header() -> (r: Vec<u8>)
    ensures
        r@ == opus_head_bytes(),
{
    let mut out: Vec<u8> = Vec::new();
    out.push(0x4f);
    out.push(0x70);
    out.push(0x75);
    out.push(0x73);
    out.push(0x48);
    out.push(0x65);
    out.push(0x61);
    out.push(0x64);
    out.push(1); // version
    out.push(1); // channel count
    push_u16_le(&mut out, 3840); // pre-skip
    push_u32_le(&mut out, 48000); // declared input sample rate in Hz
    push_u16_le(&mut out, 0); // output gain, Q7.8 dB
    out.push(0); // channel mapping family
    proof {
        assert(out@ =~= opus_head_bytes());
    }
    out
}

/// Builds the comment header packet.
pub fn write_opus_tags() -> (r: Vec<u8>)
    ensures
        r@ == opus_tags_bytes(),
{
    let mut out: Vec<u8> = Vec::new();
    out.push(0x4f);
    out.push(0x70);
    out.push(0x75);
    out.push(0x73);
    out.push(0x54);
    out.push(0x61);
    out.push(0x67);
    out.push(0x73);
    push_u32_le(&mut out, 11); // vendor string length
    out.push(0x4b);
    out.push(0x79);
    out.push(0x75);
    out.push(0x74);
    out.push(0x61);
    out.push(0x69);
    out.push(0x4d);
    out.push(0x6f);
    out.push(0x73);
    out.push(0x68);
    out.push(0x69);
    push_u32_le(&mut out, 0); // number of further tags
    proof {
        assert(out@ =~= opus_tags_bytes());
    }
    out
}

} // verus!
