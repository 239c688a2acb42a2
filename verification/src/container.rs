//! Trusted boundary to the Ogg container crate: packet writing on the
//! outbound side, packet reading on the inbound side.
//!
//! The writer and reader are held inside opaque structs because their types
//! carry an `std::io::Write` / `std::io::Read + Seek` bound that the verifier
//! does not accept in a type declaration. Their observable state is modelled
//! by uninterpreted spec functions: the sequence of packets a sink has
//! accepted (with each packet's granule position), the page bytes it has
//! produced but not yet handed out, and a source's byte stream with a cursor
//! over the packets that stream parses to.

use vstd::prelude::*;
use crate::errors::PipeError;

verus! {

/// An Ogg packet writer emitting page bytes into an in-memory buffer.
#[verifier::external_body]
pub struct PacketSink {
    inner: ogg::PacketWriter<'static, Vec<u8>>,
}

/// The packets this sink has accepted, each with its granule position.
pub uninterp spec fn sink_packets(s: &PacketSink) -> Seq<(Seq<u8>, u64)>;

/// The page bytes this sink has produced and not yet handed out.
pub uninterp spec fn sink_pending(s: &PacketSink) -> Seq<u8>;

/// An Ogg packet reader over an in-memory byte stream.
#[verifier::external_body]
pub struct PacketSource {
    inner: ogg::PacketReader<std::io::Cursor<Vec<u8>>>,
}

/// The byte stream this source reads from.
pub uninterp spec fn source_bytes(s: &PacketSource) -> Seq<u8>;

/// How many packets this source has already yielded.
pub uninterp spec fn source_pos(s: &PacketSource) -> int;

/// The packets that a byte stream parses to, in stream order.
pub uninterp spec fn stream_packets(bytes: Seq<u8>) -> Seq<Seq<u8>>;

/// Whether a byte stream parses to its end without error: the reader is
/// deterministic over in-memory bytes, so success is a function of the
/// bytes alone.
pub uninterp spec fn stream_ok(bytes: Seq<u8>) -> bool;

/// Relies on ogg::PacketWriter::new over a fresh byte vector: a new sink has
/// accepted no packet and holds no page bytes.
#[verifier::external_body]
pub fn sink_new() -> (s: PacketSink)
    ensures
        sink_packets(&s) == Seq::<(Seq<u8>, u64)>::empty(),
        sink_pending(&s) == Seq::<u8>::empty(),
{
    PacketSink { inner: ogg::PacketWriter::new(Vec::new()) }
}

/// Relies on ogg::PacketWriter::write_packet with its end-page marker: the
/// packet is accepted, its page (at least a page header) is appended to the
/// in-memory buffer at once, and writes into a byte vector cannot fail.
#[verifier::external_body]
pub fn sink_write(s: &mut PacketSink, data: Vec<u8>, serial: u32, granule: u64) -> (r: Result<
    (),
    PipeError,
>)
    ensures
        r is Ok,
        sink_packets(final(s)) == sink_packets(old(s)).push((data@, granule)),
        sink_pending(old(s)).is_prefix_of(sink_pending(final(s))),
        sink_pending(final(s)).len() > sink_pending(old(s)).len(),
{
    match s.inner.write_packet(data, serial, ogg::PacketWriteEndInfo::EndPage, granule) {
        Ok(()) => Ok(()),
        Err(_) => Err(PipeError::ContainerWrite),
    }
}

/// Relies on ogg::PacketWriter::inner_mut: takes the page bytes produced so
/// far out of the sink's buffer, leaving it empty.
#[verifier::external_body]
pub fn sink_take(s: &mut PacketSink) -> (r: Vec<u8>)
    ensures
        r@ == sink_pending(old(s)),
        sink_pending(final(s)) == Seq::<u8>::empty(),
        sink_packets(final(s)) == sink_packets(old(s)),
{
    let buf = s.inner.inner_mut();
    let out = buf.clone();
    buf.clear();
    out
}

/// Relies on ogg::PacketReader::new over an in-memory cursor: a new source
/// stands before the first packet of its stream.
#[verifier::external_body]
pub fn source_new(bytes: Vec<u8>) -> (s: PacketSource)
    ensures
        source_bytes(&s) == bytes@,
        source_pos(&s) == 0,
{
    PacketSource { inner: ogg::PacketReader::new(std::io::Cursor::new(bytes)) }
}

/// Relies on ogg::PacketReader::read_packet: on success it yields the next
/// packet of the stream in order, or reports the stream's end once the
/// packets are exhausted. On a stream that parses without error, no read
/// errs.
#[verifier::external_body]
pub fn source_next(s: &mut PacketSource) -> (r: Result<Option<Vec<u8>>, PipeError>)
    ensures
        source_bytes(final(s)) == source_bytes(old(s)),
        stream_ok(source_bytes(old(s))) ==> !(r is Err),
        (r matches Ok(Some(d)) ==> {
            &&& 0 <= source_pos(old(s)) < stream_packets(source_bytes(old(s))).len()
            &&& d@ == stream_packets(source_bytes(old(s)))[source_pos(old(s))]
            &&& source_pos(final(s)) == source_pos(old(s)) + 1
        }),
        (r matches Ok(None) ==> {
            &&& source_pos(old(s)) >= stream_packets(source_bytes(old(s))).len()
            &&& source_pos(final(s)) == source_pos(old(s))
        }),
{
    match s.inner.read_packet() {
        Ok(Some(p)) => Ok(Some(p.data)),
        Ok(None) => Ok(None),
        Err(_) => Err(PipeError::MalformedContainer),
    }
}

} // verus!
