//! The outbound audio pipeline: an ordered PCM queue, fixed-size frame
//! chunking, and Ogg packetization of the codec's output, with the
//! cumulative sample count as each packet's granule position.
//!
//! The codec call itself sits outside this module: the caller pops exact
//! frames with [`MsgSender::pop_frame`], encodes them, and hands the encoded
//! bytes back to [`MsgSender::push_encoded`], which packetizes them and
//! frames the resulting page bytes as one outbound audio message.

use vstd::prelude::*;
use crate::container::{
    sink_new, sink_packets, sink_pending, sink_take, sink_write, PacketSink,
};
use crate::errors::PipeError;
use crate::headers::{opus_head_bytes, opus_tags_bytes, write_opus_header, write_opus_tags};
use crate::protocol::{audio_message, control_message, TAG_AUDIO, TAG_CONTROL};

verus! {

/// Number of PCM samples in one codec frame: frames are handed to the codec
/// only in this exact size.
pub const OPUS_ENCODER_FRAME_SIZE: usize = 960;

/// The serial number of the single logical stream inside the container.
pub const OGG_STREAM_SERIAL: u32 = 42;

/// Outbound pipeline state.
pub struct MsgSender {
    /// Samples pushed but not yet handed to the codec, in FIFO order.
    queue: Vec<i16>,
    /// Cumulative count of samples ever pushed; each emitted packet is
    /// tagged with this count as its granule position.
    total: u64,
    /// Cumulative count of samples handed to the codec.
    consumed: u64,
    /// The container writer: the two header packets, then audio packets.
    pw: PacketSink,
}

impl MsgSender {
    /// Cumulative samples pushed into the pipeline.
    pub closed spec fn total_spec(&self) -> u64 {
        self.total
    }

    /// Cumulative samples handed out for encoding.
    pub closed spec fn consumed_spec(&self) -> u64 {
        self.consumed
    }

    /// Samples still queued, in order.
    pub closed spec fn queued_spec(&self) -> Seq<i16> {
        self.queue@
    }

    /// Packets accepted by the container writer, each with its granule.
    pub closed spec fn packets_spec(&self) -> Seq<(Seq<u8>, u64)> {
        sink_packets(&self.pw)
    }

    /// Container page bytes produced but not yet framed into a message.
    pub closed spec fn pending_spec(&self) -> Seq<u8> {
        sink_pending(&self.pw)
    }

    /// Well-formedness: nothing pushed is lost (every sample is either
    /// consumed or still queued), the codec only ever saw whole frames, the
    /// stream opens with exactly the two header packets at granule zero, and
    /// granule positions never exceed the cumulative count and never
    /// decrease.
    pub closed spec fn wf(&self) -> bool {
        &&& self.consumed % (OPUS_ENCODER_FRAME_SIZE as u64) == 0
        &&& self.consumed + self.queue@.len() == self.total
        &&& sink_packets(&self.pw).len() >= 2
        &&& sink_packets(&self.pw)[0] == (opus_head_bytes(), 0u64)
        &&& sink_packets(&self.pw)[1] == (opus_tags_bytes(), 0u64)
        &&& forall|i: int|
            0 <= i < sink_packets(&self.pw).len() ==> #[trigger] sink_packets(&self.pw)[i].1
                <= self.total
        &&& forall|i: int, j: int|
            0 <= i <= j < sink_packets(&self.pw).len() ==> #[trigger] sink_packets(&self.pw)[i].1
                <= #[trigger] sink_packets(&self.pw)[j].1
    }

    /// Builds a fresh pipeline: the identification and comment headers are
    /// written eagerly, each flushed to a page boundary, so the stream is
    /// self-describing from its first byte.
    pub fn new() -> (s: MsgSender)
        ensures
            s.wf(),
            s.total_spec() == 0,
            s.consumed_spec() == 0,
            s.queued_spec() == Seq::<i16>::empty(),
            s.packets_spec() == seq![(opus_head_bytes(), 0u64), (opus_tags_bytes(), 0u64)],
            s.pending_spec().len() > 0,
    {
        let mut pw = sink_new();
        let head = write_opus_header();
        match sink_write(&mut pw, head, OGG_STREAM_SERIAL, 0) {
            Ok(()) => {},
            Err(_) => {},  // unreachable: writes into the in-memory sink cannot fail
        }
        let tags = write_opus_tags();
        match sink_write(&mut pw, tags, OGG_STREAM_SERIAL, 0) {
            Ok(()) => {},
            Err(_) => {},  // unreachable: writes into the in-memory sink cannot fail
        }
        let s = MsgSender { queue: Vec::new(), total: 0, consumed: 0, pw };
        proof {
            assert(s.packets_spec() =~= seq![
                (opus_head_bytes(), 0u64),
                (opus_tags_bytes(), 0u64),
            ]);
        }
        s
    }

    /// Appends captured samples, in order, to the queue and counts them.
    /// Nothing is encoded here: frames leave only through `pop_frame`.
    pub fn send_pcm(&mut self, pcm: &Vec<i16>)
        requires
            old(self).wf(),
            old(self).total_spec() + pcm@.len() <= u64::MAX,
        ensures
            final(self).wf(),
            final(self).total_spec() == old(self).total_spec() + pcm@.len(),
            final(self).consumed_spec() == old(self).consumed_spec(),
            final(self).queued_spec() == old(self).queued_spec() + pcm@,
            final(self).packets_spec() == old(self).packets_spec(),
            final(self).pending_spec() == old(self).pending_spec(),
    {
        let mut i: usize = 0;
        while i < pcm.len()
            invariant
                0 <= i <= pcm@.len(),
                self.queue@ == old(self).queue@ + pcm@.subrange(0, i as int),
                self.total == old(self).total,
                self.consumed == old(self).consumed,
                self.pw == old(self).pw,
            decreases pcm@.len() - i,
        {
            self.queue.push(pcm[i]);
            proof {
                assert(self.queue@ =~= old(self).queue@ + pcm@.subrange(0, i + 1));
            }
            i += 1;
        }
        proof {
            assert(self.queue@ =~= old(self).queue@ + pcm@);
        }
        self.total = self.total + pcm.len() as u64;
    }

    /// Pops exactly one frame's worth of samples, FIFO, when a whole frame
    /// is queued; any remainder below a full frame stays queued.
    pub fn pop_frame(&mut self) -> (r: Option<Vec<i16>>)
        requires
            old(self).wf(),
        ensures
            final(self).wf(),
            old(self).queued_spec().len() < OPUS_ENCODER_FRAME_SIZE ==> (r is None && *final(self)
                == *old(self)),
            old(self).queued_spec().len() >= OPUS_ENCODER_FRAME_SIZE ==> (r matches Some(f) && {
                &&& f@ == old(self).queued_spec().take(OPUS_ENCODER_FRAME_SIZE as int)
                &&& final(self).queued_spec() == old(self).queued_spec().skip(
                    OPUS_ENCODER_FRAME_SIZE as int,
                )
                &&& final(self).consumed_spec() == old(self).consumed_spec()
                    + OPUS_ENCODER_FRAME_SIZE
                &&& final(self).total_spec() == old(self).total_spec()
                &&& final(self).packets_spec() == old(self).packets_spec()
                &&& final(self).pending_spec() == old(self).pending_spec()
            }),
    {
        if self.queue.len() < OPUS_ENCODER_FRAME_SIZE {
            return None;
        }
        let mut frame: Vec<i16> = Vec::new();
        let mut i: usize = 0;
        while i < OPUS_ENCODER_FRAME_SIZE
            invariant
                0 <= i <= OPUS_ENCODER_FRAME_SIZE,
                self == old(self),
                self.queue@.len() >= OPUS_ENCODER_FRAME_SIZE,
                frame@ == self.queue@.subrange(0, i as int),
            decreases OPUS_ENCODER_FRAME_SIZE - i,
        {
            frame.push(self.queue[i]);
            proof {
                assert(frame@ =~= self.queue@.subrange(0, i + 1));
            }
            i += 1;
        }
        let mut rest: Vec<i16> = Vec::new();
        let mut j: usize = OPUS_ENCODER_FRAME_SIZE;
        while j < self.queue.len()
            invariant
                OPUS_ENCODER_FRAME_SIZE <= j <= self.queue@.len(),
                self == old(self),
                rest@ == self.queue@.subrange(OPUS_ENCODER_FRAME_SIZE as int, j as int),
            decreases self.queue@.len() - j,
        {
            rest.push(self.queue[j]);
            proof {
                assert(rest@ =~= self.queue@.subrange(OPUS_ENCODER_FRAME_SIZE as int, j + 1));
            }
            j += 1;
        }
        proof {
            assert(rest@ =~= self.queue@.skip(OPUS_ENCODER_FRAME_SIZE as int));
            assert(frame@ =~= self.queue@.take(OPUS_ENCODER_FRAME_SIZE as int));
        }
        self.queue = rest;
        self.consumed = self.consumed + OPUS_ENCODER_FRAME_SIZE as u64;
        Some(frame)
    }

    /// Packetizes one encoded frame and frames the container bytes produced
    /// so far as one outbound audio message.
    ///
    /// A zero-length encode result (silence suppressed by the codec) adds no
    /// packet; any page bytes still pending — in particular the two header
    /// pages right after construction — are framed and handed out all the
    /// same. The packet's granule position is the cumulative count of
    /// samples pushed at encode time, not the frame's size.
    pub fn push_encoded(&mut self, encoded: Vec<u8>) -> (r: Result<Option<Vec<u8>>, PipeError>)
        requires
            old(self).wf(),
        ensures
            r is Ok,
            final(self).wf(),
            final(self).total_spec() == old(self).total_spec(),
            final(self).consumed_spec() == old(self).consumed_spec(),
            final(self).queued_spec() == old(self).queued_spec(),
            encoded@.len() > 0 ==> final(self).packets_spec() == old(self).packets_spec().push(
                (encoded@, old(self).total_spec()),
            ),
            encoded@.len() == 0 ==> final(self).packets_spec() == old(self).packets_spec(),
            encoded@.len() > 0 ==> r matches Ok(Some(m)),
            (r matches Ok(Some(m)) ==> {
                &&& m@.len() > 1
                &&& m@[0] == TAG_AUDIO
                &&& old(self).pending_spec().is_prefix_of(m@.skip(1))
                &&& final(self).pending_spec() == Seq::<u8>::empty()
            }),
            encoded@.len() == 0 && old(self).pending_spec().len() == 0 ==> r matches Ok(None),
            encoded@.len() == 0 ==> (r matches Ok(Some(m)) ==> m@.skip(1) == old(
                self,
            ).pending_spec()),
            (r matches Ok(None) ==> {
                &&& encoded@.len() == 0
                &&& old(self).pending_spec() == Seq::<u8>::empty()
                &&& final(self).pending_spec() == Seq::<u8>::empty()
            }),
    {
        if encoded.len() > 0 {
            match sink_write(&mut self.pw, encoded, OGG_STREAM_SERIAL, self.total) {
                Ok(()) => {},
                Err(e) => {
                    return Err(e);
                },
            }
        }
        let data = sink_take(&mut self.pw);
        if data.len() > 0 {
            let m = audio_message(&data);
            proof {
                assert(old(self).pending_spec().is_prefix_of(m@.skip(1))) by {
                    assert(m@.skip(1) =~= data@);
                };
            }
            Ok(Some(m))
        } else {
            Ok(None)
        }
    }

    /// Cumulative count of samples ever pushed into the pipeline.
    pub fn total_pushed(&self) -> (r: u64)
        ensures
            r == self.total_spec(),
    {
        self.total
    }

    /// Frames one control message: the control tag and the single code byte.
    pub fn send_control(&self, code: u8) -> (r: Vec<u8>)
        ensures
            r@ == seq![TAG_CONTROL, code],
    {
        control_message(code)
    }
}

/// Law: nothing is lost and frames are whole. In every well-formed pipeline
/// state, the samples handed to the codec plus the samples still queued are
/// exactly the samples ever pushed, and the codec only ever received exact
/// multiples of the fixed frame size.
pub proof fn lemma_sample_conservation(s: &MsgSender)
    requires
        s.wf(),
    ensures
        s.consumed_spec() + s.queued_spec().len() == s.total_spec(),
        s.consumed_spec() % (OPUS_ENCODER_FRAME_SIZE as u64) == 0,
{
}

/// Law: granule positions are monotonically non-decreasing along the packet
/// sequence, and no granule exceeds the cumulative sample count.
pub proof fn lemma_granules_monotone(s: &MsgSender)
    requires
        s.wf(),
    ensures
        forall|i: int, j: int|
            0 <= i <= j < s.packets_spec().len() ==> #[trigger] s.packets_spec()[i].1
                <= #[trigger] s.packets_spec()[j].1,
        forall|i: int|
            0 <= i < s.packets_spec().len() ==> #[trigger] s.packets_spec()[i].1
                <= s.total_spec(),
{
}

/// Law: the container stream always opens with the identification header
/// and the comment header as its first two packets, both at granule zero.
pub proof fn lemma_headers_first(s: &MsgSender)
    requires
        s.wf(),
    ensures
        s.packets_spec().len() >= 2,
        s.packets_spec()[0] == (opus_head_bytes(), 0u64),
        s.packets_spec()[1] == (opus_tags_bytes(), 0u64),
{
}

} // verus!
