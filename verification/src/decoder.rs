//! The inbound audio pipeline: parsing the container byte stream into
//! packets, skipping the two header packets by their literal byte prefix,
//! and accumulating the decoded PCM chunks together with a running total
//! used when the session's audio is persisted at the end.
//!
//! The codec call sits outside this module: the caller pulls the audio
//! packets, decodes each, and hands every decoded chunk back to
//! [`InboundAudio::note_decoded`].

use vstd::prelude::*;
use crate::container::{source_bytes, source_new, source_next, source_pos, stream_ok,
    stream_packets};
use crate::errors::PipeError;
use crate::headers::{opus_head_magic, opus_tags_magic};

verus! {

/// Whether a packet is one of the two stream headers, recognized by its
/// literal 8-byte magic prefix.
pub open spec fn is_header_spec(data: Seq<u8>) -> bool {
    data.len() >= 8 && (data.take(8) == opus_head_magic() || data.take(8) == opus_tags_magic())
}

/// The packets that are kept by the inbound pipeline: everything that is
/// not one of the two headers.
pub open spec fn audio_packet_pred() -> spec_fn(Seq<u8>) -> bool {
    |p: Seq<u8>| !is_header_spec(p)
}

/// The data packets of a container byte stream: its packets with the two
/// headers filtered out.
pub open spec fn audio_packets_of(bytes: Seq<u8>) -> Seq<Seq<u8>> {
    stream_packets(bytes).filter(audio_packet_pred())
}

/// Tests whether a packet starts with one of the two header magics.
pub fn is_header_packet(data: &Vec<u8>) -> (r: bool)
    ensures
        r == is_header_spec(data@),
{
    if data.len() < 8 {
        return false;
    }
    let head = matches_magic_head(data);
    let tags = matches_magic_tags(data);
    proof {
        assert(data@.take(8).len() == 8);
    }
    head || tags
}

fn matches_magic_head(data: &Vec<u8>) -> (r: bool)
    requires
        data@.len() >= 8,
    ensures
        r == (data@.take(8) == opus_head_magic()),
{
    let r = data[0] == 0x4f && data[1] == 0x70 && data[2] == 0x75 && data[3] == 0x73 && data[4]
        == 0x48 && data[5] == 0x65 && data[6] == 0x61 && data[7] == 0x64;
    proof {
        if r {
            assert(data@.take(8) =~= opus_head_magic());
        } else {
            assert(data@.take(8) != opus_head_magic()) by {
                if data@.take(8) == opus_head_magic() {
                    assert(data@[0] == 0x4f && data@[1] == 0x70 && data@[2] == 0x75 && data@[3]
                        == 0x73 && data@[4] == 0x48 && data@[5] == 0x65 && data@[6] == 0x61
                        && data@[7] == 0x64);
                }
            };
        }
    }
    r
}

fn matches_magic_tags(data: &Vec<u8>) -> (r: bool)
    requires
        data@.len() >= 8,
    ensures
        r == (data@.take(8) == opus_tags_magic()),
{
    let r = data[0] == 0x4f && data[1] == 0x70 && data[2] == 0x75 && data[3] == 0x73 && data[4]
        == 0x54 && data[5] == 0x61 && data[6] == 0x67 && data[7] == 0x73;
    proof {
        if r {
            assert(data@.take(8) =~= opus_tags_magic());
        } else {
            assert(data@.take(8) != opus_tags_magic()) by {
                if data@.take(8) == opus_tags_magic() {
                    assert(data@[0] == 0x4f && data@[1] == 0x70 && data@[2] == 0x75 && data@[3]
                        == 0x73 && data@[4] == 0x54 && data@[5] == 0x61 && data@[6] == 0x67
                        && data@[7] == 0x73);
                }
            };
        }
    }
    r
}

proof fn lemma_filter_singleton(x: Seq<u8>, p: spec_fn(Seq<u8>) -> bool)
    ensures
        p(x) ==> seq![x].filter(p) == seq![x],
        !p(x) ==> seq![x].filter(p) == Seq::<Seq<u8>>::empty(),
{
    reveal(Seq::filter);
    let s = seq![x];
    assert(s.len() == 1);
    assert(s.last() == x);
    assert(s.drop_last() =~= Seq::<Seq<u8>>::empty());
    assert(Seq::<Seq<u8>>::empty().filter(p) =~= Seq::<Seq<u8>>::empty());
    if p(x) {
        assert(s.filter(p) =~= Seq::<Seq<u8>>::empty().push(x));
        assert(Seq::<Seq<u8>>::empty().push(x) =~= seq![x]);
    }
}

/// Pulls every packet out of a container byte stream and keeps the data
/// packets, in stream order, with the two header packets skipped. A stream
/// that parses without error always yields its packets.
pub fn collect_audio_packets(bytes: Vec<u8>) -> (r: Result<Vec<Vec<u8>>, PipeError>)
    ensures
        (r matches Ok(pkts) ==> pkts@.map_values(|v: Vec<u8>| v@) == audio_packets_of(bytes@)),
        stream_ok(bytes@) ==> r is Ok,
{
    let mut src = source_new(bytes);
    let mut out: Vec<Vec<u8>> = Vec::new();
    proof {
        assert(out@.map_values(|v: Vec<u8>| v@) =~= stream_packets(bytes@).take(0).filter(
            audio_packet_pred(),
        )) by {
            broadcast use Seq::lemma_filter_len;

        };
    }
    loop
        invariant
            source_bytes(&src) == bytes@,
            0 <= source_pos(&src) <= stream_packets(bytes@).len(),
            out@.map_values(|v: Vec<u8>| v@) == stream_packets(bytes@).take(
                source_pos(&src),
            ).filter(audio_packet_pred()),
        decreases stream_packets(bytes@).len() - source_pos(&src),
    {
        let ghost prev_pos: int = source_pos(&src);
        let step = source_next(&mut src);
        match step {
            Err(e) => {
                return Err(e);
            },
            Ok(None) => {
                proof {
                    let pkts = stream_packets(bytes@);
                    assert(prev_pos == pkts.len());
                    assert(pkts.take(prev_pos) =~= pkts);
                    assert(out@.map_values(|v: Vec<u8>| v@) == pkts.filter(audio_packet_pred()));
                }
                return Ok(out);
            },
            Ok(Some(d)) => {
                let keep = !is_header_packet(&d);
                proof {
                    let pkts = stream_packets(bytes@);
                    assert(pkts.take(prev_pos + 1) =~= pkts.take(prev_pos) + seq![d@]);
                    Seq::filter_distributes_over_add(pkts.take(prev_pos), seq![d@], audio_packet_pred());
                    lemma_filter_singleton(d@, audio_packet_pred());
                    assert(keep == !is_header_spec(d@));
                    assert(audio_packet_pred()(d@) == !is_header_spec(d@));
                    if keep {
                        assert(seq![d@].filter(audio_packet_pred()) == seq![d@]);
                    } else {
                        assert(seq![d@].filter(audio_packet_pred()) == Seq::<Seq<u8>>::empty());
                    }
                }
                if keep {
                    let ghost old_out = out@;
                    out.push(d);
                    proof {
                        assert(out@.map_values(|v: Vec<u8>| v@) =~= old_out.map_values(
                            |v: Vec<u8>| v@,
                        ).push(d@));
                        assert(out@.map_values(|v: Vec<u8>| v@) =~= stream_packets(bytes@).take(
                            prev_pos + 1,
                        ).filter(audio_packet_pred()));
                    }
                } else {
                    proof {
                        assert(out@.map_values(|v: Vec<u8>| v@) =~= stream_packets(bytes@).take(
                            prev_pos + 1,
                        ).filter(audio_packet_pred()));
                    }
                }
            },
        }
    }
}

/// Inbound accumulation state: the decoded chunks in arrival order and the
/// running total of decoded samples.
pub struct InboundAudio {
    chunks: Vec<Vec<i16>>,
    total: usize,
}

impl InboundAudio {
    /// The decoded chunks accumulated so far, in arrival order.
    pub closed spec fn chunks_spec(&self) -> Seq<Seq<i16>> {
        self.chunks@.map_values(|v: Vec<i16>| v@)
    }

    /// The running total of decoded samples.
    pub closed spec fn total_spec(&self) -> usize {
        self.total
    }

    /// Well-formedness: the running total is exactly the length of the
    /// accumulated audio, and no accumulated chunk is empty.
    pub closed spec fn wf(&self) -> bool {
        &&& self.total == self.chunks_spec().flatten().len()
        &&& forall|i: int| 0 <= i < self.chunks_spec().len() ==> #[trigger] self.chunks_spec()[i].len() > 0
    }

    /// A fresh accumulator with no audio.
    pub fn new() -> (s: InboundAudio)
        ensures
            s.wf(),
            s.chunks_spec() == Seq::<Seq<i16>>::empty(),
            s.total_spec() == 0,
    {
        let s = InboundAudio { chunks: Vec::new(), total: 0 };
        proof {
            assert(s.chunks_spec() =~= Seq::<Seq<i16>>::empty());
            assert(s.chunks_spec().flatten() =~= Seq::<i16>::empty());
        }
        s
    }

    /// Records one decode result: a non-empty chunk is appended and counted,
    /// an empty one changes nothing.
    pub fn note_decoded(&mut self, samples: Vec<i16>)
        requires
            old(self).wf(),
            old(self).total_spec() + samples@.len() <= usize::MAX,
        ensures
            final(self).wf(),
            samples@.len() > 0 ==> final(self).chunks_spec() == old(self).chunks_spec().push(
                samples@,
            ),
            samples@.len() > 0 ==> final(self).total_spec() == old(self).total_spec()
                + samples@.len(),
            samples@.len() == 0 ==> *final(self) == *old(self),
    {
        if samples.len() == 0 {
            return ;
        }
        proof {
            let ghost chunks = self.chunks_spec();
            chunks.lemma_flatten_push(samples@);
            assert(self.chunks@.push(samples).map_values(|v: Vec<i16>| v@) =~= chunks.push(
                samples@,
            ));
        }
        self.total = self.total + samples.len();
        self.chunks.push(samples);
    }

    /// The running total of decoded samples.
    pub fn total_samples(&self) -> (r: usize)
        ensures
            r == self.total_spec(),
    {
        self.total
    }

    /// Concatenates the accumulated chunks into the session's single audio
    /// artifact; its sample count is exactly the running total.
    pub fn finish(&self) -> (r: Vec<i16>)
        requires
            self.wf(),
        ensures
            r@ == self.chunks_spec().flatten(),
            r@.len() == self.total_spec(),
    {
        let mut out: Vec<i16> = Vec::new();
        let mut i: usize = 0;
        proof {
            assert(self.chunks_spec().take(0).flatten() =~= Seq::<i16>::empty());
        }
        while i < self.chunks.len()
            invariant
                0 <= i <= self.chunks@.len(),
                self.wf(),
                out@ == self.chunks_spec().take(i as int).flatten(),
            decreases self.chunks@.len() - i,
        {
            let chunk = &self.chunks[i];
            let mut k: usize = 0;
            let ghost out_before = out@;
            while k < chunk.len()
                invariant
                    0 <= k <= chunk@.len(),
                    chunk == &self.chunks[i as int],
                    0 <= i < self.chunks@.len(),
                    out@ == out_before + chunk@.subrange(0, k as int),
                decreases chunk@.len() - k,
            {
                out.push(chunk[k]);
                proof {
                    assert(out@ =~= out_before + chunk@.subrange(0, k + 1));
                }
                k += 1;
            }
            proof {
                let cs = self.chunks_spec();
                assert(cs.take(i + 1) =~= cs.take(i as int).push(cs[i as int]));
                cs.take(i as int).lemma_flatten_push(cs[i as int]);
                assert(out@ =~= cs.take(i + 1).flatten());
            }
            i += 1;
        }
        proof {
            assert(self.chunks_spec().take(self.chunks@.len() as int) =~= self.chunks_spec());
        }
        out
    }
}

/// Law: the accumulated total always equals the length of the concatenated
/// audio — the persisted artifact's sample count matches the decoded audio.
pub proof fn lemma_total_matches_audio(s: &InboundAudio)
    requires
        s.wf(),
    ensures
        s.total_spec() == s.chunks_spec().flatten().len(),
{
}

} // verus!
