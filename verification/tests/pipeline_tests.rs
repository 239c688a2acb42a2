use moshi_client::decoder::{collect_audio_packets, is_header_packet, InboundAudio};
use moshi_client::encoder::{MsgSender, OPUS_ENCODER_FRAME_SIZE};
use moshi_client::protocol::{classify_binary, InboundAction};

/// Stands in for the codec: a deterministic, clearly-not-a-header packet.
fn fake_encode(frame: &[i16]) -> Vec<u8> {
    let mut out = vec![0x55, 0xaa];
    out.extend_from_slice(&(frame.len() as u32).to_le_bytes());
    out.push(frame[0] as u8);
    out
}

/// Drives the pipeline the way the send loop does: push samples, then pop
/// and packetize every whole frame that is ready.
fn drive(sender: &mut MsgSender, pcm: &Vec<i16>) -> Vec<Vec<u8>> {
    let mut msgs = Vec::new();
    sender.send_pcm(pcm);
    while let Some(frame) = sender.pop_frame() {
        let encoded = fake_encode(&frame);
        if let Some(msg) = sender.push_encoded(encoded).unwrap() {
            msgs.push(msg);
        }
    }
    msgs
}

/// The granule positions of every page in a container byte stream, read
/// straight out of the page headers.
fn page_granules(stream: &[u8]) -> Vec<u64> {
    let mut granules = Vec::new();
    let mut i = 0;
    while i + 27 <= stream.len() {
        if &stream[i..i + 4] == b"OggS" {
            let mut g = [0u8; 8];
            g.copy_from_slice(&stream[i + 6..i + 14]);
            granules.push(u64::from_le_bytes(g));
            let nsegs = stream[i + 26] as usize;
            let mut body = 0;
            for k in 0..nsegs {
                body += stream[i + 27 + k] as usize;
            }
            i += 27 + nsegs + body;
        } else {
            i += 1;
        }
    }
    granules
}

#[test]
fn frames_leave_in_exact_multiples() {
    let mut sender = MsgSender::new();
    assert!(sender.pop_frame().is_none());

    let pcm: Vec<i16> = (0..1000).map(|x| x as i16).collect();
    sender.send_pcm(&pcm);
    assert_eq!(sender.total_pushed(), 1000);

    let frame = sender.pop_frame().expect("a whole frame is queued");
    assert_eq!(frame.len(), OPUS_ENCODER_FRAME_SIZE);
    let expected: Vec<i16> = (0..960).map(|x| x as i16).collect();
    assert_eq!(frame, expected);

    // the 40-sample remainder stays queued
    assert!(sender.pop_frame().is_none());

    // a second push tops the remainder up to another whole frame
    let more: Vec<i16> = (1000..2000).map(|x| x as i16).collect();
    sender.send_pcm(&more);
    let frame2 = sender.pop_frame().expect("remainder plus new samples");
    let expected2: Vec<i16> = (960..1920).map(|x| x as i16).collect();
    assert_eq!(frame2, expected2);
    assert!(sender.pop_frame().is_none());
    assert_eq!(sender.total_pushed(), 2000);
}

#[test]
fn headers_lead_the_stream() {
    let mut sender = MsgSender::new();
    let pcm: Vec<i16> = vec![100; OPUS_ENCODER_FRAME_SIZE];
    let msgs = drive(&mut sender, &pcm);
    assert_eq!(msgs.len(), 1);
    let msg = &msgs[0];
    assert_eq!(msg[0], 1, "audio messages carry tag 1");
    let stream = &msg[1..];

    // page layout: 27-byte header, one lacing byte, then the packet data
    assert_eq!(&stream[0..4], b"OggS");
    assert_eq!(&stream[28..36], b"OpusHead");
    let second_page = 28 + 19;
    assert_eq!(&stream[second_page..second_page + 4], b"OggS");
    assert_eq!(&stream[second_page + 28..second_page + 36], b"OpusTags");
}

#[test]
fn granules_are_cumulative_and_monotone() {
    let mut sender = MsgSender::new();
    let mut stream: Vec<u8> = Vec::new();
    let frame_a: Vec<i16> = vec![1; OPUS_ENCODER_FRAME_SIZE];
    for msg in drive(&mut sender, &frame_a) {
        stream.extend_from_slice(&msg[1..]);
    }
    let frame_b: Vec<i16> = vec![2; OPUS_ENCODER_FRAME_SIZE + 100];
    for msg in drive(&mut sender, &frame_b) {
        stream.extend_from_slice(&msg[1..]);
    }

    let granules = page_granules(&stream);
    // two header pages at granule zero, then one audio page per frame,
    // each tagged with the cumulative samples pushed at encode time
    assert_eq!(granules, vec![0, 0, 960, 2020]);
    for w in granules.windows(2) {
        assert!(w[0] <= w[1]);
    }
}

#[test]
fn silence_suppressed_frame_adds_no_packet() {
    let mut sender = MsgSender::new();
    let pcm: Vec<i16> = vec![0; OPUS_ENCODER_FRAME_SIZE];
    sender.send_pcm(&pcm);
    let _frame = sender.pop_frame().expect("one frame");
    // zero-length encode result: no packet, but the pending header pages
    // are still flushed out as one audio message
    let msg = sender.push_encoded(Vec::new()).unwrap().expect("header pages pending");
    assert_eq!(msg[0], 1);
    let packets = collect_audio_packets(msg[1..].to_vec()).unwrap();
    assert!(packets.is_empty(), "only the two headers were in the stream");

    // nothing pending anymore: an empty encode now yields no message
    assert!(sender.push_encoded(Vec::new()).unwrap().is_none());
}

#[test]
fn header_packets_are_recognized() {
    assert!(is_header_packet(&b"OpusHead\x01\x01".to_vec()));
    assert!(is_header_packet(&b"OpusTags".to_vec()));
    assert!(!is_header_packet(&b"OpusHea".to_vec()));
    assert!(!is_header_packet(&vec![0x55, 0xaa, 1, 2, 3, 4, 5, 6, 7]));
    assert!(!is_header_packet(&Vec::new()));
}

#[test]
fn accumulator_counts_every_decoded_sample() {
    let mut rx = InboundAudio::new();
    rx.note_decoded(vec![1, 2, 3]);
    rx.note_decoded(Vec::new()); // empty decode result changes nothing
    rx.note_decoded(vec![4, 5]);
    assert_eq!(rx.total_samples(), 5);
    assert_eq!(rx.finish(), vec![1, 2, 3, 4, 5]);
}

#[test]
fn pageless_relay_stream_is_malformed() {
    // a stream that never shows a page capture pattern is rejected
    assert!(collect_audio_packets(Vec::new()).is_err());
    assert!(collect_audio_packets(vec![1, 2, 3, 4]).is_err());
}

#[test]
fn session_stream_round_trip() {
    // outbound side: two header packets, one data frame
    let mut sender = MsgSender::new();
    let pcm: Vec<i16> = vec![7; OPUS_ENCODER_FRAME_SIZE];
    let msgs = drive(&mut sender, &pcm);

    // receive side: classify each wire message and relay audio payloads
    let mut relay: Vec<u8> = Vec::new();
    for msg in &msgs {
        match classify_binary(msg) {
            InboundAction::Audio(payload) => relay.extend_from_slice(&payload),
            other => panic!("expected an audio message, got {:?}", other),
        }
    }

    // the container stream parses back to exactly the data packet, with
    // the two header packets skipped by their byte prefix
    let packets = collect_audio_packets(relay).unwrap();
    let expected = fake_encode(&vec![7; OPUS_ENCODER_FRAME_SIZE]);
    assert_eq!(packets, vec![expected]);

    // the decode side accumulates one chunk per packet; the artifact's
    // sample count matches the decoded audio length
    let mut rx = InboundAudio::new();
    for packet in &packets {
        assert!(!is_header_packet(packet));
        let decoded: Vec<i16> = vec![0; 960]; // stands in for the codec
        rx.note_decoded(decoded);
    }
    assert_eq!(rx.total_samples(), 960);
    assert_eq!(rx.finish().len(), 960);
}

#[test]
fn send_control_frames_code() {
    let sender = MsgSender::new();
    assert_eq!(sender.send_control(9), vec![3, 9]);
    assert_eq!(sender.send_control(0), vec![3, 0]);
}
