use moshi_client::headers::{write_opus_header, write_opus_tags};

#[test]
fn identification_header_bytes() {
    let head = write_opus_header();
    let mut expected: Vec<u8> = Vec::new();
    expected.extend_from_slice(b"OpusHead");
    expected.push(1); // version
    expected.push(1); // channel count
    expected.extend_from_slice(&3840u16.to_le_bytes()); // pre-skip
    expected.extend_from_slice(&48000u32.to_le_bytes()); // declared rate
    expected.extend_from_slice(&0i16.to_le_bytes()); // output gain
    expected.push(0); // channel mapping family
    assert_eq!(head, expected);
    assert_eq!(head.len(), 19);
}

#[test]
fn comment_header_bytes() {
    let tags = write_opus_tags();
    let mut expected: Vec<u8> = Vec::new();
    expected.extend_from_slice(b"OpusTags");
    expected.extend_from_slice(&11u32.to_le_bytes()); // vendor length
    expected.extend_from_slice(b"KyutaiMoshi");
    expected.extend_from_slice(&0u32.to_le_bytes()); // no further tags
    assert_eq!(tags, expected);
}
