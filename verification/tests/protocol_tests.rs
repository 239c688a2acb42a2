use moshi_client::protocol::{audio_message, classify_binary, control_message, InboundAction};

#[test]
fn empty_binary_is_ignored() {
    let bin: Vec<u8> = Vec::new();
    let action = classify_binary(&bin);
    assert_eq!(action, InboundAction::Ignore);
}

#[test]
fn handshake_tag_is_acknowledged() {
    let bin: Vec<u8> = vec![0];
    assert_eq!(classify_binary(&bin), InboundAction::Handshake);
}

#[test]
fn audio_tag_yields_payload() {
    let bin: Vec<u8> = vec![1, 10, 20, 30];
    assert_eq!(classify_binary(&bin), InboundAction::Audio(vec![10, 20, 30]));
}

#[test]
fn text_tag_hello_yields_exact_payload() {
    let mut bin: Vec<u8> = vec![2];
    bin.extend_from_slice(b"hello");
    assert_eq!(classify_binary(&bin), InboundAction::Text(b"hello".to_vec()));
}

#[test]
fn control_and_metadata_tags_are_dropped() {
    assert_eq!(classify_binary(&vec![3, 9]), InboundAction::Control);
    assert_eq!(classify_binary(&vec![4, 1, 2]), InboundAction::Metadata);
}

#[test]
fn unknown_tag_is_reported_not_fatal() {
    let bin: Vec<u8> = vec![99, 1, 2, 3];
    assert_eq!(classify_binary(&bin), InboundAction::Unknown(99));
    // the loop goes on: the next message still classifies normally
    assert_eq!(classify_binary(&vec![0]), InboundAction::Handshake);
}

#[test]
fn tag_with_empty_payload_still_typed() {
    assert_eq!(classify_binary(&vec![2]), InboundAction::Text(Vec::new()));
    assert_eq!(classify_binary(&vec![1]), InboundAction::Audio(Vec::new()));
}

#[test]
fn control_message_is_tag_and_code() {
    assert_eq!(control_message(5), vec![3, 5]);
    assert_eq!(control_message(0), vec![3, 0]);
}

#[test]
fn audio_message_prefixes_tag() {
    let data: Vec<u8> = vec![7, 8, 9];
    assert_eq!(audio_message(&data), vec![1, 7, 8, 9]);
    let empty: Vec<u8> = Vec::new();
    assert_eq!(audio_message(&empty), vec![1]);
}
