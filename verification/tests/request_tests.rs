use moshi_client::request::{bearer_value, chat_target, u32_decimal};

#[test]
fn decimal_formatting() {
    assert_eq!(u32_decimal(0), b"0".to_vec());
    assert_eq!(u32_decimal(7), b"7".to_vec());
    assert_eq!(u32_decimal(25), b"25".to_vec());
    assert_eq!(u32_decimal(250), b"250".to_vec());
    assert_eq!(u32_decimal(u32::MAX), b"4294967295".to_vec());
}

#[test]
fn chat_target_serializes_all_parameters() {
    let target = chat_target(
        &b"example.test".to_vec(),
        &b"0.7".to_vec(),
        25,
        &b"0.8".to_vec(),
        250,
    );
    assert_eq!(
        String::from_utf8(target).unwrap(),
        "wss://example.test/api/chat?text_temperature=0.7&text_topk=25&audio_temperature=0.8&audio_topk=250"
    );
}

#[test]
fn bearer_header_value() {
    let auth = bearer_value(&b"demo-key".to_vec());
    assert_eq!(auth, b"Bearer demo-key".to_vec());
}
