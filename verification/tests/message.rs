use loopback_selftest::bounded::{LINE_CAPACITY, MESSAGE_CAPACITY};
use loopback_selftest::message::SelfTestMessage;

#[test]
fn capacities_are_five_and_thirty() {
    assert_eq!(MESSAGE_CAPACITY, 5);
    assert_eq!(LINE_CAPACITY, 30);
}

#[test]
fn message_keeps_its_text() {
    let message = SelfTestMessage::from_text("Hello").unwrap();
    assert_eq!(message.as_str(), "Hello");
    assert_eq!(message.as_bytes(), &[0x48, 0x65, 0x6c, 0x6c, 0x6f]);
    assert_eq!(message.len(), 5);
    assert!(!message.is_empty());
}

#[test]
fn message_of_exactly_the_capacity_fits() {
    let message = SelfTestMessage::from_text("12345").unwrap();
    assert_eq!(message.len(), MESSAGE_CAPACITY);
}

#[test]
fn message_over_the_capacity_is_refused() {
    assert!(SelfTestMessage::from_text("Hello!").is_none());
    assert!(SelfTestMessage::from_text("a much longer line of text").is_none());
}

#[test]
fn empty_message_is_valid() {
    let message = SelfTestMessage::from_text("").unwrap();
    assert_eq!(message.as_str(), "");
    assert_eq!(message.as_bytes(), &[] as &[u8]);
    assert_eq!(message.len(), 0);
    assert!(message.is_empty());
}

#[test]
fn capacity_counts_bytes_not_characters() {
    // Two characters, four bytes.
    let message = SelfTestMessage::from_text("\u{e9}\u{fc}").unwrap();
    assert_eq!(message.len(), 4);
    assert_eq!(message.as_bytes(), &[0xc3, 0xa9, 0xc3, 0xbc]);
    assert_eq!(message.as_str(), "\u{e9}\u{fc}");
    // Five characters, six bytes.
    assert!(SelfTestMessage::from_text("h\u{e9}llo").is_none());
}

#[test]
fn shorter_message_is_not_padded() {
    let message = SelfTestMessage::from_text("Hi").unwrap();
    assert_eq!(message.as_bytes(), b"Hi");
    assert_eq!(message.len(), 2);
}
