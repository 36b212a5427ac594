use loopback_selftest::engine::{
    compare, run_cycle, Comparison, LinkEvent, LoopbackEngine, TestOutcome, Transfer,
};
use loopback_selftest::message::SelfTestMessage;

fn hello() -> SelfTestMessage {
    SelfTestMessage::from_text("Hello").unwrap()
}

#[test]
fn faithful_echo_succeeds() {
    assert_eq!(run_cycle(&hello(), b"Hello"), Some(TestOutcome::Success));
}

#[test]
fn faithful_echo_succeeds_for_every_length() {
    for text in ["", "a", "ab", "abc", "abcd", "abcde"] {
        let message = SelfTestMessage::from_text(text).unwrap();
        assert_eq!(run_cycle(&message, text.as_bytes()), Some(TestOutcome::Success));
    }
}

#[test]
fn corrupted_byte_at_any_position_fails() {
    let message = hello();
    for k in 0..5 {
        let mut echo = *b"Hello";
        echo[k] ^= 0x20;
        assert_eq!(run_cycle(&message, &echo), Some(TestOutcome::NoResponse));
    }
}

#[test]
fn comparison_stops_at_the_corrupted_position() {
    for k in 0..5 {
        let mut echo = *b"Hello";
        echo[k] = b'#';
        let found = compare(b"Hello", &echo);
        assert_eq!(found, Comparison { outcome: TestOutcome::NoResponse, inspected: k + 1 });
    }
}

#[test]
fn comparison_ignores_what_follows_the_first_mismatch() {
    let found = compare(b"Hello", b"H#llo");
    let other = compare(b"Hello", b"H####");
    assert_eq!(found, Comparison { outcome: TestOutcome::NoResponse, inspected: 2 });
    assert_eq!(other, found);
}

#[test]
fn full_match_inspects_every_position() {
    let found = compare(b"Hello", b"Hello");
    assert_eq!(found, Comparison { outcome: TestOutcome::Success, inspected: 5 });
}

#[test]
fn comparing_nothing_with_nothing_succeeds() {
    let found = compare(b"", b"");
    assert_eq!(found, Comparison { outcome: TestOutcome::Success, inspected: 0 });
}

#[test]
fn missing_byte_counts_as_a_mismatch() {
    let found = compare(b"Hello", b"Hel");
    assert_eq!(found, Comparison { outcome: TestOutcome::NoResponse, inspected: 4 });
    let none = compare(b"Hello", b"");
    assert_eq!(none, Comparison { outcome: TestOutcome::NoResponse, inspected: 1 });
}

#[test]
fn surplus_bytes_are_not_compared() {
    let found = compare(b"Hel", b"Hello");
    assert_eq!(found, Comparison { outcome: TestOutcome::Success, inspected: 3 });
    let message = SelfTestMessage::from_text("Hel").unwrap();
    assert_eq!(run_cycle(&message, b"Hello"), Some(TestOutcome::Success));
}

#[test]
fn empty_message_succeeds_at_once() {
    let message = SelfTestMessage::from_text("").unwrap();
    assert_eq!(run_cycle(&message, b""), Some(TestOutcome::Success));
    assert_eq!(run_cycle(&message, b"noise"), Some(TestOutcome::Success));
    let engine = LoopbackEngine::start(&message);
    assert_eq!(engine.pending(), Transfer::Finished);
    assert!(engine.is_finished());
    assert_eq!(engine.outcome(), Some(TestOutcome::Success));
}

#[test]
fn silent_channel_leaves_the_cycle_without_outcome() {
    assert_eq!(run_cycle(&hello(), b""), None);
    assert_eq!(run_cycle(&hello(), b"Hell"), None);
    assert_eq!(run_cycle(&hello(), b"####"), None);
}

#[test]
fn engine_sends_and_receives_in_turn() {
    let message = hello();
    let mut engine = LoopbackEngine::start(&message);
    for (i, byte) in b"Hello".iter().enumerate() {
        assert_eq!(engine.pending(), Transfer::Send(*byte));
        assert_eq!(engine.received().len(), i);
        assert!(!engine.is_finished());
        assert_eq!(engine.outcome(), None);
        engine.handle(LinkEvent::Accepted);
        assert_eq!(engine.pending(), Transfer::Receive);
        assert_eq!(engine.outcome(), None);
        engine.handle(LinkEvent::Arrived(*byte));
    }
    assert_eq!(engine.pending(), Transfer::Finished);
    assert!(engine.is_finished());
    assert_eq!(engine.received(), b"Hello");
    assert_eq!(engine.outcome(), Some(TestOutcome::Success));
}

#[test]
fn engine_stores_echo_bytes_in_order() {
    let message = SelfTestMessage::from_text("abc").unwrap();
    let mut engine = LoopbackEngine::start(&message);
    for byte in [b'x', b'y', b'z'] {
        engine.handle(LinkEvent::Accepted);
        engine.handle(LinkEvent::Arrived(byte));
    }
    assert_eq!(engine.received(), b"xyz");
    assert_eq!(engine.outcome(), Some(TestOutcome::NoResponse));
}

#[test]
fn engine_starts_with_an_empty_buffer() {
    let message = hello();
    let engine = LoopbackEngine::start(&message);
    assert_eq!(engine.received(), b"");
    assert_eq!(engine.pending(), Transfer::Send(b'H'));
}

#[test]
fn port_that_is_not_ready_changes_nothing() {
    let message = hello();
    let mut engine = LoopbackEngine::start(&message);
    for _ in 0..1000 {
        engine.handle(LinkEvent::WouldBlock);
    }
    assert_eq!(engine.pending(), Transfer::Send(b'H'));
    engine.handle(LinkEvent::Accepted);
    for _ in 0..1000 {
        engine.handle(LinkEvent::WouldBlock);
    }
    assert_eq!(engine.pending(), Transfer::Receive);
    assert_eq!(engine.received(), b"");
}

#[test]
fn events_that_answer_nothing_are_ignored() {
    let message = hello();
    let mut engine = LoopbackEngine::start(&message);
    // Nothing has been sent: a byte that arrives answers nothing.
    engine.handle(LinkEvent::Arrived(b'H'));
    assert_eq!(engine.pending(), Transfer::Send(b'H'));
    assert_eq!(engine.received(), b"");
    engine.handle(LinkEvent::Accepted);
    // A second acceptance while the echo is outstanding sends nothing more.
    engine.handle(LinkEvent::Accepted);
    assert_eq!(engine.pending(), Transfer::Receive);
    engine.handle(LinkEvent::Arrived(b'H'));
    assert_eq!(engine.received(), b"H");
    assert_eq!(engine.pending(), Transfer::Send(b'e'));
}

#[test]
fn finished_engine_takes_no_more_bytes() {
    let message = SelfTestMessage::from_text("a").unwrap();
    let mut engine = LoopbackEngine::start(&message);
    engine.handle(LinkEvent::Accepted);
    engine.handle(LinkEvent::Arrived(b'a'));
    engine.handle(LinkEvent::Accepted);
    engine.handle(LinkEvent::Arrived(b'b'));
    assert_eq!(engine.pending(), Transfer::Finished);
    assert_eq!(engine.received(), b"a");
    assert_eq!(engine.outcome(), Some(TestOutcome::Success));
}

#[test]
fn success_means_buffer_equals_message() {
    let message = hello();
    for echo in [*b"Hello", *b"hello", *b"HellO", *b"Jello", *b"He1lo"] {
        let mut engine = LoopbackEngine::start(&message);
        for byte in echo {
            engine.handle(LinkEvent::Accepted);
            engine.handle(LinkEvent::Arrived(byte));
        }
        let same = engine.received() == message.as_bytes();
        assert_eq!(engine.outcome() == Some(TestOutcome::Success), same);
        assert_eq!(run_cycle(&message, &echo), engine.outcome());
    }
}

#[test]
fn every_byte_value_survives_the_round_trip() {
    for byte in 0u8..=0x7f {
        let text = (byte as char).to_string();
        let message = SelfTestMessage::from_text(&text).unwrap();
        assert_eq!(run_cycle(&message, &[byte]), Some(TestOutcome::Success));
        assert_eq!(run_cycle(&message, &[byte ^ 0x01]), Some(TestOutcome::NoResponse));
    }
}
