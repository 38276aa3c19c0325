use chat_relay::channel::{Channel, RecvOutcome};
use chat_relay::message::{Message, ValidationError, ROOM_MAX_CHARS, USERNAME_MAX_CHARS};
use chat_relay::server::{handle_publish, post, rocket, world, CHANNEL_CAPACITY};
use chat_relay::stream::{next_step, on_outcome, StreamStep};

fn msg(room: &str, username: &str, text: &str) -> Message {
    Message {
        room: room.to_string(),
        username: username.to_string(),
        message: text.to_string(),
    }
}

fn text_of(outcome: RecvOutcome) -> String {
    match outcome {
        RecvOutcome::Delivered(m) => m.message,
        RecvOutcome::Lagged(n) => format!("lagged {}", n),
        RecvOutcome::Empty => "empty".to_string(),
        RecvOutcome::Closed => "closed".to_string(),
    }
}

#[test]
fn greeting_is_hello_world() {
    assert_eq!(world(), "Hello World!");
}

#[test]
fn server_starts_with_empty_channel_of_1024() {
    let ch = rocket();
    assert_eq!(CHANNEL_CAPACITY, 1024);
    assert_eq!(ch.sent(), 0);
    assert_eq!(ch.subscribers(), 0);
    assert!(!ch.closed());
}

#[test]
fn late_subscriber_sees_only_later_publishes_in_order() {
    let mut ch = Channel::new(8);
    post(&mut ch, msg("r", "u", "p1"));
    post(&mut ch, msg("r", "u", "p2"));
    let mut rx = ch.subscribe();
    assert_eq!(rx.position(), 2);
    assert_eq!(text_of(ch.recv(&mut rx)), "empty");
    post(&mut ch, msg("r", "u", "a"));
    post(&mut ch, msg("r", "u", "b"));
    post(&mut ch, msg("r", "u", "c"));
    assert_eq!(text_of(ch.recv(&mut rx)), "a");
    assert_eq!(text_of(ch.recv(&mut rx)), "b");
    assert_eq!(text_of(ch.recv(&mut rx)), "c");
    assert_eq!(text_of(ch.recv(&mut rx)), "empty");
}

#[test]
fn two_subscribers_see_the_same_order() {
    let mut ch = Channel::new(8);
    let mut first = ch.subscribe();
    post(&mut ch, msg("r", "u", "x"));
    let mut second = ch.subscribe();
    post(&mut ch, msg("r", "u", "y"));
    post(&mut ch, msg("r", "u", "z"));
    let mut seen_first = Vec::new();
    let mut seen_second = Vec::new();
    for _ in 0..4 {
        seen_first.push(text_of(ch.recv(&mut first)));
        seen_second.push(text_of(ch.recv(&mut second)));
    }
    assert_eq!(seen_first, vec!["x", "y", "z", "empty"]);
    assert_eq!(seen_second, vec!["y", "z", "empty", "empty"]);
}

#[test]
fn slow_subscriber_lags_and_resynchronizes() {
    let mut ch = Channel::new(3);
    let mut rx = ch.subscribe();
    for t in ["m0", "m1", "m2", "m3", "m4"] {
        post(&mut ch, msg("r", "u", t));
    }
    match ch.recv(&mut rx) {
        RecvOutcome::Lagged(n) => assert_eq!(n, 2),
        _ => panic!("expected a lag"),
    }
    assert_eq!(rx.position(), 2);
    assert_eq!(text_of(ch.recv(&mut rx)), "m2");
    assert_eq!(text_of(ch.recv(&mut rx)), "m3");
    assert_eq!(text_of(ch.recv(&mut rx)), "m4");
    assert_eq!(text_of(ch.recv(&mut rx)), "empty");
}

#[test]
fn exactly_capacity_unread_messages_do_not_lag() {
    let mut ch = Channel::new(3);
    let mut rx = ch.subscribe();
    for t in ["m0", "m1", "m2"] {
        post(&mut ch, msg("r", "u", t));
    }
    assert_eq!(text_of(ch.recv(&mut rx)), "m0");
    post(&mut ch, msg("r", "u", "m3"));
    assert_eq!(text_of(ch.recv(&mut rx)), "m1");
    assert_eq!(text_of(ch.recv(&mut rx)), "m2");
    assert_eq!(text_of(ch.recv(&mut rx)), "m3");
}

#[test]
fn ring_wraps_many_times() {
    let mut ch = Channel::new(4);
    let mut rx = ch.subscribe();
    for i in 0..50u32 {
        post(&mut ch, msg("r", "u", &i.to_string()));
        assert_eq!(text_of(ch.recv(&mut rx)), i.to_string());
    }
    assert_eq!(ch.sent(), 50);
}

#[test]
fn publish_without_subscribers_is_not_seen_later() {
    let mut ch = Channel::new(4);
    assert_eq!(ch.publish(msg("r", "u", "early")), 0);
    let mut rx = ch.subscribe();
    assert_eq!(text_of(ch.recv(&mut rx)), "empty");
    assert_eq!(ch.publish(msg("r", "u", "late")), 1);
    assert_eq!(text_of(ch.recv(&mut rx)), "late");
}

#[test]
fn publish_reports_open_subscriptions() {
    let mut ch = Channel::new(4);
    let a = ch.subscribe();
    let _b = ch.subscribe();
    assert_eq!(ch.publish(msg("r", "u", "one")), 2);
    ch.unsubscribe(a);
    assert_eq!(ch.subscribers(), 1);
    assert_eq!(ch.publish(msg("r", "u", "two")), 1);
}

#[test]
fn closed_channel_drains_then_reports_closed() {
    let mut ch = Channel::new(4);
    let mut rx = ch.subscribe();
    post(&mut ch, msg("r", "u", "last"));
    ch.close();
    assert!(ch.closed());
    assert_eq!(text_of(ch.recv(&mut rx)), "last");
    assert_eq!(text_of(ch.recv(&mut rx)), "closed");
    assert_eq!(text_of(ch.recv(&mut rx)), "closed");
}

#[test]
fn shutdown_finishes_stream_without_new_messages() {
    let mut ch = Channel::new(4);
    let mut rx = ch.subscribe();
    assert!(matches!(next_step(&ch, &mut rx, false), StreamStep::Wait));
    assert!(next_step(&ch, &mut rx, true).is_finish());
}

#[test]
fn shutdown_wins_over_pending_message() {
    let mut ch = Channel::new(4);
    let mut rx = ch.subscribe();
    post(&mut ch, msg("r", "u", "pending"));
    assert!(next_step(&ch, &mut rx, true).is_finish());
    assert_eq!(rx.position(), 0);
    assert_eq!(text_of(ch.recv(&mut rx)), "pending");
}

#[test]
fn stream_skips_lag_and_finishes_on_close() {
    let mut ch = Channel::new(1);
    let mut rx = ch.subscribe();
    post(&mut ch, msg("r", "u", "gone"));
    post(&mut ch, msg("r", "u", "kept"));
    assert!(matches!(next_step(&ch, &mut rx, false), StreamStep::Skip));
    match next_step(&ch, &mut rx, false) {
        StreamStep::Emit(fields) => assert_eq!(fields[2].1, "kept"),
        _ => panic!("expected an event"),
    }
    ch.close();
    assert!(next_step(&ch, &mut rx, false).is_finish());
    assert!(matches!(on_outcome(RecvOutcome::Lagged(7)), StreamStep::Skip));
    assert!(matches!(on_outcome(RecvOutcome::Empty), StreamStep::Wait));
    assert!(on_outcome(RecvOutcome::Closed).is_finish());
}

#[test]
fn round_trip_payload_keeps_fields() {
    let mut ch = Channel::new(4);
    let mut rx = ch.subscribe();
    assert_eq!(
        handle_publish(&mut ch, "r".to_string(), "u".to_string(), "hi".to_string()),
        Ok(())
    );
    match next_step(&ch, &mut rx, false) {
        StreamStep::Emit(fields) => {
            assert_eq!(
                fields,
                vec![
                    ("room".to_string(), "r".to_string()),
                    ("username".to_string(), "u".to_string()),
                    ("message".to_string(), "hi".to_string()),
                ]
            );
        }
        _ => panic!("expected an event"),
    }
}

#[test]
fn payload_keeps_non_ascii_bytes() {
    let m = msg("sälen", "jö", "héllo ✓");
    let fields = m.payload();
    assert_eq!(fields[0], ("room".to_string(), "sälen".to_string()));
    assert_eq!(fields[1], ("username".to_string(), "jö".to_string()));
    assert_eq!(fields[2], ("message".to_string(), "héllo ✓".to_string()));
}

#[test]
fn room_of_31_rejected_before_channel() {
    let mut ch = Channel::new(4);
    let room = "a".repeat(31);
    assert_eq!(
        handle_publish(&mut ch, room, "u".to_string(), "hi".to_string()),
        Err(ValidationError::RoomTooLong)
    );
    assert_eq!(ch.sent(), 0);
}

#[test]
fn room_of_30_accepted() {
    let mut ch = Channel::new(4);
    let room = "a".repeat(ROOM_MAX_CHARS);
    assert_eq!(room.len(), 30);
    assert_eq!(
        handle_publish(&mut ch, room, "u".to_string(), "hi".to_string()),
        Ok(())
    );
    assert_eq!(ch.sent(), 1);
}

#[test]
fn username_limits() {
    assert_eq!(USERNAME_MAX_CHARS, 20);
    assert!(Message::new("r".to_string(), "u".repeat(20), String::new()).is_ok());
    assert_eq!(
        Message::new("r".to_string(), "u".repeat(21), String::new()).err(),
        Some(ValidationError::UsernameTooLong)
    );
    assert_eq!(
        Message::new("r".repeat(31), "u".repeat(21), String::new()).err(),
        Some(ValidationError::RoomTooLong)
    );
}

#[test]
fn limits_count_characters_not_bytes() {
    let room = "é".repeat(30);
    assert_eq!(room.len(), 60);
    assert!(Message::new(room, "ü".repeat(20), "x".repeat(5000)).is_ok());
    assert!(!msg(&"é".repeat(31), "u", "").is_valid());
    assert!(msg(&"é".repeat(30), "u", "").is_valid());
}

#[test]
fn clone_is_equal_field_by_field() {
    let m = msg("room", "user", "text");
    let c = m.clone();
    assert_eq!(c.room, "room");
    assert_eq!(c.username, "user");
    assert_eq!(c.message, "text");
}
