use bing_chat::codec::{decode_message, encode_frame, DELIMITER};
use bing_chat::events::{demux_message, outcome_event, ConversationEvent, FrameOutcome};
use bing_chat::history::{apply_complete, apply_update, Message, Sender};

#[test]
fn encode_appends_delimiter() {
    let frame = encode_frame(b"{\"type\":6}");
    assert_eq!(frame.last(), Some(&DELIMITER));
    assert_eq!(&frame[..frame.len() - 1], b"{\"type\":6}");
}

#[test]
fn decode_splits_trims_and_drops_empty_pieces() {
    let msg = b"  {\"a\":1} \x1e\x1e   \x1e {\"b\":2}\x1e";
    let pieces = decode_message(msg);
    assert_eq!(pieces.len(), 2);
    assert_eq!(pieces[0], b"{\"a\":1}".to_vec());
    assert_eq!(pieces[1], b"{\"b\":2}".to_vec());
}

#[test]
fn decode_of_encode_reproduces_json_object() {
    let original: serde_json::Value =
        serde_json::from_str("{\"a\":1,\"b\":[true,null,\"x\"],\"c\":{\"d\":\"e\"}}").unwrap();
    let bytes = serde_json::to_vec(&original).unwrap();
    let message = encode_frame(&bytes);
    let pieces = decode_message(&message);
    assert_eq!(pieces.len(), 1);
    let back: serde_json::Value = serde_json::from_slice(&pieces[0]).unwrap();
    assert_eq!(back, original);
}

#[test]
fn malformed_first_frame_does_not_spoil_second() {
    let msg = b"{not json}\x1e{\"type\":2}";
    let outcomes = demux_message(msg);
    assert_eq!(outcomes.len(), 2);
    assert_eq!(outcomes[0], FrameOutcome::Malformed);
    assert_eq!(outcomes[1], FrameOutcome::Complete);
}

#[test]
fn event_ordering_is_preserved() {
    let f1 = "{\"type\":1,\"arguments\":[{\"messages\":[{\"text\":\"Hel\"}]}]}";
    let f2 = "{\"type\":1,\"arguments\":[{\"messages\":[{\"text\":\"Hello\"}]}]}";
    let f3 = "{\"type\":2}";
    let msg = format!("{}\x1e{}\x1e{}\x1e", f1, f2, f3);
    let outcomes = demux_message(msg.as_bytes());
    assert_eq!(
        outcomes,
        vec![
            FrameOutcome::Update("Hel".to_string()),
            FrameOutcome::Update("Hello".to_string()),
            FrameOutcome::Complete,
        ]
    );
}

#[test]
fn update_text_is_trimmed() {
    let msg = "{\"type\":1,\"arguments\":[{\"messages\":[{\"text\":\"  hi there \\n\"}]}]}";
    let outcomes = demux_message(msg.as_bytes());
    assert_eq!(outcomes, vec![FrameOutcome::Update("hi there".to_string())]);
}

#[test]
fn close_missing_and_unknown_discriminants() {
    let msg = "{\"type\":3}\x1e{\"kind\":1}\x1e{\"type\":1}\x1e{\"type\":9}";
    let outcomes = demux_message(msg.as_bytes());
    assert_eq!(
        outcomes,
        vec![
            FrameOutcome::Close,
            FrameOutcome::MissingType,
            FrameOutcome::MissingText,
            FrameOutcome::Unknown(9),
        ]
    );
}

#[test]
fn only_updates_and_completion_become_events() {
    assert_eq!(
        outcome_event(FrameOutcome::Update("hi".to_string())),
        Some(ConversationEvent::Update("hi".to_string()))
    );
    assert_eq!(outcome_event(FrameOutcome::Complete), Some(ConversationEvent::Complete));
    assert_eq!(outcome_event(FrameOutcome::Close), None);
    assert_eq!(outcome_event(FrameOutcome::Malformed), None);
    assert_eq!(outcome_event(FrameOutcome::MissingType), None);
    assert_eq!(outcome_event(FrameOutcome::MissingText), None);
    assert_eq!(outcome_event(FrameOutcome::Unknown(9)), None);
}

#[test]
fn history_streams_and_completes() {
    let mut msgs: Vec<Message> = Vec::new();
    msgs.push(Message::Text { sender: Sender::User, content: "question".to_string() });

    apply_update(&mut msgs, "Hel".to_string(), true);
    assert!(matches!(
        &msgs[1],
        Message::Text { sender: Sender::Bot, content } if content == "Hel"
    ));

    apply_update(&mut msgs, "Hello".to_string(), false);
    assert_eq!(msgs.len(), 2);
    assert!(matches!(
        &msgs[1],
        Message::Text { sender: Sender::Bot, content } if content == "Hello..."
    ));

    apply_complete(&mut msgs);
    assert_eq!(msgs.len(), 3);
    assert!(matches!(
        &msgs[1],
        Message::Text { sender: Sender::Bot, content } if content == "Hello"
    ));
    assert!(matches!(&msgs[2], Message::Separator));
}

#[test]
fn history_complete_without_bot_message_only_separates() {
    let mut msgs: Vec<Message> = Vec::new();
    msgs.push(Message::Text { sender: Sender::User, content: "question".to_string() });
    apply_complete(&mut msgs);
    assert_eq!(msgs.len(), 2);
    assert!(matches!(&msgs[0], Message::Text { sender: Sender::User, .. }));
    assert!(matches!(&msgs[1], Message::Separator));
}
