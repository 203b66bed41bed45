use bing_chat::bootstrap::{identity_from_fields, parse_identity, ConversationIdentity};
use bing_chat::conversation::Conversation;
use bing_chat::credential::{cookie_header, extract_u_value};
use bing_chat::errors::Error;
use bing_chat::machine::{step, TurnAction, TurnEvent, TurnPhase};
use bing_chat::outbound::{keep_alive_frame, negotiation_frame, turn_payload, turn_request_frame};

fn identity() -> ConversationIdentity {
    ConversationIdentity {
        conversation_id: "conv-1".to_string(),
        client_id: "client-1".to_string(),
        conversation_signature: "sig-1".to_string(),
    }
}

#[test]
fn credential_extracts_u_value_among_pairs() {
    let r = extract_u_value(b"foo=1; _U=token123; bar=2").unwrap();
    assert_eq!(r, b"token123".to_vec());
}

#[test]
fn credential_extraction_is_case_insensitive() {
    assert_eq!(extract_u_value(b"a=1;_u=lower").unwrap(), b"lower".to_vec());
    assert_eq!(extract_u_value(b"a=1;_U=upper").unwrap(), b"upper".to_vec());
}

#[test]
fn credential_extraction_ignores_pair_order() {
    assert_eq!(extract_u_value(b"_u=first;b=2;c=3").unwrap(), b"first".to_vec());
    assert_eq!(extract_u_value(b"b=2;c=3;_u=last").unwrap(), b"last".to_vec());
}

#[test]
fn credential_without_u_pair_is_rejected() {
    assert_eq!(extract_u_value(b"a=1;b=2"), Err(Error::CredentialNotFound));
}

#[test]
fn credential_without_pairs_passes_through() {
    assert_eq!(extract_u_value(b"rawvalue").unwrap(), b"rawvalue".to_vec());
}

#[test]
fn cookie_header_carries_the_u_prefix() {
    assert_eq!(cookie_header(b"v"), b"_U=v".to_vec());
}

#[test]
fn identity_requires_all_three_fields() {
    let ok = identity_from_fields(
        Some("c".to_string()),
        Some("k".to_string()),
        Some("s".to_string()),
    )
    .unwrap();
    assert_eq!(ok.conversation_id, "c");
    assert_eq!(ok.client_id, "k");
    assert_eq!(ok.conversation_signature, "s");
    let missing = identity_from_fields(Some("c".to_string()), None, Some("s".to_string()));
    assert!(matches!(missing, Err(Error::DecodeError)));
}

#[test]
fn bootstrap_response_parses_into_identity() {
    let body = "{\"conversationId\":\"c1\",\"clientId\":\"k1\",\"conversationSignature\":\"s1\"}";
    let id = parse_identity(body.as_bytes()).unwrap();
    assert_eq!(id.conversation_id, "c1");
    assert_eq!(id.client_id, "k1");
    assert_eq!(id.conversation_signature, "s1");
    assert!(matches!(parse_identity(b"not json"), Err(Error::DecodeError)));
    assert!(matches!(
        parse_identity(b"{\"conversationId\":\"c1\"}"),
        Err(Error::DecodeError)
    ));
}

#[test]
fn busy_gate_rejects_second_turn() {
    let mut conv: Conversation<i32> = Conversation::new(identity());
    assert!(!conv.is_busy());
    assert!(conv.check_not_busy().is_ok());
    assert!(conv.store_writer(1).is_ok());
    assert!(conv.is_busy());
    assert_eq!(conv.check_not_busy(), Err(Error::Busy));
    assert_eq!(conv.store_writer(2), Err(Error::Busy));
}

#[test]
fn server_close_takes_writer_and_frees_the_slot() {
    let mut conv: Conversation<i32> = Conversation::new(identity());
    conv.store_writer(7).unwrap();
    let taken = conv.take_writer();
    assert_eq!(taken, Some(7));
    // The writer leaves exactly once; a second take finds nothing.
    assert_eq!(conv.take_writer(), None);
    assert!(!conv.is_busy());
    assert!(conv.check_not_busy().is_ok());
    assert!(conv.store_writer(8).is_ok());
}

#[test]
fn write_without_connection_is_not_connected() {
    let mut conv: Conversation<i32> = Conversation::new(identity());
    assert_eq!(conv.writer_for_send(), Err(Error::NotConnected));
    conv.store_writer(5).unwrap();
    assert_eq!(conv.writer_for_send(), Ok(5));
    assert!(!conv.is_busy());
}

#[test]
fn handshake_failure_returns_to_idle_with_init_error() {
    let (phase, action) = step(TurnPhase::AwaitingAck, TurnEvent::AckMissing);
    assert_eq!(phase, TurnPhase::Idle);
    assert_eq!(action, TurnAction::Fail(Error::InitError));
    let mut conv: Conversation<i32> = Conversation::new(identity());
    conv.store_writer(3).unwrap();
    conv.clear_writer();
    assert!(!conv.is_busy());
    assert!(conv.check_not_busy().is_ok());
}

#[test]
fn machine_walks_the_turn_sequence() {
    let (p, a) = step(TurnPhase::Idle, TurnEvent::Start);
    assert_eq!((p, a), (TurnPhase::Connecting, TurnAction::OpenSocket));
    let (p, a) = step(p, TurnEvent::Connected);
    assert_eq!((p, a), (TurnPhase::SendingNegotiation, TurnAction::SendNegotiation));
    let (p, a) = step(p, TurnEvent::Written);
    assert_eq!((p, a), (TurnPhase::AwaitingAck, TurnAction::ReadAck));
    let (p, a) = step(p, TurnEvent::AckReceived);
    assert_eq!((p, a), (TurnPhase::SendingKeepAlive, TurnAction::SendKeepAlive));
    let (p, a) = step(p, TurnEvent::Written);
    assert_eq!((p, a), (TurnPhase::SendingTurn, TurnAction::SendTurn));
    let (p, a) = step(p, TurnEvent::Written);
    assert_eq!((p, a), (TurnPhase::Streaming, TurnAction::DeliverStream));
    let (p, a) = step(p, TurnEvent::StreamEnded);
    assert_eq!((p, a), (TurnPhase::Idle, TurnAction::ReleaseConnection));
}

#[test]
fn machine_failures_always_land_in_idle() {
    assert_eq!(
        step(TurnPhase::Connecting, TurnEvent::ConnectFailed),
        (TurnPhase::Idle, TurnAction::Fail(Error::ProtocolError))
    );
    assert_eq!(
        step(TurnPhase::SendingNegotiation, TurnEvent::WriteFailed),
        (TurnPhase::Idle, TurnAction::Fail(Error::ProtocolError))
    );
    assert_eq!(
        step(TurnPhase::SendingKeepAlive, TurnEvent::WriteFailed),
        (TurnPhase::Idle, TurnAction::Fail(Error::ProtocolError))
    );
    assert_eq!(
        step(TurnPhase::SendingTurn, TurnEvent::WriteFailed),
        (TurnPhase::Idle, TurnAction::Fail(Error::ProtocolError))
    );
    assert_eq!(
        step(TurnPhase::Streaming, TurnEvent::AckReceived),
        (TurnPhase::Streaming, TurnAction::Ignore)
    );
}

#[test]
fn negotiation_and_keep_alive_frames_are_exact() {
    assert_eq!(negotiation_frame(), b"{\"protocol\":\"json\",\"version\":1}".to_vec());
    assert_eq!(keep_alive_frame(), b"{\"type\":6}".to_vec());
}

#[test]
fn turn_payload_is_well_formed_json_with_the_protocol_fields() {
    let bytes = turn_payload("c1", "k1", "s1", true, "hello world", "req-1");
    let v: serde_json::Value = serde_json::from_slice(&bytes).unwrap();
    assert_eq!(v["type"], serde_json::Value::from(4u64));
    assert_eq!(v["target"], serde_json::Value::from("chat"));
    assert_eq!(v["invocationId"], serde_json::Value::from("req-1"));
    let arg = &v["arguments"][0];
    assert_eq!(arg["source"], serde_json::Value::from("cib"));
    assert_eq!(arg["isStartOfSession"], serde_json::Value::from(true));
    assert_eq!(arg["conversationId"], serde_json::Value::from("c1"));
    assert_eq!(arg["participant"]["id"], serde_json::Value::from("k1"));
    assert_eq!(arg["conversationSignature"], serde_json::Value::from("s1"));
    assert_eq!(arg["message"]["author"], serde_json::Value::from("user"));
    assert_eq!(arg["message"]["inputMethod"], serde_json::Value::from("Keyboard"));
    assert_eq!(arg["message"]["messageType"], serde_json::Value::from("Chat"));
    assert_eq!(arg["message"]["text"], serde_json::Value::from("hello world"));
    assert_eq!(arg["optionsSets"][0], serde_json::Value::from("nlu_direct_response_filter"));
    assert_eq!(arg["optionsSets"][10], serde_json::Value::from("dv3sugg"));
}

#[test]
fn turn_payload_escapes_the_interpolated_text() {
    let tricky = "a \"quoted\" \\ backslash\nnewline\tand tab";
    let bytes = turn_payload("c1", "k1", "s1", false, tricky, "req-2");
    let v: serde_json::Value = serde_json::from_slice(&bytes).unwrap();
    assert_eq!(v["arguments"][0]["message"]["text"], serde_json::Value::from(tricky));
    assert_eq!(v["arguments"][0]["isStartOfSession"], serde_json::Value::from(false));
}

#[test]
fn start_of_session_flag_is_consumed_once() {
    let mut conv: Conversation<i32> = Conversation::new(identity());
    assert!(conv.is_start_of_session());
    let first = turn_request_frame(&conv, "hi");
    let v: serde_json::Value = serde_json::from_slice(&first).unwrap();
    assert_eq!(v["arguments"][0]["isStartOfSession"], serde_json::Value::from(true));
    let inv = v["invocationId"].as_str().unwrap();
    assert_eq!(inv.len(), 36);

    conv.mark_turn_sent();
    assert!(!conv.is_start_of_session());
    // Even after a failed turn the flag stays consumed.
    conv.clear_writer();
    conv.mark_turn_sent();
    assert!(!conv.is_start_of_session());
    let second = turn_request_frame(&conv, "again");
    let v: serde_json::Value = serde_json::from_slice(&second).unwrap();
    assert_eq!(v["arguments"][0]["isStartOfSession"], serde_json::Value::from(false));
}

#[test]
fn conversation_accessors_expose_the_identity() {
    let conv: Conversation<i32> = Conversation::new(identity());
    assert_eq!(conv.id(), "conv-1");
    assert_eq!(conv.client_id(), "client-1");
    assert_eq!(conv.signature(), "sig-1");
}
