use ingest_client::{
    ChannelMessage, ClientError, DestinationType, InitiateUploadPayload, JoinReference,
    MessageType, MsgReference, Topic,
};

#[test]
fn encode_with_text_reference() {
    let m = ChannelMessage(
        JoinReference(Some(12)),
        MsgReference::Text(String::from("7")),
        Topic(String::from("uploader:q\"x")),
        MessageType::InitiateUpload,
        String::from("{\"a\":1}"),
    );
    assert_eq!(m.encode(), "[12,\"7\",\"uploader:q\\\"x\",\"initiate_upload\",{\"a\":1}]");
}

#[test]
fn decode_reply() {
    let m = ChannelMessage::decode(
        "[\"0\", \"5\", \"client:abc\", \"phx_reply\", {\"status\": \"ok\"}]",
    );
    assert!(m.is_err(), "a string join reference is malformed");
    let m = ChannelMessage::decode("[0, \"5\", \"client:abc\", \"phx_reply\", {\"status\": \"ok\"}]")
        .unwrap();
    assert_eq!(m.0, JoinReference(Some(0)));
    assert!(matches!(m.1, MsgReference::Text(ref t) if t == "5"));
    assert_eq!(m.2 .0, "client:abc");
    assert_eq!(m.3, MessageType::Reply);
    assert_eq!(m.4, "{\"status\":\"ok\"}");
}

#[test]
fn decode_heartbeat_with_null_join() {
    let m = ChannelMessage::decode("[null,42,\"phoenix\",\"heartbeat\",{}]").unwrap();
    assert_eq!(m.0, JoinReference(None));
    assert!(matches!(m.1, MsgReference::Number(42)));
    assert_eq!(m.3, MessageType::Heartbeat);
}

#[test]
fn decode_round_trips_encode() {
    let m = ChannelMessage(
        JoinReference(Some(3)),
        MsgReference::Number(9),
        Topic(String::from("uploader:\u{e9}")),
        MessageType::PartRequest,
        String::from("[1,2]"),
    );
    let d = ChannelMessage::decode(&m.encode()).unwrap();
    assert_eq!(d.0, m.0);
    assert!(matches!(d.1, MsgReference::Number(9)));
    assert_eq!(d.2 .0, m.2 .0);
    assert_eq!(d.3, m.3);
    assert_eq!(d.4, m.4);
}

#[test]
fn decode_rejects_malformed_frames() {
    for text in [
        "not json",
        "{\"a\":1}",
        "[0,0,\"t\",\"phx_join\"]",
        "[0,0,\"t\",\"phx_join\",{},1]",
        "[0,0,\"t\",\"phx_leave\",{}]",
        "[-1,0,\"t\",\"phx_join\",{}]",
        "[0,1.5,\"t\",\"phx_join\",{}]",
        "[0,0,7,\"phx_join\",{}]",
    ] {
        assert!(matches!(ChannelMessage::decode(text), Err(ClientError::MalformedEnvelope)), "{text}");
    }
}

#[test]
fn event_names_round_trip() {
    for t in [
        MessageType::PartRequest,
        MessageType::Status,
        MessageType::Complete,
        MessageType::InitiateUpload,
        MessageType::Reply,
        MessageType::Heartbeat,
        MessageType::Join,
    ] {
        assert_eq!(MessageType::from_wire_name(t.wire_name()), Some(t));
    }
    assert_eq!(MessageType::Complete.wire_name(), "complete_upload");
    assert_eq!(MessageType::from_wire_name("join"), None);
}

#[test]
fn initiate_upload_payload_json() {
    let p = InitiateUploadPayload::new(
        String::from("u1"),
        DestinationType::LakeFS,
        String::from("/data/a.csv"),
    );
    assert_eq!(
        p.to_json(),
        "{\"id\":\"u1\",\"destination_type\":\"lakefs\",\"file_path\":\"/data/a.csv\"}"
    );
}

#[test]
fn decimal_text_and_parse() {
    let mut s = String::from("n=");
    ingest_client::text::push_decimal(&mut s, 1_234_567_890);
    assert_eq!(s, "n=1234567890");
    assert_eq!(ingest_client::text::parse_decimal("18446744073709551615"), Some(u64::MAX));
    assert_eq!(ingest_client::text::parse_decimal("18446744073709551616"), None);
    assert_eq!(ingest_client::text::parse_decimal(""), None);
    assert_eq!(ingest_client::text::parse_decimal("12a"), None);
}
