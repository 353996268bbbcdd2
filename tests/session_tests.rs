use ingest_client::session::Session;
use ingest_client::{
    ChannelMessage, ClientError, JoinReference, MessageType, MsgReference, Route, SessionState,
    Topic,
};

fn envelope(topic: &str, event: MessageType, msg_ref: u64) -> ChannelMessage {
    ChannelMessage(
        JoinReference(None),
        MsgReference::Number(msg_ref),
        Topic(String::from(topic)),
        event,
        String::from("{}"),
    )
}

fn reply_to_join(topic: &str) -> ChannelMessage {
    ChannelMessage(
        JoinReference(Some(0)),
        MsgReference::Number(0),
        Topic(String::from(topic)),
        MessageType::Reply,
        String::from("{\"status\":\"ok\"}"),
    )
}

#[test]
fn join_is_first_after_handshake() {
    let mut s = Session::new(String::from("client:abc"));
    s.enqueue(envelope("uploader:x", MessageType::Status, 4)).unwrap();
    s.handshake_succeeded();
    assert_eq!(s.current_state(), SessionState::Joining);
    let first = s.next_outbound().unwrap();
    assert_eq!(first.3, MessageType::Join);
    assert_eq!(first.2 .0, "client:abc");
    assert_eq!(first.0, JoinReference(Some(0)));
    assert_eq!(first.encode(), "[0,0,\"client:abc\",\"phx_join\",{}]");
    let second = s.next_outbound().unwrap();
    assert_eq!(second.3, MessageType::Status);
}

#[test]
fn enqueue_after_close_fails() {
    let mut s = Session::new(String::from("client:abc"));
    s.handshake_succeeded();
    s.begin_close();
    assert_eq!(s.current_state(), SessionState::Closing);
    s.finish();
    assert_eq!(s.current_state(), SessionState::Closed);
    let before = s.pending_len();
    let r = s.enqueue(envelope("uploader:x", MessageType::Status, 1));
    assert!(matches!(r, Err(ClientError::ChannelClosed)));
    assert_eq!(s.pending_len(), before);
}

#[test]
fn failed_handshake_ends_in_failed() {
    let mut s = Session::new(String::from("client:abc"));
    s.handshake_failed();
    assert_eq!(s.current_state(), SessionState::Failed);
    assert!(!s.is_accepting());
    let mut t = Session::new(String::from("client:abc"));
    t.finish();
    assert_eq!(t.current_state(), SessionState::Failed);
}

#[test]
fn heartbeats_over_five_seconds() {
    let mut s = Session::new(String::from("client:abc"));
    s.handshake_succeeded();
    let _join = s.next_outbound();
    let route = s.receive(&reply_to_join("client:abc"), 1_000);
    assert_eq!(route, Route::Control);
    assert_eq!(s.current_state(), SessionState::Joined);
    for now in (1_000..=6_000).step_by(100) {
        s.tick(now);
    }
    let mut refs = Vec::new();
    while let Some(m) = s.next_outbound() {
        assert_eq!(m.3, MessageType::Heartbeat);
        assert_eq!(m.2 .0, "phoenix");
        assert_eq!(m.0, JoinReference(None));
        match m.1 {
            MsgReference::Number(n) => refs.push(n),
            MsgReference::Text(_) => panic!("heartbeat with a text reference"),
        }
    }
    assert_eq!(refs, (1..=10).collect::<Vec<u64>>());
}

#[test]
fn one_late_tick_catches_up() {
    let mut s = Session::new(String::from("client:abc"));
    s.handshake_succeeded();
    let _join = s.next_outbound();
    s.receive(&reply_to_join("client:abc"), 0);
    s.tick(5_000);
    assert_eq!(s.pending_len(), 10);
    s.tick(5_499);
    assert_eq!(s.pending_len(), 10);
    s.tick(5_500);
    assert_eq!(s.pending_len(), 11);
    let first = s.next_outbound().unwrap();
    assert_eq!(first.encode(), "[null,1,\"phoenix\",\"heartbeat\",{}]");
}

#[test]
fn no_heartbeats_before_join() {
    let mut s = Session::new(String::from("client:abc"));
    s.handshake_succeeded();
    let _join = s.next_outbound();
    s.tick(10_000);
    assert_eq!(s.pending_len(), 0);
    // a reply for another join ref does not confirm the join
    let mut other = reply_to_join("client:abc");
    other.0 = JoinReference(Some(3));
    s.receive(&other, 0);
    assert_eq!(s.current_state(), SessionState::Joining);
}

#[test]
fn failed_write_is_retried_first() {
    let mut s = Session::new(String::from("client:abc"));
    s.handshake_succeeded();
    s.enqueue(envelope("uploader:x", MessageType::Status, 1)).unwrap();
    let join = s.next_outbound().unwrap();
    s.write_failed(join);
    assert_eq!(s.next_outbound().unwrap().3, MessageType::Join);
    assert_eq!(s.next_outbound().unwrap().3, MessageType::Status);
    assert!(s.next_outbound().is_none());
}

#[test]
fn inbound_routing_by_topic() {
    let mut s = Session::new(String::from("client:abc"));
    let a = s.register_tracker(String::from("uploader:a"));
    let b = s.register_tracker(String::from("uploader:b"));
    assert_eq!(s.route("client:abc"), Route::Control);
    assert_eq!(s.route("phoenix"), Route::Control);
    assert_eq!(s.route("uploader:a"), Route::Tracker(a));
    assert_eq!(s.route("uploader:b"), Route::Tracker(b));
    assert_eq!(s.route("uploader:c"), Route::Unmatched);
}
