use ingest_client::session::Session;
use ingest_client::{
    chunk_plan, ChannelMessage, JoinReference, MessageType, MsgReference, Topic, Uploader,
    UploaderError,
};

const TEST_FILE_PATH: &str = "./test_files/test.csv";
const TEST_FILE_SIZE: u64 = 1_234;

fn joined_session() -> Session {
    let mut session = Session::new(String::from("client:test"));
    session.handshake_succeeded();
    // drop the control join so only the tracker's traffic is left
    let _ = session.next_outbound();
    session
}

#[test]
fn test_init_uploader() {
    let id = 0x1234_5678_9abc_def0_1234_5678_9abc_def0u128;
    let uploader = Uploader::new(id, String::from(TEST_FILE_PATH), Some(TEST_FILE_SIZE), &vec![]);
    assert!(uploader.is_ok());
}

#[test]
fn test_join_message() {
    let id = 7u128;
    let mut uploader =
        Uploader::new(id, String::from(TEST_FILE_PATH), Some(TEST_FILE_SIZE), &vec![]).unwrap();
    let mut session = joined_session();
    uploader.request_join_channel(&mut session).unwrap();

    match session.next_outbound() {
        None => panic!("no message received"),
        Some(m) => assert_eq!(m.3, MessageType::Join),
    }
}

#[test]
fn test_status_message() {
    let id = 7u128;
    let mut uploader =
        Uploader::new(id, String::from(TEST_FILE_PATH), Some(TEST_FILE_SIZE), &vec![]).unwrap();
    let mut session = joined_session();
    uploader.request_join_channel(&mut session).unwrap();

    let join_msg = match session.next_outbound() {
        None => panic!("no message received"),
        Some(m) => m,
    };

    // the server's reply to the join
    uploader
        .handle_msg(&ChannelMessage(join_msg.0, join_msg.1, join_msg.2, MessageType::Reply, String::from("null")))
        .unwrap();
    uploader.request_status(&mut session).unwrap();

    let mut seen_status = false;
    while let Some(msg) = session.next_outbound() {
        match msg.3 {
            MessageType::Status => seen_status = true,
            MessageType::Join => {}
            other => panic!("unexpected message {:?}", other),
        }
    }
    assert!(seen_status, "No status message sent");
}

#[test]
fn missing_file_is_refused() {
    let r = Uploader::new(1, String::from("nowhere"), None, &vec![]);
    assert!(matches!(r, Err(UploaderError::FileNotFound)));
}

#[test]
fn plan_of_small_file_keeps_initial_chunk() {
    let plan = chunk_plan(52_000_000);
    assert_eq!(plan.chunk_size, 5 * 1024 * 1024);
    assert_eq!(plan.num_parts, 10);
}

#[test]
fn plan_of_large_file_grows_chunk() {
    let plan = chunk_plan(60_000_000_000);
    assert_eq!(plan.chunk_size, 6 * 1024 * 1024);
    assert_eq!(plan.num_parts, 9537);
}

#[test]
fn plan_at_part_limit_boundary() {
    let at = chunk_plan(10_000 * 5 * 1024 * 1024);
    assert_eq!(at.chunk_size, 5 * 1024 * 1024);
    assert_eq!(at.num_parts, 10_000);
    let over = chunk_plan(10_000 * 5 * 1024 * 1024 + 1);
    assert_eq!(over.chunk_size, 6 * 1024 * 1024);
    assert_eq!(over.num_parts, 8334);
}

#[test]
fn plan_of_empty_and_huge_files() {
    let empty = chunk_plan(0);
    assert_eq!(empty.chunk_size, 5 * 1024 * 1024);
    assert_eq!(empty.num_parts, 0);
    let huge = chunk_plan(u64::MAX);
    assert!(huge.num_parts <= 10_000);
    assert_eq!((huge.chunk_size - 5 * 1024 * 1024) % (1024 * 1024), 0);
    let smaller = huge.chunk_size - 1024 * 1024;
    assert!(u64::MAX / smaller + 1 > 10_000);
}

#[test]
fn plan_is_minimal_on_ladder() {
    for size in [1u64, 5_242_881, 52_428_800_001, 99_999_999_999, 123_456_789_012_345] {
        let plan = chunk_plan(size);
        let parts = |c: u64| size / c + if size % c == 0 { 0 } else { 1 };
        assert_eq!(plan.num_parts, parts(plan.chunk_size));
        assert!(plan.num_parts <= 10_000);
        if plan.chunk_size > 5 * 1024 * 1024 {
            assert!(parts(plan.chunk_size - 1024 * 1024) > 10_000);
        }
    }
}

#[test]
fn resume_counts_persisted_markers() {
    let markers = vec![0u64, 2, 5];
    let u = Uploader::new(3, String::from("f"), Some(52_000_000), &markers).unwrap();
    assert_eq!(u.num_parts(), 10);
    assert_eq!(u.parts_sent(), 3);
    assert_eq!(u.parts_remaining(), 7);
    assert!(u.is_part_done(2));
    assert!(!u.is_part_done(3));
}

#[test]
fn resume_with_all_and_no_parts() {
    let all: Vec<u64> = (0..10).collect();
    let u = Uploader::new(3, String::from("f"), Some(52_000_000), &all).unwrap();
    assert_eq!(u.parts_sent(), 10);
    assert_eq!(u.parts_remaining(), 0);
    let none = Uploader::new(3, String::from("f"), Some(52_000_000), &vec![]).unwrap();
    assert_eq!(none.parts_sent(), 0);
    assert_eq!(none.parts_remaining(), 10);
}

#[test]
fn resume_ignores_repeated_and_foreign_markers() {
    let markers = vec![1u64, 1, 4, 10, 99];
    let u = Uploader::new(3, String::from("f"), Some(52_000_000), &markers).unwrap();
    assert_eq!(u.parts_sent(), 2);
    assert_eq!(u.parts_remaining(), 8);
}

#[test]
fn restart_reproduces_part_count() {
    let a = Uploader::new(9, String::from("f"), Some(60_000_000_000), &vec![]).unwrap();
    let b = Uploader::new(9, String::from("f"), Some(60_000_000_000), &vec![4, 8]).unwrap();
    assert_eq!(a.num_parts(), b.num_parts());
    assert_eq!(a.chunk_size(), b.chunk_size());
}

#[test]
fn mark_complete_counts_once_and_refuses_out_of_range() {
    let mut u = Uploader::new(3, String::from("f"), Some(52_000_000), &vec![]).unwrap();
    u.mark_complete(4).unwrap();
    u.mark_complete(4).unwrap();
    assert_eq!(u.parts_sent(), 1);
    assert!(matches!(u.mark_complete(10), Err(UploaderError::PartOutOfRange)));
    assert_eq!(u.parts_sent(), 1);
}

#[test]
fn tracker_topic_uses_hyphenated_uuid() {
    let u = Uploader::new(1, String::from("f"), Some(1), &vec![]).unwrap();
    assert_eq!(u.topic().as_str(), "uploader:00000000-0000-0000-0000-000000000001");
}

#[test]
fn tracker_join_frame_is_exact() {
    let mut u = Uploader::new(1, String::from("f"), Some(1), &vec![]).unwrap();
    let mut session = joined_session();
    u.request_join_channel(&mut session).unwrap();
    let m = session.next_outbound().unwrap();
    assert_eq!(
        m.encode(),
        "[0,0,\"uploader:00000000-0000-0000-0000-000000000001\",\"phx_join\",null]"
    );
}

#[test]
fn status_payload_reports_snapshot() {
    let mut u = Uploader::new(1, String::from("f"), Some(52_000_000), &vec![0, 1, 2]).unwrap();
    let mut session = joined_session();
    u.request_join_channel(&mut session).unwrap();
    u.request_status(&mut session).unwrap();
    let _join = session.next_outbound().unwrap();
    let status = session.next_outbound().unwrap();
    assert_eq!(status.3, MessageType::Status);
    assert!(matches!(status.1, MsgReference::Number(1)));
    assert_eq!(status.4, "{\"parts_sent\":3,\"parts_remaining\":7}");
}

#[test]
fn status_before_join_is_refused() {
    let mut u = Uploader::new(1, String::from("f"), Some(10), &vec![]).unwrap();
    let mut session = joined_session();
    assert!(matches!(u.request_status(&mut session), Err(UploaderError::NotJoined)));
    assert_eq!(session.pending_len(), 0);
}

#[test]
fn tracker_traffic_after_close_is_refused() {
    let mut u = Uploader::new(1, String::from("f"), Some(10), &vec![]).unwrap();
    let mut session = joined_session();
    session.begin_close();
    session.finish();
    assert!(matches!(u.request_join_channel(&mut session), Err(UploaderError::ChannelClosed)));
}

#[test]
fn handle_msg_confirms_join_and_refuses_part_requests() {
    let mut u = Uploader::new(1, String::from("f"), Some(10), &vec![]).unwrap();
    let mut session = joined_session();
    u.request_join_channel(&mut session).unwrap();
    let topic = u.topic().clone();
    let reply = ChannelMessage(
        JoinReference(Some(0)),
        MsgReference::Number(0),
        Topic(topic.clone()),
        MessageType::Reply,
        String::from("{}"),
    );
    u.handle_msg(&reply).unwrap();
    assert!(u.is_joined());
    let part = ChannelMessage(
        JoinReference(Some(0)),
        MsgReference::Number(1),
        Topic(topic),
        MessageType::PartRequest,
        String::from("{}"),
    );
    assert!(matches!(u.handle_msg(&part), Err(UploaderError::NotImplemented)));
    let foreign = ChannelMessage(
        JoinReference(Some(0)),
        MsgReference::Number(1),
        Topic(String::from("uploader:other")),
        MessageType::Reply,
        String::from("{}"),
    );
    assert!(matches!(u.handle_msg(&foreign), Err(UploaderError::Internal(_))));
}
