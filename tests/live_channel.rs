use sptf_core::debounce::{collect_batch, retrieve_changed_paths_and_append_to_vec, DebouncedEvent};
use sptf_core::error::PROTOBUF_ERROR_WRONG_FORMAT_ERROR_CODE;
use sptf_core::files::{list_dir, RawDirEntry, RawFileKind, RawMetadata, RawTime};
use sptf_core::registry::SessionManager;
use sptf_core::session::{
    error_frame, listing_frame, FrameOutcome, HeartbeatAction, SessionPhase, UserSession,
};
use sptf_core::wire::{
    decode_incoming, encode_incoming, encode_outgoing, BasicIncomingMessage, BasicOutcomingMessage,
    IncomingContent, OutgoingContent, PROTOCOL_VERSION,
};

fn list_request(version: u32, path: &str) -> Vec<u8> {
    encode_incoming(&BasicIncomingMessage {
        version,
        content: IncomingContent::ListDirectory { path: path.to_string() },
    })
    .unwrap()
}

#[test]
fn registry_counts_connects_and_disconnects() {
    let mut m: SessionManager<&str, ()> = SessionManager::new();
    let a = m.connect("a").unwrap();
    let b = m.connect("b").unwrap();
    let c = m.connect("c").unwrap();
    assert_ne!(a, b);
    assert_ne!(b, c);
    assert_ne!(a, c);
    assert_eq!(m.len(), 3);
    m.disconnect(b);
    assert_eq!(m.len(), 2);
    m.disconnect(b);
    assert_eq!(m.len(), 2);
    m.disconnect(9999);
    assert_eq!(m.len(), 2);
    let d = m.connect("d").unwrap();
    assert_ne!(d, b);
    assert_eq!(m.len(), 3);
}

#[test]
fn registry_ids_are_never_reused() {
    let mut m: SessionManager<u8, ()> = SessionManager::new();
    let first = m.connect(1).unwrap();
    m.disconnect(first);
    let second = m.connect(2).unwrap();
    assert_ne!(first, second);
    assert_eq!(m.len(), 1);
}

#[test]
fn broadcast_reaches_every_registered_session() {
    let mut m: SessionManager<&str, u32> = SessionManager::new();
    m.add_filewatcher(7);
    let a = m.connect("a").unwrap();
    let b = m.connect("b").unwrap();
    let c = m.connect("c").unwrap();
    m.disconnect(b);
    let mut targets: Vec<(u64, &str)> =
        m.broadcast_targets().into_iter().map(|(id, t)| (id, *t)).collect();
    targets.sort();
    assert_eq!(targets, vec![(a, "a"), (c, "c")]);
}

#[test]
fn broadcast_on_empty_registry() {
    let m: SessionManager<&str, ()> = SessionManager::new();
    assert!(m.broadcast_targets().is_empty());
}

#[test]
fn burst_of_creates_is_one_batch_with_duplicates() {
    let events = vec![
        DebouncedEvent::Create("/a".to_string()),
        DebouncedEvent::Create("/b".to_string()),
        DebouncedEvent::Create("/a".to_string()),
    ];
    let batch = collect_batch(&events);
    assert_eq!(batch, vec!["/a".to_string(), "/b".to_string(), "/a".to_string()]);
}

#[test]
fn event_path_extraction() {
    let mut paths = vec![];
    retrieve_changed_paths_and_append_to_vec(
        DebouncedEvent::Rename("/x".to_string(), "/y".to_string()),
        &mut paths,
    );
    retrieve_changed_paths_and_append_to_vec(DebouncedEvent::Error(Some("/z".to_string())), &mut paths);
    retrieve_changed_paths_and_append_to_vec(DebouncedEvent::Write("/w".to_string()), &mut paths);
    retrieve_changed_paths_and_append_to_vec(DebouncedEvent::Remove("/r".to_string()), &mut paths);
    retrieve_changed_paths_and_append_to_vec(DebouncedEvent::Chmod("/c".to_string()), &mut paths);
    retrieve_changed_paths_and_append_to_vec(DebouncedEvent::Rescan, &mut paths);
    assert_eq!(paths, vec!["/x", "/y", "/w", "/r"]);
}

#[test]
fn error_only_burst_is_empty_batch() {
    let batch = collect_batch(&vec![DebouncedEvent::Error(None)]);
    assert!(batch.is_empty());
}

#[test]
fn silent_client_is_closed_by_heartbeat() {
    let mut s = UserSession::new(1, 0);
    assert!(s.started(Some(4)));
    assert_eq!(s.heartbeat_tick(5_000), HeartbeatAction::Ping);
    assert_eq!(s.heartbeat_tick(10_000), HeartbeatAction::Ping);
    assert_eq!(s.phase, SessionPhase::Registered);
    assert_eq!(s.heartbeat_tick(10_001), HeartbeatAction::Stop);
    assert_eq!(s.phase, SessionPhase::Closing);
    assert_eq!(s.stopping(), Some(4));
}

#[test]
fn pong_keeps_connection_alive() {
    let mut s = UserSession::new(1, 0);
    s.started(Some(1));
    s.client_alive(8_000);
    assert_eq!(s.heartbeat_tick(15_000), HeartbeatAction::Ping);
    assert_eq!(s.heartbeat_tick(18_001), HeartbeatAction::Stop);
}

#[test]
fn failed_registration_closes() {
    let mut s = UserSession::new(1, 0);
    assert!(!s.started(None));
    assert_eq!(s.phase, SessionPhase::Closing);
    assert_eq!(s.stopping(), None);
}

#[test]
fn stale_version_gets_error_and_connection_stays_open() {
    let mut s = UserSession::new(1, 0);
    s.started(Some(2));
    match s.handle_frame(&list_request(999, "/docs")) {
        FrameOutcome::Reply(bytes) => {
            assert_eq!(bytes, vec![0, 0, 0, 1, 2, 0, 0, 0, 0, 0, 0, 0, 7]);
        }
        FrameOutcome::ListDirectory(_) => panic!("expected an error reply"),
    }
    assert_eq!(s.phase, SessionPhase::Registered);
    assert_eq!(s.watched_path, None);
    match s.handle_frame(&list_request(PROTOCOL_VERSION, "/docs")) {
        FrameOutcome::ListDirectory(p) => assert_eq!(p, "/docs"),
        FrameOutcome::Reply(_) => panic!("expected a listing request"),
    }
    assert_eq!(s.watched_path, Some("/docs".to_string()));
}

#[test]
fn malformed_frame_gets_wrong_format() {
    let mut s = UserSession::new(1, 0);
    for frame in [vec![], vec![0, 0, 0, 1], vec![0, 0, 0, 1, 9, 0, 0, 0, 0], vec![0, 0, 0, 1, 1, 0, 0, 0, 5, b'a']] {
        match s.handle_frame(&frame) {
            FrameOutcome::Reply(bytes) => {
                assert_eq!(bytes, error_frame(PROTOBUF_ERROR_WRONG_FORMAT_ERROR_CODE))
            }
            FrameOutcome::ListDirectory(_) => panic!("expected an error reply"),
        }
    }
    let invalid_utf8 = vec![0, 0, 0, 1, 1, 0, 0, 0, 1, 0xff];
    assert!(matches!(s.handle_frame(&invalid_utf8), FrameOutcome::Reply(_)));
}

#[test]
fn refresh_matches_parent_of_watched_directory() {
    let mut s = UserSession::new(1, 0);
    let paths = vec!["/srv/docs/a.txt".to_string(), "/srv/docs/b.txt".to_string()];
    assert_eq!(s.handle_refresh("/srv", &paths), None);
    s.handle_frame(&list_request(PROTOCOL_VERSION, "/docs"));
    assert_eq!(s.handle_refresh("/srv", &paths), Some("/docs".to_string()));
    let elsewhere = vec!["/srv/other/a.txt".to_string(), "/srv/docs".to_string()];
    assert_eq!(s.handle_refresh("/srv", &elsewhere), None);
}

#[test]
fn wire_request_round_trip() {
    let bytes = list_request(PROTOCOL_VERSION, "/dös");
    assert_eq!(&bytes[..9], &[0, 0, 0, 1, 1, 0, 0, 0, 5]);
    let m = decode_incoming(&bytes).unwrap();
    assert_eq!(m.version, 1);
    match m.content {
        IncomingContent::ListDirectory { path } => assert_eq!(path, "/dös"),
    }
    let mut longer = bytes.clone();
    longer.push(0);
    assert!(decode_incoming(&longer).is_none());
}

#[test]
fn listing_frame_layout() {
    let read = vec![RawDirEntry {
        file_name: "a".to_string(),
        kind: Some(RawFileKind::File),
        metadata: Some(RawMetadata {
            size: 10,
            modified: RawTime::SinceEpoch(1),
            accessed: RawTime::SinceEpoch(2),
            created: RawTime::SinceEpoch(3),
        }),
    }];
    let bytes = listing_frame(list_dir("/s", "/", Some(read)));
    let mut expected: Vec<u8> = vec![0, 0, 0, 1, 1];
    expected.extend_from_slice(&[0, 0, 0, 2, b'/', b's']);
    expected.extend_from_slice(&[0, 0, 0, 0, 1]);
    expected.extend_from_slice(&[0, 0, 0, 2, b'/', b'a']);
    expected.extend_from_slice(&[0, 0, 0, 1, b'a']);
    expected.push(1);
    for v in [10u64, 1, 2, 3] {
        expected.extend_from_slice(&v.to_be_bytes());
    }
    assert_eq!(bytes, expected);
}

#[test]
fn general_error_frame_encoding() {
    let m = BasicOutcomingMessage { version: 1, content: OutgoingContent::GeneralError(0x0102) };
    assert_eq!(encode_outgoing(&m).unwrap(), vec![0, 0, 0, 1, 2, 0, 0, 0, 0, 0, 0, 1, 2]);
}

fn field(bytes: &[u8]) -> Vec<u8> {
    let mut out = (bytes.len() as u32).to_be_bytes().to_vec();
    out.extend_from_slice(bytes);
    out
}

#[test]
fn upload_body_decoding() {
    let mut body = field(b"/docs");
    body.extend(field(b"a.txt"));
    body.extend(field(b"hello"));
    body.extend(field(b"b.bin"));
    body.extend(field(&[0, 1, 2]));
    let request = sptf_core::wire::decode_upload(&body).unwrap();
    assert_eq!(request.dir_path, "/docs");
    assert_eq!(request.uploaded_file.len(), 2);
    assert_eq!(request.uploaded_file[0].file_name, "a.txt");
    assert_eq!(request.uploaded_file[0].content, b"hello".to_vec());
    assert_eq!(request.uploaded_file[1].file_name, "b.bin");
    assert_eq!(request.uploaded_file[1].content, vec![0, 1, 2]);

    let only_dir = field(b"/");
    let empty = sptf_core::wire::decode_upload(&only_dir).unwrap();
    assert!(empty.uploaded_file.is_empty());

    let mut missing_content = field(b"/docs");
    missing_content.extend(field(b"a.txt"));
    assert!(sptf_core::wire::decode_upload(&missing_content).is_none());

    let mut bad_name = field(b"/docs");
    bad_name.extend(field(&[0xff]));
    bad_name.extend(field(b"x"));
    assert!(sptf_core::wire::decode_upload(&bad_name).is_none());
    assert!(sptf_core::wire::decode_upload(&vec![0, 0]).is_none());
}
