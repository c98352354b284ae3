use xsync_core::client_opening::{sync_pull_server, sync_push_server, OpeningAction, OpeningEvent, ClientOpening, OpeningSettings, PushRoute};
use xsync_core::transfer::LocalSyncOptions;
use std::path::PathBuf;
use xsync_core::error::ServerError;
use xsync_core::protocol::{
    ByteRange, CompressionMode, EntryKind, EntryRecord, Frame, Message, MetadataOperation, Role,
    CAP_DATA_ONLY, CAP_ZSTD, DEFAULT_UNACKNOWLEDGED_WINDOW, MAX_COMPLETE_PAYLOAD, MAX_DATA_SEGMENT,
};
use xsync_core::server::{accept_session_config, Server, SessionKind, SyncRoute};
use xsync_core::sink_session::{
    check_large_coverage, collection_pages, delete_failure, resume_start,
    ReceiveStep, Receiver, ResumeStart, ACK_FILE_BATCH, ACK_LARGE_RANGE, ACK_METADATA,
};
use xsync_core::client_session::{
    compression_reason, expect_ack, expect_ack_for, expect_ack_or_delete_warning, server_handshake,
    ScanIntake,
};
use xsync_core::filter::from_exclude_patterns;
use xsync_core::source_session::{drain_reply, SendStep, Sender};
use xsync_core::wire_path::WirePath;

fn record(path: &str, size: u64) -> EntryRecord {
    let mut fingerprint = [0u8; 32];
    fingerprint[0] = 7;
    fingerprint[8] = 9;
    EntryRecord {
        path: path.as_bytes().to_vec(),
        kind: EntryKind::File,
        size,
        mtime_ns: 1_000,
        mode: 0o644,
        fingerprint,
    }
}

fn metadata(operation: MetadataOperation, path: &str) -> Message {
    Message::Metadata {
        operation,
        path: path.as_bytes().to_vec(),
        target: Vec::new(),
        mode: 0o755,
        mtime_ns: 5,
    }
}

fn segment(file_id: u64, offset: u64, data: &[u8]) -> Message {
    Message::FileSegment { file_id, offset, digest: [3u8; 32], data: data.to_vec() }
}

fn prepare(file_id: u64, path: &str, size: u64) -> Message {
    Message::LargeFilePrepare {
        file_id,
        path: path.as_bytes().to_vec(),
        size,
        mtime_ns: 9,
        mode: 0o600,
        fingerprint: [0u8; 32],
    }
}

fn unexpected_text(result: Result<ReceiveStep, ServerError>) -> String {
    match result {
        Err(ServerError::UnexpectedMessage(text)) => text,
        other => panic!("expected an unexpected-message error, got {other:?}"),
    }
}

#[test]
fn dry_run_receiver_refuses_every_change() {
    let mut receiver = Receiver::new(true, true);
    for message in [
        metadata(MetadataOperation::CreateDirectory, "dir"),
        Message::FileBatch { batch_id: 1, entries: vec![record("a", 1)] },
        segment(1, 0, b"x"),
        prepare(2, "big", 10),
        Message::LargeFileRange { file_id: 2, range: ByteRange { offset: 0, length: 1 } },
        Message::LargeFileFinish { file_id: 2, digest: [0u8; 32] },
    ] {
        assert_eq!(
            unexpected_text(receiver.on_message(4, message, &[])),
            "dry-run receiver rejected a mutation message"
        );
    }
    let closing = Message::Stats { files: 1, bytes: 2, skipped: 3, warnings: 4, failed: 5 };
    assert!(matches!(
        receiver.on_message(5, closing, &[]),
        Ok(ReceiveStep::Close { files: 1, bytes: 2, skipped: 3, warnings: 4, failed: 5 })
    ));
}

#[test]
fn batched_files_are_known_by_message_and_index_and_published_once() {
    let mut receiver = Receiver::new(false, false);
    let batch = Message::FileBatch { batch_id: 9, entries: vec![record("a", 1), record("dir/b", 2)] };
    assert!(matches!(
        receiver.on_message(3, batch, &[]),
        Ok(ReceiveStep::Acknowledge(ACK_FILE_BATCH))
    ));
    let first = (3u64 << 16) | 0;
    let second = (3u64 << 16) | 1;
    assert_eq!(receiver.destination_of(&segment(second, 0, b"")), Some(b"dir/b".to_vec()));
    assert_eq!(receiver.destination_of(&segment(77, 0, b"")), None);

    match receiver.on_message(10, segment(first, 0, b"x"), &[false]) {
        Ok(ReceiveStep::Publish { entry, digest, data, drain, verify_readback }) => {
            assert!(!verify_readback, "this session is not paranoid");
            assert_eq!(entry.path.as_bytes(), b"a");
            assert_eq!(entry.size, 1);
            assert_eq!(entry.fingerprint.identity.device, 7);
            assert_eq!(entry.fingerprint.identity.file, 9);
            assert_eq!(digest, [3u8; 32]);
            assert_eq!(data, b"x".to_vec());
            assert!(!drain);
        }
        other => panic!("unexpected step {other:?}"),
    }
    match receiver.on_message(11, segment(second, 0, b"yz"), &[false, false]) {
        Ok(ReceiveStep::Publish { drain, .. }) => assert!(drain),
        other => panic!("unexpected step {other:?}"),
    }
    assert_eq!(
        unexpected_text(receiver.on_message(12, segment(first, 0, b"x"), &[false])),
        format!("FileSegment for unregistered file_id {first}")
    );
}

#[test]
fn complete_files_must_start_at_offset_zero() {
    let mut receiver = Receiver::new(false, false);
    let batch = Message::FileBatch { batch_id: 1, entries: vec![record("a", 4)] };
    receiver.on_message(1, batch, &[]).unwrap();
    let id = 1u64 << 16;
    assert_eq!(
        unexpected_text(receiver.on_message(2, segment(id, 8, b"x"), &[])),
        format!("non-zero offset 8 for complete file {id}")
    );
}

#[test]
fn metadata_changes_are_validated_and_claimed_once() {
    let mut receiver = Receiver::new(false, false);
    match receiver.on_message(1, metadata(MetadataOperation::CreateDirectory, "dir"), &[false]) {
        Ok(ReceiveStep::Apply { operation, path, mode, mtime_ns, .. }) => {
            assert_eq!(operation, MetadataOperation::CreateDirectory);
            assert_eq!(path.as_bytes(), b"dir");
            assert_eq!(mode, 0o755);
            assert_eq!(mtime_ns, 5);
        }
        other => panic!("unexpected step {other:?}"),
    }
    // The closing directory repair may name a directory again.
    assert!(matches!(
        receiver.on_message(2, metadata(MetadataOperation::SetDirectory, "dir"), &[false]),
        Ok(ReceiveStep::Apply { operation: MetadataOperation::SetDirectory, .. })
    ));
    assert!(matches!(
        receiver.on_message(3, metadata(MetadataOperation::SetFile, "dir"), &[false]),
        Err(ServerError::DuplicatePath(path)) if path == "dir"
    ));
    // The root itself is repaired without validation.
    assert!(matches!(
        receiver.on_message(4, metadata(MetadataOperation::SetDirectory, ""), &[]),
        Ok(ReceiveStep::Apply { operation: MetadataOperation::SetDirectory, .. })
    ));
    assert!(matches!(
        receiver.on_message(5, metadata(MetadataOperation::CreateDirectory, ""), &[]),
        Err(ServerError::InvalidPath(text)) if text == "empty path"
    ));
    assert!(matches!(
        receiver.on_message(6, metadata(MetadataOperation::CreateSymlink, "../x"), &[]),
        Err(ServerError::InvalidPath(text)) if text == "unsafe wire path '../x'"
    ));
    assert!(matches!(
        receiver.on_message(7, metadata(MetadataOperation::SetFile, "link/file"), &[true, false]),
        Err(ServerError::SymlinkEscape(path)) if path == "link/file"
    ));
}

#[test]
fn deletions_happen_only_when_the_session_deletes() {
    let mut keeping = Receiver::new(false, false);
    let delete = metadata(MetadataOperation::Delete, "old");
    assert_eq!(keeping.destination_of(&delete), None);
    assert!(matches!(
        keeping.on_message(1, delete.clone(), &[]),
        Ok(ReceiveStep::Acknowledge(ACK_METADATA))
    ));
    let mut deleting = Receiver::new(false, true);
    assert_eq!(deleting.destination_of(&delete), Some(b"old".to_vec()));
    assert!(matches!(
        deleting.on_message(1, delete, &[false]),
        Ok(ReceiveStep::Apply { operation: MetadataOperation::Delete, .. })
    ));
    let path = WirePath::from_wire(b"old".to_vec()).unwrap();
    assert_eq!(
        delete_failure(42, &path, "permission denied"),
        Message::Error { code: 1001, related_id: 42, message: "delete 'old' failed: permission denied".to_string() }
    );
}

#[test]
fn large_files_are_prepared_written_and_finished_once() {
    let mut receiver = Receiver::new(false, false);
    assert!(matches!(
        receiver.on_message(1, prepare(8, "big", 10), &[false]),
        Ok(ReceiveStep::Prepare { file_id: 8 })
    ));
    let entry = receiver.large_file(8).unwrap();
    assert_eq!(entry.path.as_bytes(), b"big");
    assert_eq!(entry.size, 10);
    assert_eq!(entry.mode, 0o600);
    assert!(matches!(
        receiver.on_message(2, segment(8, 4, b"abcd"), &[]),
        Ok(ReceiveStep::WriteChunk { file_id: 8, offset: 4, .. })
    ));
    assert!(matches!(
        receiver.on_message(3, Message::LargeFileRange { file_id: 8, range: ByteRange { offset: 0, length: 4 } }, &[]),
        Ok(ReceiveStep::Acknowledge(ACK_LARGE_RANGE))
    ));
    match receiver.on_message(4, Message::LargeFileFinish { file_id: 8, digest: [1u8; 32] }, &[]) {
        Ok(ReceiveStep::Finish { file_id, entry, digest, verify_readback }) => {
            assert!(!verify_readback);
            assert_eq!(file_id, 8);
            assert_eq!(entry.path.as_bytes(), b"big");
            assert_eq!(digest, [1u8; 32]);
        }
        other => panic!("unexpected step {other:?}"),
    }
    assert!(receiver.large_file(8).is_none());
    assert_eq!(
        unexpected_text(receiver.on_message(5, Message::LargeFileFinish { file_id: 8, digest: [1u8; 32] }, &[])),
        "LargeFileFinish for unregistered file_id 8"
    );
    // The same destination cannot be prepared twice in one transfer.
    assert!(matches!(
        receiver.on_message(6, prepare(9, "big", 10), &[false]),
        Err(ServerError::DuplicatePath(path)) if path == "big"
    ));
}

#[test]
fn peer_errors_and_stray_messages_end_the_receiving_session() {
    let mut receiver = Receiver::new(false, false);
    let error = Message::Error { code: 7, related_id: 1, message: "disk full".to_string() };
    assert!(matches!(
        receiver.on_message(1, error, &[]),
        Err(ServerError::RemoteError { code: 7, message }) if message == "disk full"
    ));
    let ack = Message::Ack { acknowledged_id: 1, acknowledged_type: 3 };
    assert_eq!(unexpected_text(receiver.on_message(2, ack, &[])), "Ack");
}

#[test]
fn large_file_coverage_and_resume_rules() {
    let ranges = [ByteRange { offset: 4, length: 6 }, ByteRange { offset: 0, length: 4 }];
    assert!(check_large_coverage(3, 10, &ranges).is_ok());
    assert!(matches!(
        check_large_coverage(3, 11, &ranges),
        Err(ServerError::UnexpectedMessage(text)) if text == "LargeFileFinish for file_id 3 has incomplete byte coverage"
    ));
    assert_eq!(resume_start(2, true), ResumeStart::Resume);
    assert_eq!(resume_start(2, false), ResumeStart::Fresh { invalidate: true });
    assert_eq!(resume_start(0, true), ResumeStart::Fresh { invalidate: false });
}

#[test]
fn collections_are_sent_in_full_pages_and_at_least_one() {
    assert_eq!(collection_pages(0, 3), vec![(0, 0, true)]);
    assert_eq!(collection_pages(3, 3), vec![(0, 3, true)]);
    assert_eq!(collection_pages(7, 3), vec![(0, 3, false), (3, 6, false), (6, 7, true)]);
}

#[test]
fn scan_pages_and_pipelined_segments_wait_for_acknowledgements() {
    assert!(expect_ack_for(&Message::Ack { acknowledged_id: 1, acknowledged_type: 2 }, "Scan").is_ok());
    let stats = Message::Stats { files: 0, bytes: 0, skipped: 0, warnings: 0, failed: 0 };
    assert!(matches!(
        expect_ack_for(&stats, "Scan"),
        Err(ServerError::UnexpectedMessage(text)) if text == "expected Ack for Scan, got Stats"
    ));
    assert!(drain_reply(Message::Ack { acknowledged_id: 1, acknowledged_type: 4 }).is_ok());
    assert!(matches!(
        drain_reply(stats),
        Err(ServerError::UnexpectedMessage(text)) if text == "expected Ack while draining pipelined writes, got Stats"
    ));
    assert!(matches!(
        drain_reply(Message::Error { code: 2, related_id: 0, message: "no".to_string() }),
        Err(ServerError::RemoteError { code: 2, message }) if message == "no"
    ));
}

#[test]
fn sending_session_serves_ranges_up_to_the_end_of_the_file() {
    let mut sender = Sender::new();
    let entry = match sender.on_message(1, prepare(5, "big", 10)).unwrap() {
        SendStep::Register { file_id, entry } => {
            assert_eq!(file_id, 5);
            entry
        }
        other => panic!("unexpected step {other:?}"),
    };
    sender.register(5, entry);
    let range = |offset, length| Message::LargeFileRange { file_id: 5, range: ByteRange { offset, length } };
    assert!(matches!(
        sender.on_message(2, range(8, 4)).unwrap(),
        SendStep::SendRange { file_id: 5, offset: 8, length: 2 }
    ));
    assert!(matches!(
        sender.on_message(3, range(12, 4)).unwrap(),
        SendStep::SendRange { file_id: 5, offset: 12, length: 0 }
    ));
    assert!(matches!(
        sender.on_message(4, Message::LargeFileFinish { file_id: 5, digest: [0u8; 32] }).unwrap(),
        SendStep::Acknowledge(7)
    ));
    assert!(matches!(sender.on_message(5, range(0, 4)).unwrap(), SendStep::Acknowledge(6)));
    match sender.on_message(6, Message::FileBatch { batch_id: 1, entries: vec![record("a", 1)] }).unwrap() {
        SendStep::SendBatch { file_id, records } => {
            assert_eq!(file_id, 6);
            assert_eq!(records, vec![record("a", 1)]);
        }
        other => panic!("unexpected step {other:?}"),
    }
    assert!(matches!(
        sender.on_message(7, metadata(MetadataOperation::CreateSymlink, "link")).unwrap(),
        SendStep::DescribeLink { path } if path.as_bytes() == b"link"
    ));
    assert!(matches!(
        sender.on_message(8, metadata(MetadataOperation::SetFile, "file")).unwrap(),
        SendStep::Acknowledge(8)
    ));
    assert!(matches!(
        sender.on_message(9, metadata(MetadataOperation::CreateSymlink, "/abs")),
        Err(ServerError::InvalidPath(text)) if text == "unsafe wire path '/abs'"
    ));
}

#[test]
fn client_accepts_only_the_answers_it_waits_for() {
    let ack = Message::Ack { acknowledged_id: 1, acknowledged_type: 8 };
    assert!(expect_ack(&ack).is_ok());
    assert!(matches!(
        expect_ack(&Message::Stats { files: 0, bytes: 0, skipped: 0, warnings: 0, failed: 0 }),
        Err(ServerError::UnexpectedMessage(text)) if text == "expected Ack, got Stats"
    ));
    assert!(matches!(
        expect_ack_for(&Message::Stats { files: 0, bytes: 0, skipped: 0, warnings: 0, failed: 0 }, "SessionConfig"),
        Err(ServerError::UnexpectedMessage(text)) if text == "expected Ack for SessionConfig, got Stats"
    ));
    assert_eq!(expect_ack_or_delete_warning(ack.clone()).unwrap(), None);
    let warning = Message::Error { code: 1001, related_id: 4, message: "delete 'x' failed: busy".to_string() };
    assert_eq!(
        expect_ack_or_delete_warning(warning).unwrap(),
        Some("delete 'x' failed: busy".to_string())
    );
    let other_error = Message::Error { code: 3, related_id: 4, message: "boom".to_string() };
    assert!(matches!(
        expect_ack_or_delete_warning(other_error),
        Err(ServerError::UnexpectedMessage(text)) if text == "expected Ack or delete warning, got Error"
    ));
    let handshake = Message::Handshake {
        role: Role::Source,
        capabilities: 0x13,
        max_payload: 1,
        max_segment: 1,
        window: 1,
        job_id: [0u8; 16],
        compression: CompressionMode::Zstd,
        compression_level: 3,
    };
    assert_eq!(server_handshake(&handshake).unwrap(), (CompressionMode::Zstd, 0x13));
    assert!(matches!(
        server_handshake(&ack),
        Err(ServerError::UnexpectedMessage(text)) if text == "expected Server Handshake, got Ack"
    ));
    assert_eq!(compression_reason(false, CAP_ZSTD), "compression disabled by user");
    assert_eq!(compression_reason(true, 0), "remote peer does not advertise zstd");
    assert_eq!(compression_reason(true, CAP_ZSTD), "both peers advertise zstd");
}

#[test]
fn pull_keeps_the_root_and_the_filtered_entries_of_each_scan_page() {
    let filter = from_exclude_patterns(&["*.tmp".to_string()]).unwrap();
    let mut intake = ScanIntake::new();
    let mut root = record("", 0);
    root.kind = EntryKind::Directory;
    root.mode = 0o700;
    let first = Message::Scan { scan_id: 1, final_page: false, entries: vec![root, record("a", 1), record("b.tmp", 2)] };
    assert_eq!(intake.on_page(first, &filter).unwrap(), false);
    let second = Message::Scan { scan_id: 1, final_page: true, entries: vec![record("dir/c", 3)] };
    assert_eq!(intake.on_page(second, &filter).unwrap(), true);
    assert_eq!(intake.root(), Some((0o700, 1_000)));
    let entries = intake.into_entries();
    let paths: Vec<&[u8]> = entries.iter().map(|entry| entry.path.as_bytes()).collect();
    assert_eq!(paths, vec![b"a".as_slice(), b"dir/c".as_slice()]);

    let mut refusing = ScanIntake::new();
    let bad = Message::Scan { scan_id: 1, final_page: true, entries: vec![record("../up", 1)] };
    assert!(matches!(
        refusing.on_page(bad, &filter),
        Err(ServerError::InvalidPath(text)) if text == "unsafe wire path '../up'"
    ));
    assert!(matches!(
        refusing.on_page(Message::Ack { acknowledged_id: 1, acknowledged_type: 9 }, &filter),
        Err(ServerError::UnexpectedMessage(text)) if text == "expected Scan, got Ack"
    ));
}

fn session_config(exclude_patterns: Vec<Vec<u8>>) -> Message {
    Message::SessionConfig {
        streams: 1,
        batch_bytes: 32 * 1024 * 1024,
        chunk_bytes: 16 * 1024 * 1024,
        window: 64,
        delete: true,
        checksum: false,
        paranoid: true,
        dry_run: false,
        exclude_patterns,
        filter_rules: Vec::new(),
    }
}

#[test]
fn sync_sessions_start_from_the_client_configuration() {
    let config = Frame { message_id: 2, message: session_config(vec![b"*.tmp".to_vec()]) };
    match accept_session_config(SessionKind::Sink, 0, config) {
        Ok((SyncRoute::Sink(settings), ack)) => {
            assert!(settings.delete && settings.paranoid && !settings.checksum && !settings.dry_run);
            assert!(!settings.filter.decide("a.tmp").is_included());
            assert!(settings.filter.decide("a.txt").is_included());
            assert_eq!(ack, Message::Ack { acknowledged_id: 2, acknowledged_type: 2 });
        }
        _ => panic!("expected a receiving session"),
    }
    let config = Frame { message_id: 3, message: session_config(Vec::new()) };
    assert!(matches!(
        accept_session_config(SessionKind::Sink, CAP_DATA_ONLY, config),
        Ok((SyncRoute::DataSink, _))
    ));
    let config = Frame { message_id: 4, message: session_config(Vec::new()) };
    assert!(matches!(
        accept_session_config(SessionKind::Source, 0, config),
        Ok((SyncRoute::Source { checksum: false }, _))
    ));
    let unreadable = Frame { message_id: 5, message: session_config(vec![vec![0xff]]) };
    assert!(matches!(
        accept_session_config(SessionKind::Sink, 0, unreadable),
        Err(ServerError::FilterUnrepresentable(_))
    ));
    let wrong = Frame { message_id: 6, message: Message::Ack { acknowledged_id: 1, acknowledged_type: 1 } };
    assert!(matches!(
        accept_session_config(SessionKind::Sink, 0, wrong),
        Err(ServerError::UnexpectedMessage(text)) if text == "expected SessionConfig, got Ack"
    ));
}

#[test]
fn data_sessions_take_only_file_data() {
    let mut receiver = Receiver::data_only();
    assert!(matches!(
        receiver.on_message(1, Message::FileBatch { batch_id: 1, entries: vec![record("a", 1)] }, &[]),
        Ok(ReceiveStep::Acknowledge(ACK_FILE_BATCH))
    ));
    assert!(matches!(
        receiver.on_message(2, segment(1 << 16, 0, b"x"), &[false]),
        Ok(ReceiveStep::Publish { drain: true, .. })
    ));
    assert!(matches!(
        receiver.on_message(3, prepare(4, "big", 10), &[false]),
        Ok(ReceiveStep::Prepare { file_id: 4 })
    ));
    for message in [
        metadata(MetadataOperation::CreateDirectory, "dir"),
        Message::LargeFileFinish { file_id: 4, digest: [0u8; 32] },
        Message::Stats { files: 0, bytes: 0, skipped: 0, warnings: 0, failed: 0 },
    ] {
        let name = message.name();
        assert_eq!(
            unexpected_text(receiver.on_message(4, message, &[])),
            format!("data session does not handle {name}")
        );
    }
}

#[test]
fn unrouted_segment_is_a_loud_error_not_a_silent_drop() {
    let mut server = Server::new(PathBuf::from("/dst"), true);
    let handshake = Frame {
        message_id: 1,
        message: Message::Handshake {
            role: Role::Source,
            capabilities: 0,
            max_payload: MAX_COMPLETE_PAYLOAD,
            max_segment: MAX_DATA_SEGMENT,
            window: DEFAULT_UNACKNOWLEDGED_WINDOW,
            job_id: [9u8; 16],
            compression: CompressionMode::Uncompressed,
            compression_level: 3,
        },
    };
    let answer = server.answer_handshake(&handshake).unwrap();
    assert_eq!(answer.kind, SessionKind::Sink);
    let config = Frame {
        message_id: 2,
        message: Message::SessionConfig {
            streams: 1,
            batch_bytes: 32 * 1024 * 1024,
            chunk_bytes: 16 * 1024 * 1024,
            window: DEFAULT_UNACKNOWLEDGED_WINDOW,
            delete: false,
            checksum: false,
            paranoid: false,
            dry_run: false,
            exclude_patterns: Vec::new(),
            filter_rules: Vec::new(),
        },
    };
    let settings = match accept_session_config(answer.kind, 0, config).unwrap().0 {
        SyncRoute::Sink(settings) => settings,
        _ => panic!("expected a receiving session"),
    };
    // The (empty) destination scan is one final page, acknowledged by the client.
    assert_eq!(collection_pages(0, 1024), vec![(0, 0, true)]);
    assert!(expect_ack_for(&Message::Ack { acknowledged_id: 1002, acknowledged_type: 9 }, "Scan").is_ok());

    // A FileSegment whose file_id was never prepared or batched must fail
    // loudly rather than report success while dropping the bytes.
    let mut receiver = Receiver::new(settings.dry_run, settings.delete);
    let data = b"must not be silently dropped".to_vec();
    let segment = Message::FileSegment { file_id: 9_999, offset: 0, digest: *blake3::hash(&data).as_bytes(), data };
    assert_eq!(receiver.destination_of(&segment), None);
    let result = receiver.on_message(4, segment, &[]);
    assert!(
        matches!(&result, Err(ServerError::UnexpectedMessage(msg)) if msg.contains("unregistered file_id")),
        "unregistered FileSegment must be rejected, got {result:?}"
    );
}

#[test]
fn a_paranoid_receiver_asks_for_a_read_back_and_the_read_back_is_judged() {
    let mut receiver = Receiver::new(false, false).with_paranoid(true);
    let record = EntryRecord {
        path: b"p".to_vec(),
        kind: EntryKind::File,
        size: 2,
        mtime_ns: 5,
        mode: 0o644,
        fingerprint: [0; 32],
    };
    receiver.on_message(1, Message::FileBatch { batch_id: 0, entries: vec![record] }, &[]).unwrap();
    match receiver.on_message(2, segment(1u64 << 16, 0, b"ok"), &[false]) {
        Ok(ReceiveStep::Publish { entry, verify_readback, .. }) => {
            assert!(verify_readback);
            assert_eq!(entry.mtime, 5);
            let digest = *blake3::hash(b"ok").as_bytes();
            assert!(xsync_core::sink_session::readback_verified(&entry, &digest, b"ok").is_ok());
            assert_eq!(
                xsync_core::sink_session::readback_verified(&entry, &digest, b"no").unwrap_err(),
                ServerError::Sink(xsync_core::error::SinkError::VerificationFailed { path: "p".to_owned(), attempts: 2 })
            );
        }
        other => panic!("unexpected step {other:?}"),
    }
}

#[test]
fn a_push_opens_negotiates_and_takes_the_destination_scan() {
    let settings = OpeningSettings {
        job_id: [5; 16],
        compress: true,
        compression_level: 3,
        unix_modes: true,
        delete: true,
        checksum: false,
        paranoid: false,
        dry_run: false,
    };
    let mut push = ClientOpening::for_push(settings, LocalSyncOptions::default());
    match push.on_event(OpeningEvent::Start) {
        OpeningAction::Send { id: 1, message: Message::Handshake { role, compression, .. } } => {
            assert_eq!(role, Role::Source);
            assert_eq!(compression, CompressionMode::Zstd);
        }
        _ => panic!("the push opens with its handshake"),
    }
    let server = Message::Handshake {
        role: Role::Sink,
        capabilities: CAP_ZSTD,
        max_payload: MAX_COMPLETE_PAYLOAD,
        max_segment: MAX_DATA_SEGMENT,
        window: DEFAULT_UNACKNOWLEDGED_WINDOW,
        job_id: [5; 16],
        compression: CompressionMode::Zstd,
        compression_level: 3,
    };
    assert!(matches!(push.on_event(OpeningEvent::Received { message_id: 1, message: server }), OpeningAction::Receive));
    assert_eq!(push.remote_capabilities(), CAP_ZSTD);
    let ack = Message::Ack { acknowledged_id: 1, acknowledged_type: 0 };
    match push.on_event(OpeningEvent::Received { message_id: 2, message: ack.clone() }) {
        OpeningAction::Send { id: 2, message: Message::SessionConfig { streams: 1, delete: true, .. } } => {}
        _ => panic!("the settings follow the handshake"),
    }
    assert!(matches!(push.on_event(OpeningEvent::Received { message_id: 3, message: ack }), OpeningAction::Receive));
    let page = |final_page, path: &[u8]| Message::Scan {
        scan_id: 0,
        final_page,
        entries: vec![EntryRecord { path: path.to_vec(), kind: EntryKind::File, size: 1, mtime_ns: 2, mode: 0o600, fingerprint: [0; 32] }],
    };
    match push.on_event(OpeningEvent::Received { message_id: 4, message: page(false, b"a") }) {
        OpeningAction::Send { id: 3, message: Message::Ack { acknowledged_id: 4, acknowledged_type: 9 } } => {}
        _ => panic!("a page is acknowledged"),
    }
    match push.on_event(OpeningEvent::Received { message_id: 5, message: page(true, b"b") }) {
        OpeningAction::Plan { ack_id: 4, ack: Message::Ack { acknowledged_id: 5, .. }, entries: destination, root } => {
            assert_eq!(destination.len(), 2);
            assert_eq!(destination[1].path.as_bytes(), b"b");
            assert_eq!(root, None);
        }
        _ => panic!("the last page hands the destination to the planner"),
    }
    match push.on_event(OpeningEvent::Start) {
        OpeningAction::Fail(error) => assert!(error.to_string().contains("out of order")),
        _ => panic!("a planned push takes no more events"),
    }
}

#[test]
fn a_pull_opens_as_the_sink() {
    let settings = OpeningSettings {
        job_id: [6; 16],
        compress: false,
        compression_level: 3,
        unix_modes: false,
        delete: false,
        checksum: false,
        paranoid: false,
        dry_run: true,
    };
    let mut pull = ClientOpening::for_pull(settings, LocalSyncOptions::default());
    match pull.on_event(OpeningEvent::Start) {
        OpeningAction::Send { id: 1, message: Message::Handshake { role, compression, .. } } => {
            assert_eq!(role, Role::Sink);
            assert_eq!(compression, CompressionMode::Uncompressed);
        }
        _ => panic!("the pull opens with its handshake"),
    }
    match pull.on_event(OpeningEvent::Received { message_id: 1, message: Message::Ack { acknowledged_id: 1, acknowledged_type: 0 } }) {
        OpeningAction::Fail(error) => assert!(error.to_string().contains("expected Server Handshake, got Ack"), "{error:?}"),
        _ => panic!("the server must answer with its handshake"),
    }
}

fn plain_settings() -> OpeningSettings {
    OpeningSettings {
        job_id: [1; 16],
        compress: false,
        compression_level: 0,
        unix_modes: false,
        delete: false,
        checksum: false,
        paranoid: false,
        dry_run: false,
    }
}

#[test]
fn a_push_to_a_server_takes_the_streams_route_only_for_several_streams() {
    let mut options = LocalSyncOptions::default();
    options.streams = 4;
    assert!(matches!(sync_push_server(plain_settings(), options), PushRoute::Streams));
    match sync_push_server(plain_settings(), LocalSyncOptions::default()) {
        PushRoute::Single(mut session) => match session.on_event(OpeningEvent::Start) {
            OpeningAction::Send { id: 1, message: Message::Handshake { role, .. } } => assert_eq!(role, Role::Source),
            _ => panic!("the push opens with its handshake"),
        },
        PushRoute::Streams => panic!("one stream is a single session"),
    }
}

#[test]
fn a_pull_from_a_server_opens_as_the_sink() {
    let mut session = sync_pull_server(plain_settings(), LocalSyncOptions::default());
    match session.on_event(OpeningEvent::Start) {
        OpeningAction::Send { id: 1, message: Message::Handshake { role, .. } } => assert_eq!(role, Role::Sink),
        _ => panic!("the pull opens with its handshake"),
    }
}
