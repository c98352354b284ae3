use xsync_core::data_session::{DataAction, DataEvent, DataSender};
use xsync_core::protocol::{ByteRange, Message, Role};
use std::path::PathBuf;
use xsync_core::error::{SinkError, SourceReadError};
use xsync_core::scan::{EntryKind, FileEntry, FileIdentity, SourceFingerprint};
use xsync_core::sink::{
    after_payload, check_chunk_range, path_depth, payload_verified, temporary_relative_path,
    AttemptOutcome, Sink, MAX_VERIFICATION_ATTEMPTS,
};
use xsync_core::source::{
    classify_attempt, stable_read_digest, AttemptResult, ReadStep, RefreshResult, SourceReader, MAX_SOURCE_READ_ATTEMPTS,
};
use xsync_core::wire_path::WirePath;

fn entry(path: &str, kind: EntryKind, size: u64) -> FileEntry {
    FileEntry {
        path: WirePath::from_wire(path.as_bytes().to_vec()).unwrap(),
        kind,
        size,
        mtime: 0,
        mode: 0o644,
        fingerprint: SourceFingerprint {
            identity: FileIdentity { device: 1, file: 2 },
            kind,
            size,
            mtime: 0,
            ctime: None,
        },
    }
}

#[test]
fn rejects_paths_that_can_escape_the_destination() {
    let sink = Sink::with_root("/tmp/dest".to_owned());
    for path in ["", "/absolute", "../escape", "dir/../escape", "dir//file"] {
        assert!(matches!(
            sink.temporary_path(path),
            Err(SinkError::InvalidPath { .. })
        ));
    }
}

#[test]
fn destination_paths_resolve_under_the_root() {
    let sink = Sink::with_root("/tmp/dest".to_owned());
    assert_eq!(sink.root(), "/tmp/dest");
    assert_eq!(sink.path_for("a/b.txt").unwrap(), "/tmp/dest/a/b.txt");
    assert_eq!(sink.path_for("a\0b").unwrap(), "/tmp/dest/a\0b", "a NUL byte is an ordinary name byte here");
    assert_eq!(
        sink.path_for("./x").unwrap_err(),
        SinkError::InvalidPath { path: "./x".to_owned() }
    );
}

#[test]
fn temporary_files_sit_beside_their_destination_named_by_digest() {
    let expected = format!(".xsync.tmp.{}", blake3::hash(b"dir/file.txt").to_hex());
    assert_eq!(temporary_relative_path("dir/file.txt").unwrap(), format!("dir/{expected}"));
    let top = format!(".xsync.tmp.{}", blake3::hash(b"file.txt").to_hex());
    assert_eq!(temporary_relative_path("file.txt").unwrap(), top);
    let sink = Sink::with_root("/r".to_owned());
    assert_eq!(sink.temporary_path("dir/file.txt").unwrap(), format!("/r/dir/{expected}"));
}

#[test]
fn a_payload_verifies_only_with_its_length_and_digest() {
    let data = b"hello world";
    let digest = *blake3::hash(data).as_bytes();
    assert!(payload_verified(11, &digest, data));
    assert!(!payload_verified(10, &digest, data));
    assert!(!payload_verified(11, &[0u8; 32], data));
}

#[test]
fn a_bad_payload_is_requested_once_more_then_fails() {
    assert_eq!(MAX_VERIFICATION_ATTEMPTS, 2);
    assert_eq!(after_payload(1, true), AttemptOutcome::Commit);
    assert_eq!(after_payload(1, false), AttemptOutcome::RequestAgain(2));
    assert_eq!(after_payload(2, false), AttemptOutcome::GiveUp);
    assert_eq!(after_payload(2, true), AttemptOutcome::Commit);
}

#[test]
fn chunks_must_lie_within_their_file() {
    let file = entry("big.bin", EntryKind::File, 100);
    assert!(check_chunk_range(&file, 90, 10).is_ok());
    assert_eq!(
        check_chunk_range(&file, 95, 10).unwrap_err().to_string(),
        "invalid chunk range for 'big.bin': offset 95, length 10, file size 100"
    );
    assert!(check_chunk_range(&file, u64::MAX, 2).is_err());
}

#[test]
fn directories_finish_deepest_first_in_their_given_order() {
    let sink = Sink::with_root("/r".to_owned());
    let entries = vec![
        entry("a", EntryKind::Directory, 0),
        entry("a/b/c", EntryKind::Directory, 0),
        entry("a/b", EntryKind::Directory, 0),
        entry("z", EntryKind::Directory, 0),
        entry("a/d", EntryKind::Directory, 0),
    ];
    let plan = sink.finish_directories(&entries).unwrap();
    let order: Vec<usize> = plan.iter().map(|step| step.index).collect();
    assert_eq!(order, vec![1, 2, 4, 0, 3]);
    assert_eq!(plan[0].path, "/r/a/b/c");
    assert_eq!(path_depth(b"a/b/c"), 2);
}

#[test]
fn finishing_refuses_the_first_non_directory_in_that_order() {
    let sink = Sink::with_root("/r".to_owned());
    let entries = vec![
        entry("top", EntryKind::File, 0),
        entry("x/deep", EntryKind::Symlink, 0),
    ];
    let error = sink.finish_directories(&entries).unwrap_err();
    assert_eq!(
        error.to_string(),
        "expected directory entry for 'x/deep', got Symlink"
    );
    assert!(sink.finish_root_directory(&entry("", EntryKind::Directory, 0)).is_ok());
    assert!(sink.finish_root_directory(&entry("f", EntryKind::File, 0)).is_err());
}

#[test]
fn source_paths_refuse_absolute_and_climbing_paths() {
    let reader = SourceReader::new("/src".to_owned());
    assert_eq!(reader.source_path("a/b").unwrap(), "/src/a/b");
    assert_eq!(reader.source_path("a/./b//c/").unwrap(), "/src/a/b/c");
    for bad in ["", "/etc/passwd", "../up", "a/../../up", "./a", "."] {
        assert_eq!(
            reader.source_path(bad).unwrap_err(),
            SourceReadError::InvalidPath { path: bad.to_owned() },
            "{bad}"
        );
    }
}

#[test]
fn a_changed_source_is_retried_once_then_unstable() {
    let file = entry("f.txt", EntryKind::File, 3);
    assert_eq!(MAX_SOURCE_READ_ATTEMPTS, 2);
    assert!(matches!(
        SourceReader::after_attempt(&file, 1, AttemptResult::Stable),
        ReadStep::Done(1)
    ));
    assert!(matches!(
        SourceReader::after_attempt(&file, 1, AttemptResult::Changed),
        ReadStep::Refresh { next: 2 }
    ));
    match SourceReader::after_attempt(&file, 2, AttemptResult::Changed) {
        ReadStep::Fail(error) => assert_eq!(
            error.to_string(),
            "source file 'f.txt' changed during read after 2 attempts"
        ),
        other => panic!("unexpected {other:?}"),
    }
    match SourceReader::after_attempt(&file, 1, AttemptResult::Vanished) {
        ReadStep::Fail(error) => assert_eq!(error, SourceReadError::Vanished { path: "f.txt".to_owned() }),
        other => panic!("unexpected {other:?}"),
    }
    let kept = SourceReader::after_refresh(&file, file.clone(), RefreshResult::Changed).unwrap();
    assert_eq!(kept.size, 3);
    let refreshed = SourceReader::after_refresh(&file, file.clone(), RefreshResult::File(entry("f.txt", EntryKind::File, 9))).unwrap();
    assert_eq!(refreshed.size, 9);
    assert!(SourceReader::after_refresh(&file, file.clone(), RefreshResult::Vanished).is_err());
    assert!(SourceReader::check_readable(&entry("d", EntryKind::Directory, 0)).is_err());
}

#[test]
fn a_read_attempt_is_stable_only_when_every_fingerprint_matches_the_scan() {
    let scanned = entry("file", EntryKind::File, 3);
    let same = scanned.fingerprint;
    let grown = SourceFingerprint { size: 4, ..same };
    assert!(matches!(classify_attempt(&scanned, &grown, None, None), Some(AttemptResult::Changed)));
    assert!(classify_attempt(&scanned, &same, None, None).is_none());
    assert!(classify_attempt(&scanned, &same, Some(&same), None).is_none());
    assert!(matches!(classify_attempt(&scanned, &same, Some(&grown), None), Some(AttemptResult::Changed)));
    let touched = SourceFingerprint { mtime: 5, ..same };
    assert!(matches!(
        classify_attempt(&scanned, &same, Some(&same), Some(&touched)),
        Some(AttemptResult::Changed)
    ));
    assert!(matches!(classify_attempt(&scanned, &same, Some(&same), Some(&same)), Some(AttemptResult::Stable)));
    assert_eq!(stable_read_digest(b"abc"), *blake3::hash(b"abc").as_bytes());
    assert_ne!(stable_read_digest(b"abc"), stable_read_digest(b"abd"));
}

#[test]
fn a_data_session_prepares_requests_and_sends_each_range_in_turn() {
    let ack = || Message::Ack { acknowledged_id: 0, acknowledged_type: 0 };
    let big = entry("big.bin", EntryKind::File, 8);
    let range = ByteRange { offset: 4, length: 4 };
    let mut sender = DataSender::new([3; 16], false, 3, vec![(big, vec![range])]);
    match sender.on_event(DataEvent::Start) {
        DataAction::Send { id: 1, message: Message::Handshake { role, .. } } => assert_eq!(role, Role::Source),
        _ => panic!("the session opens with its handshake"),
    }
    let peer = match sender.on_event(DataEvent::Start) {
        DataAction::Fail(error) => error,
        _ => panic!("a second start is out of order"),
    };
    assert!(peer.to_string().contains("out of order"), "{peer:?}");

    let mut sender = DataSender::new([3; 16], false, 3, vec![(entry("big.bin", EntryKind::File, 8), vec![range])]);
    sender.on_event(DataEvent::Start);
    let handshake = Message::Handshake {
        role: Role::Sink,
        capabilities: 0,
        max_payload: 0,
        max_segment: 0,
        window: 0,
        job_id: [3; 16],
        compression: xsync_core::protocol::CompressionMode::Uncompressed,
        compression_level: 3,
    };
    assert!(matches!(sender.on_event(DataEvent::Received(handshake)), DataAction::Receive));
    assert!(matches!(
        sender.on_event(DataEvent::Received(ack())),
        DataAction::Send { id: 2, message: Message::SessionConfig { streams: 1, .. } }
    ));
    assert!(matches!(sender.on_event(DataEvent::Received(ack())), DataAction::SendSmallFiles { next_id: 3 }));
    match sender.on_event(DataEvent::SmallFilesSent { next_id: 5 }) {
        DataAction::Send { id: 6, message: Message::LargeFilePrepare { file_id: 5, size: 8, path, .. } } => {
            assert_eq!(path, b"big.bin")
        }
        _ => panic!("the large file is prepared next"),
    }
    assert!(matches!(
        sender.on_event(DataEvent::Received(ack())),
        DataAction::Send { id: 7, message: Message::LargeFileRange { file_id: 5, range: ByteRange { offset: 4, length: 4 } } }
    ));
    assert!(matches!(
        sender.on_event(DataEvent::Received(ack())),
        DataAction::ReadRange { file: 0, offset: 4, length: 4 }
    ));
    match sender.on_event(DataEvent::RangeRead(b"tail".to_vec())) {
        DataAction::Send { id: 8, message: Message::FileSegment { file_id: 5, offset: 4, digest, data } } => {
            assert_eq!(data, b"tail");
            assert_eq!(digest, *blake3::hash(b"tail").as_bytes());
        }
        _ => panic!("the range goes out as one segment"),
    }
    assert!(matches!(sender.on_event(DataEvent::Received(ack())), DataAction::Done));
    assert_eq!(sender.written_ranges(), vec![(0, range)]);
}
