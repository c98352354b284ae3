use xsync_core::error::ServerError;
use xsync_core::protocol::{ByteRange, Message, MetadataOperation};
use xsync_core::push_session::PushPlan;
use xsync_core::scan::{EntryKind, FileEntry, FileIdentity, SourceFingerprint};
use xsync_core::streams_control::{ControlAction, ControlEvent, ControlPhase, StreamsControl};
use xsync_core::wire_path::WirePath;

const MIB: u64 = 1024 * 1024;

fn entry(path: &str, kind: EntryKind, size: u64) -> FileEntry {
    FileEntry {
        path: WirePath::from_wire(path.as_bytes().to_vec()).unwrap(),
        kind,
        size,
        mtime: 3,
        mode: 0o755,
        fingerprint: SourceFingerprint {
            identity: FileIdentity { device: 1, file: 2 },
            kind,
            size,
            mtime: 3,
            ctime: None,
        },
    }
}

fn plan() -> PushPlan {
    PushPlan {
        directories: vec![entry("a", EntryKind::Directory, 0)],
        symlinks: Vec::new(),
        symlink_targets: Vec::new(),
        files: files(),
        extraneous: Vec::new(),
        extraneous_directories: vec![entry("x", EntryKind::Directory, 0)],
        repairs: Vec::new(),
        finish: vec![entry("a", EntryKind::Directory, 0)],
        drifted_directories: 0,
        root: Some((0o700, 8)),
        skipped: 0,
    }
}

fn files() -> Vec<FileEntry> {
    vec![entry("s", EntryKind::File, 10), entry("L", EntryKind::File, 2 * MIB)]
}

fn ack() -> Message {
    Message::Ack { acknowledged_id: 0, acknowledged_type: 0 }
}

fn page(final_page: bool, ranges: Vec<ByteRange>) -> Message {
    Message::ResumePage { file_id: 2, page: 0, final_page, ranges }
}

fn sent(action: ControlAction) -> (u64, Vec<Message>) {
    match action {
        ControlAction::Send { first_id, frames } => (first_id, frames),
        _ => panic!("expected frames to send"),
    }
}

fn prepared_session() -> StreamsControl {
    let mut session = StreamsControl::new(plan(), false, true, 1);
    let (first_id, frames) = sent(session.on_event(ControlEvent::Start));
    assert_eq!(first_id, 1);
    assert!(matches!(&frames[..], [Message::Metadata { operation: MetadataOperation::CreateDirectory, .. }]));
    let (first_id, frames) = sent(session.on_event(ControlEvent::Received(ack())));
    assert_eq!(first_id, 3);
    match &frames[..] {
        [Message::LargeFilePrepare { file_id, path, size, .. }] => {
            assert_eq!(*file_id, 2);
            assert_eq!(path, b"L");
            assert_eq!(*size, 2 * MIB);
        },
        _ => panic!("expected the large file's prepare"),
    }
    assert!(matches!(session.on_event(ControlEvent::Received(ack())), ControlAction::Receive));
    let first_half = ByteRange { offset: 0, length: MIB };
    assert!(matches!(session.on_event(ControlEvent::Received(page(false, vec![first_half]))), ControlAction::Receive));
    assert!(matches!(session.on_event(ControlEvent::Received(page(true, Vec::new()))), ControlAction::RunStreams));
    assert_eq!(session.prepared_files(), vec![(1, 2, vec![first_half])]);
    session
}

#[test]
fn control_session_commits_large_files_after_the_barrier() {
    let mut session = prepared_session();
    let (first_id, frames) = sent(session.on_event(ControlEvent::StreamsDone {
        assigned: vec![vec![ByteRange { offset: MIB, length: MIB }]],
        digests: vec![[9u8; 32]],
        small_files: 1,
        small_bytes: 10,
    }));
    assert_eq!(first_id, 4);
    assert_eq!(frames, vec![Message::LargeFileFinish { file_id: 2, digest: [9u8; 32] }]);
    let (_, frames) = sent(session.on_event(ControlEvent::Received(ack())));
    assert!(matches!(&frames[..], [Message::Metadata { operation: MetadataOperation::SetDirectory, path, .. }] if path == b"a"));
    let (_, frames) = sent(session.on_event(ControlEvent::Received(ack())));
    assert!(matches!(&frames[..], [Message::Metadata { operation: MetadataOperation::SetDirectory, path, mode: 0o700, mtime_ns: 8, .. }] if path.is_empty()));
    let (_, frames) = sent(session.on_event(ControlEvent::Received(ack())));
    assert!(matches!(&frames[..], [Message::Metadata { operation: MetadataOperation::Delete, path, .. }] if path == b"x"));
    let (first_id, frames) = sent(session.on_event(ControlEvent::Received(ack())));
    assert_eq!(first_id, 8);
    assert_eq!(frames, vec![Message::Stats { files: 2, bytes: 10 + 2 * MIB, skipped: 0, warnings: 0, failed: 0 }]);
    assert!(matches!(session.on_event(ControlEvent::Received(ack())), ControlAction::Receive));
    match session.on_event(ControlEvent::Received(ack())) {
        ControlAction::Finish(report) => {
            assert_eq!(report.transferred_files, 2);
            assert_eq!(report.deleted_entries, 1);
        },
        _ => panic!("expected the push to finish"),
    }
    assert_eq!(session.stage(), ControlPhase::Done);
}

#[test]
fn control_session_refuses_a_large_file_the_streams_left_short() {
    let mut session = prepared_session();
    match session.on_event(ControlEvent::StreamsDone {
        assigned: vec![Vec::new()],
        digests: vec![[0u8; 32]],
        small_files: 0,
        small_bytes: 0,
    }) {
        ControlAction::Fail(ServerError::UnexpectedMessage(text)) => assert_eq!(
            text,
            "large file L covered 1048576 of 2097152 bytes; ranges lost across streams"
        ),
        _ => panic!("expected the barrier to fail"),
    }
    assert_eq!(session.stage(), ControlPhase::Failed);
}

#[test]
fn dry_run_control_session_sends_only_statistics() {
    let mut session = StreamsControl::new(plan(), true, true, 5);
    let (first_id, frames) = sent(session.on_event(ControlEvent::Start));
    assert_eq!(first_id, 5);
    assert_eq!(frames, vec![Message::Stats { files: 0, bytes: 0, skipped: 0, warnings: 0, failed: 0 }]);
}

#[test]
fn control_session_refuses_wrong_answers_to_a_prepare() {
    let mut session = StreamsControl::new(plan(), false, false, 1);
    sent(session.on_event(ControlEvent::Start));
    sent(session.on_event(ControlEvent::Received(ack())));
    let stats = Message::Stats { files: 0, bytes: 0, skipped: 0, warnings: 0, failed: 0 };
    match session.on_event(ControlEvent::Received(stats)) {
        ControlAction::Fail(ServerError::UnexpectedMessage(text)) => assert_eq!(text, "expected Ack, got Stats"),
        _ => panic!("expected a refusal"),
    }

    let mut session = StreamsControl::new(plan(), false, false, 1);
    sent(session.on_event(ControlEvent::Start));
    sent(session.on_event(ControlEvent::Received(ack())));
    session.on_event(ControlEvent::Received(ack()));
    match session.on_event(ControlEvent::Received(ack())) {
        ControlAction::Fail(ServerError::UnexpectedMessage(text)) => assert_eq!(text, "expected ResumePage, got Ack"),
        _ => panic!("expected a refusal"),
    }
}
