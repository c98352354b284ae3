use xsync_core::error::ServerError;
use xsync_core::protocol::{Message, MetadataOperation};
use xsync_core::pull_session::{PullAction, PullEvent, TransferLimits, PullPhase, PullPlan, PullReport, PullSession};
use xsync_core::scan::{EntryKind, FileEntry, FileIdentity, SourceFingerprint};
use xsync_core::wire_path::WirePath;

fn entry(path: &str, kind: EntryKind, size: u64) -> FileEntry {
    FileEntry {
        path: WirePath::from_wire(path.as_bytes().to_vec()).unwrap(),
        kind,
        size,
        mtime: 5,
        mode: 0o644,
        fingerprint: SourceFingerprint {
            identity: FileIdentity { device: 1, file: 2 },
            kind,
            size,
            mtime: 5,
            ctime: None,
        },
    }
}

fn file(path: &str, size: u64) -> FileEntry {
    entry(path, EntryKind::File, size)
}

fn limits() -> TransferLimits {
    TransferLimits { small_file_limit: 100, max_batch_files: 2, batch_target: 1000 }
}

fn no_prefix() -> WirePath {
    WirePath::from_wire(Vec::new()).unwrap()
}

fn ack() -> Message {
    Message::Ack { acknowledged_id: 0, acknowledged_type: 0 }
}

fn received(message: Message) -> PullEvent {
    PullEvent::Received { message_id: 77, message }
}

fn segment() -> Message {
    Message::FileSegment { file_id: 1, offset: 0, digest: [3u8; 32], data: b"xy".to_vec() }
}

fn sent(action: PullAction) -> (u64, Vec<Message>) {
    match action {
        PullAction::Send { first_id, frames } => (first_id, frames),
        _ => panic!("expected frames to send"),
    }
}

fn batch_paths(frames: &[Message]) -> Vec<String> {
    assert_eq!(frames.len(), 1);
    match &frames[0] {
        Message::FileBatch { batch_id, entries } => {
            assert_eq!(*batch_id, 1);
            entries.iter().map(|e| String::from_utf8(e.path.clone()).unwrap()).collect()
        },
        other => panic!("expected a file batch, got {}", other.name()),
    }
}

fn segment_ack() -> Vec<Message> {
    vec![Message::Ack { acknowledged_id: 77, acknowledged_type: 4 }]
}

#[test]
fn pull_asks_for_links_without_the_source_name() {
    let plan = PullPlan {
        symlinks: vec![entry("src/l", EntryKind::Symlink, 0), entry("src/m", EntryKind::Symlink, 0)],
        files: Vec::new(),
        skipped: 0,
        failed_entries: 0,
    };
    let prefix = WirePath::from_wire(b"src".to_vec()).unwrap();
    let mut session = PullSession::new(plan, limits(), prefix, false, false, false, 4);
    let (first_id, frames) = sent(session.on_event(PullEvent::Start));
    assert_eq!(first_id, 4);
    assert_eq!(
        frames,
        vec![Message::Metadata {
            operation: MetadataOperation::CreateSymlink,
            path: b"l".to_vec(),
            target: Vec::new(),
            mode: 0o644,
            mtime_ns: 5,
        }]
    );
    let reply = Message::Metadata {
        operation: MetadataOperation::CreateSymlink,
        path: b"l".to_vec(),
        target: b"../t".to_vec(),
        mode: 0,
        mtime_ns: 0,
    };
    match session.on_event(received(reply)) {
        PullAction::CreateLink { index, target } => {
            assert_eq!(index, 0);
            assert_eq!(target, b"../t".to_vec());
        },
        _ => panic!("expected a link to create"),
    }
    let (first_id, frames) = sent(session.on_event(PullEvent::Applied));
    assert_eq!(first_id, 5);
    assert!(matches!(&frames[0], Message::Metadata { path, .. } if path == b"m"));
    // A reply that is not metadata leaves the link uncreated and moves on.
    assert!(matches!(session.on_event(received(ack())), PullAction::FinishLocal { delete: false }));
}

#[test]
fn pull_batches_small_files_and_fetches_the_rest_in_order() {
    let plan = PullPlan {
        symlinks: Vec::new(),
        files: vec![
            file("a", 10),
            file("big", 4 * 1024 * 1024),
            file("b", 20),
            file("m", 2000),
            file("c", 5),
        ],
        skipped: 1,
        failed_entries: 0,
    };
    let mut session = PullSession::new(plan, limits(), no_prefix(), false, true, false, 1);
    let (first_id, frames) = sent(session.on_event(PullEvent::Start));
    assert_eq!(first_id, 1);
    assert_eq!(batch_paths(&frames), vec!["a", "b"]);
    match session.on_event(received(segment())) {
        PullAction::Write { index, data, digest, verify_readback } => {
            assert!(!verify_readback);
            assert_eq!(index, 0);
            assert_eq!(data, b"xy".to_vec());
            assert_eq!(digest, [3u8; 32]);
        },
        _ => panic!("expected a write"),
    }
    let (first_id, frames) = sent(session.on_event(PullEvent::Applied));
    assert_eq!(first_id, 2);
    assert_eq!(frames, segment_ack());
    assert!(matches!(session.on_event(received(segment())), PullAction::Write { index: 2, .. }));
    assert_eq!(sent(session.on_event(PullEvent::Applied)).1, segment_ack());
    assert_eq!(session.stage(), PullPhase::BatchAck);
    let (_, frames) = sent(session.on_event(received(ack())));
    assert_eq!(batch_paths(&frames), vec!["c"]);
    assert!(matches!(session.on_event(received(segment())), PullAction::Write { index: 4, .. }));
    sent(session.on_event(PullEvent::Applied));
    assert!(matches!(session.on_event(received(ack())), PullAction::TransferLarge { index: 1 }));
    let (_, frames) = sent(session.on_event(PullEvent::LargeDone));
    assert_eq!(batch_paths(&frames), vec!["m"]);
    assert!(matches!(session.on_event(received(segment())), PullAction::Write { index: 3, .. }));
    sent(session.on_event(PullEvent::Applied));
    assert!(matches!(session.on_event(received(ack())), PullAction::FinishLocal { delete: true }));
    let (_, frames) = sent(session.on_event(PullEvent::LocalDone {
        metadata_repaired: 2,
        deleted_entries: 3,
        failed_entries: 1,
        warnings: 1,
    }));
    let bytes = 10 + 20 + 5 + 4 * 1024 * 1024 + 2000;
    assert_eq!(frames, vec![Message::Stats { files: 5, bytes, skipped: 1, warnings: 1, failed: 1 }]);
    assert!(matches!(session.on_event(received(ack())), PullAction::Receive));
    match session.on_event(received(ack())) {
        PullAction::Finish(report) => assert_eq!(
            report,
            PullReport {
                transferred_files: 5,
                transferred_bytes: bytes,
                skipped_files: 1,
                warnings: 1,
                failed_entries: 1,
                deleted_entries: 3,
                metadata_repaired: 2,
            }
        ),
        _ => panic!("expected the pull to finish"),
    }
    assert_eq!(session.stage(), PullPhase::Done);
}

#[test]
fn dry_run_pull_sends_only_statistics() {
    let plan = PullPlan { symlinks: Vec::new(), files: vec![file("a", 1)], skipped: 2, failed_entries: 0 };
    let mut session = PullSession::new(plan, limits(), no_prefix(), true, true, false, 9);
    let (first_id, frames) = sent(session.on_event(PullEvent::Start));
    assert_eq!(first_id, 9);
    assert_eq!(frames, vec![Message::Stats { files: 0, bytes: 0, skipped: 2, warnings: 0, failed: 0 }]);
    assert_eq!(session.next_message_id(), 10);
}

#[test]
fn refused_entries_keep_a_pull_from_deleting() {
    let plan = PullPlan { symlinks: Vec::new(), files: Vec::new(), skipped: 0, failed_entries: 1 };
    let mut session = PullSession::new(plan, limits(), no_prefix(), false, true, false, 1);
    assert!(matches!(session.on_event(PullEvent::Start), PullAction::FinishLocal { delete: false }));
}

#[test]
fn pull_refuses_what_is_not_a_segment() {
    let plan = PullPlan { symlinks: Vec::new(), files: vec![file("a", 1)], skipped: 0, failed_entries: 0 };
    let mut session = PullSession::new(plan, limits(), no_prefix(), false, false, false, 1);
    sent(session.on_event(PullEvent::Start));
    match session.on_event(received(ack())) {
        PullAction::Fail(ServerError::UnexpectedMessage(text)) => assert_eq!(text, "expected FileSegment, got Ack"),
        _ => panic!("expected a refusal"),
    }
    assert_eq!(session.stage(), PullPhase::Failed);
}

#[test]
fn a_paranoid_pull_asks_for_each_write_to_be_read_back() {
    let plan = PullPlan { symlinks: Vec::new(), files: vec![file("a", 1)], skipped: 0, failed_entries: 0 };
    let mut session = PullSession::new(plan, limits(), no_prefix(), false, false, true, 1);
    sent(session.on_event(PullEvent::Start));
    assert!(matches!(session.on_event(received(segment())), PullAction::Write { index: 0, verify_readback: true, .. }));
}
