use xsync_core::batching::small_batch_frames;
use xsync_core::source::stable_read_digest;
use xsync_core::error::ServerError;
use xsync_core::protocol::{Message, MetadataOperation};
use xsync_core::pull_session::TransferLimits;
use xsync_core::push_session::{length_order, PushAction, PushEvent, PushPhase, PushPlan, PushReport, PushSession};
use xsync_core::scan::{EntryKind, FileEntry, FileIdentity, SourceFingerprint};
use xsync_core::sink_session::DELETE_FAILED_CODE;
use xsync_core::wire_path::WirePath;

fn entry(path: &str, kind: EntryKind, mode: u32, mtime: i64) -> FileEntry {
    FileEntry {
        path: WirePath::from_wire(path.as_bytes().to_vec()).unwrap(),
        kind,
        size: 0,
        mtime,
        mode,
        fingerprint: SourceFingerprint {
            identity: FileIdentity { device: 1, file: 2 },
            kind,
            size: 0,
            mtime,
            ctime: None,
        },
    }
}

fn dir(path: &str) -> FileEntry {
    entry(path, EntryKind::Directory, 0o755, 7)
}

fn empty_plan() -> PushPlan {
    PushPlan {
        directories: Vec::new(),
        symlinks: Vec::new(),
        symlink_targets: Vec::new(),
        files: Vec::new(),
        extraneous: Vec::new(),
        extraneous_directories: Vec::new(),
        repairs: Vec::new(),
        finish: Vec::new(),
        drifted_directories: 0,
        root: None,
        skipped: 0,
    }
}

fn limits() -> TransferLimits {
    TransferLimits { small_file_limit: 100, max_batch_files: 2, batch_target: 1000 }
}

fn sized(path: &str, size: u64) -> FileEntry {
    let mut file = entry(path, EntryKind::File, 0o644, 1);
    file.size = size;
    file
}

fn ack() -> Message {
    Message::Ack { acknowledged_id: 0, acknowledged_type: 0 }
}

fn sent(action: PushAction) -> (u64, Vec<Message>) {
    match action {
        PushAction::Send { first_id, frames } => (first_id, frames),
        _ => panic!("expected frames to send"),
    }
}

fn paths(frames: &[Message]) -> Vec<(MetadataOperation, String)> {
    frames
        .iter()
        .map(|m| match m {
            Message::Metadata { operation, path, .. } => (*operation, String::from_utf8(path.clone()).unwrap()),
            other => panic!("expected metadata, got {}", other.name()),
        })
        .collect()
}

#[test]
fn length_order_is_stable_in_both_directions() {
    let entries = vec![dir("a/bb"), dir("a"), dir("c/d"), dir("e"), dir("ffff")];
    assert_eq!(length_order(&entries, false), vec![1, 3, 2, 0, 4]);
    assert_eq!(length_order(&entries, true), vec![0, 4, 2, 1, 3]);
}

#[test]
fn dry_run_push_sends_only_statistics() {
    let mut plan = empty_plan();
    plan.directories.push(dir("a"));
    plan.skipped = 3;
    let mut session = PushSession::new(plan, limits(), true, true, 5);
    let (first_id, frames) = sent(session.on_event(PushEvent::Start));
    assert_eq!(first_id, 5);
    assert_eq!(frames, vec![Message::Stats { files: 0, bytes: 0, skipped: 3, warnings: 0, failed: 0 }]);
    assert!(matches!(session.on_event(PushEvent::Received(ack())), PushAction::Receive));
    let stats = Message::Stats { files: 0, bytes: 0, skipped: 0, warnings: 0, failed: 0 };
    match session.on_event(PushEvent::Received(stats)) {
        PushAction::Finish(report) => assert_eq!(
            report,
            PushReport {
                transferred_files: 0,
                transferred_bytes: 0,
                skipped_files: 3,
                warnings: 0,
                failed_entries: 0,
                deleted_entries: 0,
                metadata_repaired: 0,
            }
        ),
        _ => panic!("expected the push to finish"),
    }
    assert_eq!(session.next_message_id(), 6);
}

#[test]
fn push_walks_every_stage_in_order() {
    let mut plan = empty_plan();
    plan.directories = vec![dir("a/b"), dir("a"), dir("c")];
    plan.symlinks = vec![entry("a/link", EntryKind::Symlink, 0o777, 9)];
    plan.symlink_targets = vec![b"../c".to_vec()];
    plan.files = vec![sized("s1", 5), sized("s2", 7), sized("m", 200), sized("L", 2 * 1024 * 1024)];
    plan.extraneous = vec![entry("old.txt", EntryKind::File, 0o644, 1)];
    plan.extraneous_directories = vec![dir("x"), dir("x/y")];
    plan.repairs = vec![entry("a/f", EntryKind::File, 0o600, 11)];
    plan.finish = vec![dir("a"), dir("a/b"), dir("c")];
    plan.drifted_directories = 1;
    plan.root = Some((0o750, 42));
    plan.skipped = 2;
    let mut session = PushSession::new(plan, limits(), false, true, 10);

    let (first_id, frames) = sent(session.on_event(PushEvent::Start));
    assert_eq!(first_id, 10);
    assert_eq!(
        paths(&frames),
        vec![
            (MetadataOperation::CreateDirectory, "a".to_owned()),
            (MetadataOperation::CreateDirectory, "c".to_owned()),
            (MetadataOperation::CreateDirectory, "a/b".to_owned()),
        ]
    );
    assert!(matches!(session.on_event(PushEvent::Received(ack())), PushAction::Receive));
    assert!(matches!(session.on_event(PushEvent::Received(ack())), PushAction::Receive));

    let (first_id, frames) = sent(session.on_event(PushEvent::Received(ack())));
    assert_eq!(first_id, 13);
    assert_eq!(
        frames,
        vec![Message::Metadata {
            operation: MetadataOperation::CreateSymlink,
            path: b"a/link".to_vec(),
            target: b"../c".to_vec(),
            mode: 0o777,
            mtime_ns: 9,
        }]
    );
    match session.on_event(PushEvent::Received(ack())) {
        PushAction::Load { indices } => assert_eq!(indices, vec![0, 1]),
        _ => panic!("expected the small files to be loaded"),
    }
    assert_eq!(session.stage(), PushPhase::Loading);
    let (first_id, frames) =
        sent(session.on_event(PushEvent::Loaded(vec![Some(b"ab".to_vec()), Some(b"cde".to_vec())])));
    assert_eq!(first_id, 14);
    assert_eq!(frames.len(), 3);
    assert!(matches!(&frames[0], Message::FileBatch { entries, .. } if entries.len() == 2));
    assert!(matches!(&frames[2], Message::FileSegment { file_id, data, .. } if *file_id == (14 << 16) | 1 && data == b"cde"));
    assert!(matches!(session.on_event(PushEvent::Received(ack())), PushAction::Receive));
    assert!(matches!(session.on_event(PushEvent::Received(ack())), PushAction::Receive));
    assert!(matches!(session.on_event(PushEvent::Received(ack())), PushAction::Read { index: 2 }));
    let (first_id, frames) = sent(session.on_event(PushEvent::Read(Some(b"mm".to_vec()))));
    assert_eq!(first_id, 17);
    assert!(matches!(&frames[..], [Message::FileBatch { batch_id: 1, entries }] if entries.len() == 1 && entries[0].path == b"m"));
    let (first_id, frames) = sent(session.on_event(PushEvent::Received(ack())));
    assert_eq!(first_id, 18);
    assert_eq!(
        frames,
        vec![Message::FileSegment { file_id: 17 << 16, offset: 0, digest: stable_read_digest(b"mm"), data: b"mm".to_vec() }]
    );
    assert!(matches!(session.on_event(PushEvent::Received(ack())), PushAction::TransferLarge { index: 3 }));

    let (first_id, frames) = sent(session.on_event(PushEvent::LargeDone { transferred: true }));
    assert_eq!(first_id, 19);
    assert_eq!(paths(&frames), vec![(MetadataOperation::Delete, "old.txt".to_owned())]);
    let (_, frames) = sent(session.on_event(PushEvent::Received(ack())));
    assert_eq!(paths(&frames), vec![(MetadataOperation::Delete, "x/y".to_owned())]);
    let warning = Message::Error { code: DELETE_FAILED_CODE, related_id: 15, message: "busy".to_owned() };
    let (_, frames) = sent(session.on_event(PushEvent::Received(warning)));
    assert_eq!(paths(&frames), vec![(MetadataOperation::Delete, "x".to_owned())]);

    let (first_id, frames) = sent(session.on_event(PushEvent::Received(ack())));
    assert_eq!(first_id, 22);
    assert_eq!(
        frames,
        vec![Message::Metadata {
            operation: MetadataOperation::SetFile,
            path: b"a/f".to_vec(),
            target: Vec::new(),
            mode: 0o600,
            mtime_ns: 11,
        }]
    );
    let (_, frames) = sent(session.on_event(PushEvent::Received(ack())));
    assert_eq!(
        paths(&frames),
        vec![
            (MetadataOperation::SetDirectory, "a/b".to_owned()),
            (MetadataOperation::SetDirectory, "a".to_owned()),
            (MetadataOperation::SetDirectory, "c".to_owned()),
        ]
    );
    assert!(matches!(session.on_event(PushEvent::Received(ack())), PushAction::Receive));
    assert!(matches!(session.on_event(PushEvent::Received(ack())), PushAction::Receive));
    let (first_id, frames) = sent(session.on_event(PushEvent::Received(ack())));
    assert_eq!(first_id, 26);
    assert_eq!(
        frames,
        vec![Message::Metadata {
            operation: MetadataOperation::SetDirectory,
            path: Vec::new(),
            target: Vec::new(),
            mode: 0o750,
            mtime_ns: 42,
        }]
    );
    let (first_id, frames) = sent(session.on_event(PushEvent::Received(ack())));
    assert_eq!(first_id, 27);
    assert_eq!(
        frames,
        vec![Message::Stats { files: 4, bytes: 5 + 7 + 200 + 2 * 1024 * 1024, skipped: 2, warnings: 1, failed: 1 }]
    );
    assert!(matches!(session.on_event(PushEvent::Received(ack())), PushAction::Receive));
    match session.on_event(PushEvent::Received(ack())) {
        PushAction::Finish(report) => {
            assert_eq!(report.deleted_entries, 2);
            assert_eq!(report.failed_entries, 1);
            assert_eq!(report.warnings, 1);
            assert_eq!(report.metadata_repaired, 2);
        },
        _ => panic!("expected the push to finish"),
    }
    assert_eq!(session.stage(), PushPhase::Done);
}

#[test]
fn failed_files_leave_the_destination_undeleted() {
    let mut plan = empty_plan();
    plan.files = vec![sized("a", 3)];
    plan.extraneous = vec![entry("old.txt", EntryKind::File, 0o644, 1)];
    let mut session = PushSession::new(plan, limits(), false, true, 1);
    assert!(matches!(session.on_event(PushEvent::Start), PushAction::Load { .. }));
    let (_, frames) = sent(session.on_event(PushEvent::Loaded(vec![None])));
    assert_eq!(frames, vec![Message::Stats { files: 0, bytes: 0, skipped: 0, warnings: 0, failed: 1 }]);
}

#[test]
fn an_error_frame_while_draining_is_the_servers_error() {
    let mut plan = empty_plan();
    plan.directories = vec![dir("a"), dir("b")];
    let mut session = PushSession::new(plan, limits(), false, false, 1);
    sent(session.on_event(PushEvent::Start));
    let error = Message::Error { code: 3, related_id: 1, message: "no space".to_owned() };
    match session.on_event(PushEvent::Received(error)) {
        PushAction::Fail(ServerError::RemoteError { code, message }) => {
            assert_eq!(code, 3);
            assert_eq!(message, "no space");
        },
        _ => panic!("expected the server's error"),
    }
    assert_eq!(session.stage(), PushPhase::Failed);
}

#[test]
fn wrong_answers_are_refused_with_their_kind() {
    let mut plan = empty_plan();
    plan.directories = vec![dir("a")];
    let mut session = PushSession::new(plan, limits(), false, false, 1);
    sent(session.on_event(PushEvent::Start));
    let stats = Message::Stats { files: 0, bytes: 0, skipped: 0, warnings: 0, failed: 0 };
    match session.on_event(PushEvent::Received(stats)) {
        PushAction::Fail(ServerError::UnexpectedMessage(text)) => {
            assert_eq!(text, "expected Ack while draining pipelined writes, got Stats")
        },
        _ => panic!("expected a refusal"),
    }

    let mut plan = empty_plan();
    plan.root = Some((0o755, 1));
    let mut session = PushSession::new(plan, limits(), false, false, 1);
    sent(session.on_event(PushEvent::Start));
    let stats = Message::Stats { files: 0, bytes: 0, skipped: 0, warnings: 0, failed: 0 };
    match session.on_event(PushEvent::Received(stats)) {
        PushAction::Fail(ServerError::UnexpectedMessage(text)) => {
            assert_eq!(text, "expected Ack for root SetDirectory, got Stats")
        },
        _ => panic!("expected a refusal"),
    }

    let mut plan = empty_plan();
    plan.extraneous = vec![entry("old", EntryKind::File, 0, 0)];
    let mut session = PushSession::new(plan, limits(), false, true, 1);
    sent(session.on_event(PushEvent::Start));
    let other = Message::Error { code: 2, related_id: 1, message: "x".to_owned() };
    match session.on_event(PushEvent::Received(other)) {
        PushAction::Fail(ServerError::UnexpectedMessage(text)) => {
            assert_eq!(text, "expected Ack or delete warning, got Error")
        },
        _ => panic!("expected a refusal"),
    }

    let mut plan = empty_plan();
    plan.files = vec![sized("m", 500)];
    let mut session = PushSession::new(plan, limits(), false, false, 1);
    assert!(matches!(session.on_event(PushEvent::Start), PushAction::Read { index: 0 }));
    sent(session.on_event(PushEvent::Read(Some(b"x".to_vec()))));
    let stats = Message::Stats { files: 0, bytes: 0, skipped: 0, warnings: 0, failed: 0 };
    match session.on_event(PushEvent::Received(stats)) {
        PushAction::Fail(ServerError::UnexpectedMessage(text)) => assert_eq!(text, "expected Ack for FileBatch, got Stats"),
        _ => panic!("expected a refusal"),
    }
}

#[test]
fn a_small_batch_leaves_out_files_that_could_not_be_read() {
    let files = vec![
        entry("a", EntryKind::File, 0o644, 1),
        entry("b", EntryKind::File, 0o644, 1),
        entry("c", EntryKind::File, 0o644, 1),
    ];
    let loaded = vec![Some(b"xy".to_vec()), None, Some(b"z".to_vec())];
    let batch = small_batch_frames(&files, &[0, 1, 2], loaded, 5);
    assert_eq!(batch.sent_files, 2);
    assert_eq!(batch.failed, 1);
    assert_eq!(batch.frames.len(), 3);
    match &batch.frames[0] {
        Message::FileBatch { batch_id, entries } => {
            assert_eq!(*batch_id, 1);
            let names: Vec<&[u8]> = entries.iter().map(|e| e.path.as_slice()).collect();
            assert_eq!(names, vec![b"a".as_slice(), b"c".as_slice()]);
        },
        _ => panic!("expected the batch frame first"),
    }
    assert_eq!(
        batch.frames[1],
        Message::FileSegment { file_id: 5 << 16, offset: 0, digest: stable_read_digest(b"xy"), data: b"xy".to_vec() }
    );
    assert_eq!(
        batch.frames[2],
        Message::FileSegment { file_id: (5 << 16) | 1, offset: 0, digest: stable_read_digest(b"z"), data: b"z".to_vec() }
    );
    let empty = small_batch_frames(&files, &[0], vec![None], 9);
    assert!(empty.frames.is_empty());
    assert_eq!(empty.failed, 1);
}
