use std::path::PathBuf;

use xsync_core::batching::plan_small_file_batches;
use xsync_core::delete_walk::{start_delete, DeleteStart, EINVAL};
use xsync_core::protocol::{DeleteFailure, DeleteStatus};
use xsync_core::browse_server::{
    browse_entry, fetch_failure_reply, last_component, list_failure_reply, stat_failure_reply,
    BrowseDispatcher, BrowseRoute, ListPager, PageStep,
};
use xsync_core::fs_server::MetadataFacts;
use xsync_core::protocol::BrowseEntry;
use xsync_core::error::ServerError;
use xsync_core::fs_session::{FsAction, FsDispatcher};
use xsync_core::protocol::{
    Access, FsErrorCode, StatStatus, V2Message, V3Message, CAP_BROWSE_META, CAP_FS_V3,
    CAP_UNIX_MODES, OPEN_READ, OPEN_WRITE,
};
use xsync_core::remote_output::{is_json_object, is_missing_xsync_stderr};
use xsync_core::scan::{EntryKind, FileEntry, FileIdentity, SourceFingerprint};
use xsync_core::server::{Server, SessionKind};
use xsync_core::protocol::{Message, CAP_BROWSE_V2, CAP_VERSION_NEGOTIATION};
use xsync_core::wire_path::WirePath;

fn replies(actions: &[FsAction]) -> Vec<&V3Message> {
    actions
        .iter()
        .filter_map(|action| match action {
            FsAction::Reply(message) => Some(message),
            _ => None,
        })
        .collect()
}

fn error_code(message: &V3Message) -> FsErrorCode {
    match message {
        V3Message::Error { code, .. } => *code,
        other => panic!("expected Error, got {other:?}"),
    }
}

fn mounted(writable: bool) -> FsDispatcher {
    let mut session = FsDispatcher::new(0x1, 4);
    session.on_frame(1, V3Message::Features { features: 0x3 }).unwrap();
    let actions = session
        .on_frame(2, V3Message::Mount { export: Vec::new(), access: Access::ReadWrite })
        .unwrap();
    assert!(matches!(actions[0], FsAction::Mount { related_id: 2, .. }));
    session.record_mount(writable, b"export is read-only".to_vec());
    session
}

#[test]
fn fs_session_negotiates_features_then_serves_control_verbs() {
    let mut session = FsDispatcher::new(0x1, 4);
    let actions = session.on_frame(2, V3Message::Features { features: 0x3 }).unwrap();
    assert_eq!(replies(&actions), vec![&V3Message::FeaturesAck { features: 0x1 }]);
    let actions = session.on_frame(3, V3Message::Keepalive { nonce: 7 }).unwrap();
    assert_eq!(replies(&actions), vec![&V3Message::KeepaliveAck { nonce: 7 }]);
}

#[test]
fn fs_session_requires_exactly_one_mount_before_any_verb() {
    let mut session = FsDispatcher::new(0, 4);
    session.on_frame(1, V3Message::Features { features: 0 }).unwrap();
    let early = session.on_frame(2, V3Message::Close { handle: 1 }).unwrap();
    assert_eq!(error_code(replies(&early)[0]), FsErrorCode::Invalid);
    session.on_frame(3, V3Message::Mount { export: Vec::new(), access: Access::ReadOnly }).unwrap();
    session.record_mount(false, b"mounted read-only at the client's request".to_vec());
    let again = session
        .on_frame(4, V3Message::Mount { export: Vec::new(), access: Access::ReadOnly })
        .unwrap();
    assert_eq!(error_code(replies(&again)[0]), FsErrorCode::Invalid);
    let now = session.on_frame(5, V3Message::Close { handle: 1 }).unwrap();
    assert!(matches!(now[0], FsAction::Run(_)));
}

#[test]
fn fs_read_only_mount_refuses_writes_before_the_filesystem() {
    let mut session = mounted(false);
    let write = session
        .on_frame(3, V3Message::Write { handle: 1, offset: 0, digest: None, data: b"x".to_vec() })
        .unwrap();
    match replies(&write)[0] {
        V3Message::Error { related_id, code, message, .. } => {
            assert_eq!(*related_id, 3);
            assert_eq!(*code, FsErrorCode::ReadOnly);
            assert_eq!(message, b"export is read-only");
        }
        other => panic!("expected Error, got {other:?}"),
    }
    let open_for_write = session
        .on_frame(4, V3Message::Open { path: b"f".to_vec(), flags: OPEN_WRITE, mode: 0, attr_mask: 0 })
        .unwrap();
    assert_eq!(error_code(replies(&open_for_write)[0]), FsErrorCode::ReadOnly);
    let read = session
        .on_frame(5, V3Message::Open { path: b"f".to_vec(), flags: OPEN_READ, mode: 0, attr_mask: 0 })
        .unwrap();
    assert!(matches!(read[0], FsAction::Run(_)));
}

#[test]
fn fs_session_refuses_requests_past_the_in_flight_cap() {
    let mut session = mounted(true);
    let mut running = 0;
    for id in 10..14 {
        let actions = session.on_frame(id, V3Message::Flush { handle: id }).unwrap();
        assert!(matches!(actions[0], FsAction::Run(_)));
        running += 1;
    }
    assert_eq!(running, 4);
    let refused = session.on_frame(20, V3Message::Flush { handle: 99 }).unwrap();
    assert_eq!(error_code(replies(&refused)[0]), FsErrorCode::Limit);
    session.on_completed(10, Some(xsync_core::fs_order::HandleKey { handle: 10, exclusive: true })).unwrap();
    let accepted = session.on_frame(21, V3Message::Flush { handle: 99 }).unwrap();
    assert!(matches!(accepted[0], FsAction::Run(_)));
}

#[test]
fn fs_session_answers_keepalive_without_waiting_for_the_pool() {
    let mut session = mounted(true);
    session.on_frame(3, V3Message::Flush { handle: 1 }).unwrap();
    let queued = session.on_frame(4, V3Message::Flush { handle: 1 }).unwrap();
    assert!(queued.is_empty(), "a second exclusive request waits behind the first");
    let ack = session.on_frame(5, V3Message::Keepalive { nonce: 9 }).unwrap();
    assert_eq!(replies(&ack), vec![&V3Message::KeepaliveAck { nonce: 9 }]);
}

#[test]
fn fs_session_cancel_removes_queued_work_before_it_runs() {
    let mut session = mounted(true);
    session.on_frame(3, V3Message::Flush { handle: 1 }).unwrap();
    session.on_frame(4, V3Message::Flush { handle: 1 }).unwrap();
    let cancel = session.on_frame(5, V3Message::Cancel { related_id: 4 }).unwrap();
    match replies(&cancel)[0] {
        V3Message::Error { related_id, code, message, .. } => {
            assert_eq!(*related_id, 4);
            assert_eq!(*code, FsErrorCode::Cancelled);
            assert_eq!(message, b"cancelled before execution");
        }
        other => panic!("expected Error, got {other:?}"),
    }
    let running = session.on_frame(6, V3Message::Cancel { related_id: 3 }).unwrap();
    assert!(matches!(running[0], FsAction::Flag(3)));
    let done = session.on_completed(3, Some(xsync_core::fs_order::HandleKey { handle: 1, exclusive: true })).unwrap();
    assert!(done.is_empty(), "the cancelled request must never start");
    let late = session.on_frame(7, V3Message::Cancel { related_id: 3 }).unwrap();
    match replies(&late)[0] {
        V3Message::Error { message, .. } => assert_eq!(message, b"request already complete"),
        other => panic!("expected Error, got {other:?}"),
    }
}

#[test]
fn fs_session_is_fail_closed_on_frame_order_and_grammar() {
    let mut session = FsDispatcher::new(0, 4);
    let error = session.on_frame(1, V3Message::Keepalive { nonce: 1 }).unwrap_err();
    assert_eq!(
        error,
        ServerError::UnexpectedMessage("v3 session expects Features first, got Keepalive".to_owned())
    );
    let mut session = FsDispatcher::new(0, 4);
    session.on_frame(1, V3Message::Features { features: 0 }).unwrap();
    assert_eq!(
        session.on_frame(1, V3Message::Keepalive { nonce: 1 }).unwrap_err(),
        ServerError::UnexpectedMessage("duplicate v3 session message ID 1".to_owned())
    );
    assert_eq!(
        session.on_frame(2, V3Message::Features { features: 0 }).unwrap_err(),
        ServerError::UnexpectedMessage("v3 features exchanged twice".to_owned())
    );
    session.on_eof();
    assert!(session.finished());
}

#[test]
fn browse_session_rejects_duplicate_ids_and_response_frames() {
    let mut session = BrowseDispatcher::new(CAP_BROWSE_META);
    assert!(matches!(
        session.route(1, V2Message::Keepalive { nonce: 3 }).unwrap(),
        BrowseRoute::Reply(V2Message::KeepaliveAck { nonce: 3 })
    ));
    assert_eq!(
        session.route(1, V2Message::Keepalive { nonce: 3 }).unwrap_err(),
        ServerError::UnexpectedMessage("duplicate v2 session message ID 1".to_owned())
    );
    assert_eq!(
        session.route(2, V2Message::KeepaliveAck { nonce: 3 }).unwrap_err(),
        ServerError::UnexpectedMessage("v2 session received a response message".to_owned())
    );
}

#[test]
fn browse_meta_messages_are_rejected_without_the_capability_bit() {
    let mut session = BrowseDispatcher::new(0);
    assert_eq!(
        session.route(1, V2Message::ReadLinkRequest { path: b"l".to_vec() }).unwrap_err(),
        ServerError::UnexpectedMessage(
            "v2 session received a browse-meta message without CAP_BROWSE_META".to_owned()
        )
    );
    let mut session = BrowseDispatcher::new(CAP_BROWSE_META);
    assert!(matches!(
        session.route(1, V2Message::ReadLinkRequest { path: b"l".to_vec() }).unwrap(),
        BrowseRoute::Serve { related_id: 1, .. }
    ));
}

#[test]
fn browse_session_cancels_a_non_final_list_once() {
    let mut session = BrowseDispatcher::new(0);
    session.route(4, V2Message::ListRequest { path: Vec::new(), page_token: 0, page_size: 1 }).unwrap();
    session.after_reply(&V2Message::ListPage { related_id: 4, page_token: 1, final_page: false, entries: Vec::new() });
    let first = session.route(5, V2Message::CancelRequest { related_id: 4 }).unwrap();
    assert!(matches!(
        first,
        BrowseRoute::Reply(V2Message::BrowseError { related_id: 4, code: 1, ref message }) if message == b"request cancelled"
    ));
    let second = session.route(6, V2Message::CancelRequest { related_id: 4 }).unwrap();
    assert!(matches!(
        second,
        BrowseRoute::Reply(V2Message::BrowseError { related_id: 4, code: 1, ref message }) if message == b"request already complete"
    ));
}

#[test]
fn failures_become_replies_with_the_documented_codes() {
    let refused = ServerError::InvalidPath("x".to_owned());
    let broken = ServerError::Io("gone".to_owned());
    assert!(matches!(list_failure_reply(1, &refused), V2Message::BrowseError { code: 2, .. }));
    assert!(matches!(list_failure_reply(1, &broken), V2Message::BrowseError { code: 3, .. }));
    assert!(matches!(fetch_failure_reply(1, &broken), V2Message::BrowseError { code: 4, .. }));
    match stat_failure_reply(1, &broken) {
        V2Message::StatResponse { status, error, .. } => {
            assert_eq!(status, StatStatus::Error);
            assert_eq!(error, b"I/O error: gone".to_vec());
        }
        other => panic!("unexpected {other:?}"),
    }
}

fn sized(size: u64) -> FileEntry {
    FileEntry {
        path: WirePath::from_wire(b"f".to_vec()).unwrap(),
        kind: EntryKind::File,
        size,
        mtime: 0,
        mode: 0o644,
        fingerprint: SourceFingerprint {
            identity: FileIdentity { device: 0, file: 0 },
            kind: EntryKind::File,
            size,
            mtime: 0,
            ctime: None,
        },
    }
}

#[test]
fn small_files_are_batched_by_count_and_bytes_from_their_sizes() {
    let files: Vec<FileEntry> = [10, 10, 10, 50, 1, 1, 1].into_iter().map(sized).collect();
    assert_eq!(plan_small_file_batches(&files, 3, 40), vec![0..3, 3..4, 4..7]);
    assert_eq!(plan_small_file_batches(&files, 2, 1000), vec![0..2, 2..4, 4..6, 6..7]);
    assert!(plan_small_file_batches(&[], 2, 10).is_empty());
    assert_eq!(plan_small_file_batches(&files[..1], 0, 0), vec![0..1]);
}

#[test]
fn remote_stderr_is_classified() {
    assert!(is_json_object("  {\"level\":\"info\"}  "));
    assert!(!is_json_object("plain text"));
    assert!(is_json_object("\u{3000}\t{\"level\":\"warn\"}\u{a0}\r\n"));
    assert!(!is_json_object("\u{200b}{}"), "a zero-width space is not white space");
    assert!(!is_json_object(" \t "));
    assert!(is_missing_xsync_stderr("bash: XS: command not found", Some(127)));
    assert!(is_missing_xsync_stderr("anything", Some(9009)));
    assert!(is_missing_xsync_stderr("sh: 1: xs: not found", None));
    assert!(!is_missing_xsync_stderr("permission denied", Some(1)));
}

#[test]
fn session_handshake_advertises_browse_meta_by_default() {
    let server = Server::new(PathBuf::from("/srv"), true);
    assert!(server.capabilities() & CAP_BROWSE_META != 0);
    assert!(server.capabilities() & CAP_FS_V3 != 0);
    assert!(server.capabilities() & CAP_UNIX_MODES != 0);
    let limited = Server::new_with_capabilities(PathBuf::from("/srv"), 0)
        .read_only(true)
        .with_fs_limits(2, 3)
        .with_fs_max_handles(5)
        .with_fs_features(0x4);
    assert_eq!(limited.capabilities(), 0);
    assert!(limited.fs_read_only());
    assert_eq!(limited.fs_limits(), (2, 3));
    assert_eq!(limited.fs_max_handles(), 5);
    assert_eq!(limited.fs_features(), 0x4);
}

#[test]
fn recursive_delete_visits_children_before_their_directory_and_reports_each_item() {

    let DeleteStart::Walk(mut walk) = start_delete(9, b"tree", &[false]) else {
        panic!("a plain path must be walked");
    };
    let top = walk.next().unwrap();
    assert_eq!(top.path.as_bytes(), b"tree");
    assert!(!top.after_children);
    walk.expand(top.path, &vec![b"a".to_vec(), b"b".to_vec(), b"..".to_vec()]);
    let first = walk.next().unwrap();
    assert_eq!(first.path.as_bytes(), b"tree/a");
    let progress = walk.removed(&first.path);
    assert_eq!(
        progress,
        V2Message::DeleteProgress { related_id: 9, path: b"tree/a".to_vec(), removed: true, error: Vec::new() }
    );
    let second = walk.next().unwrap();
    assert_eq!(second.path.as_bytes(), b"tree/b");
    walk.failed(&second.path, 13, "permission denied");
    let last = walk.next().unwrap();
    assert_eq!(last.path.as_bytes(), b"tree");
    assert!(last.after_children);
    walk.removed(&last.path);
    assert!(walk.next().is_none());
    match walk.finish() {
        V2Message::DeleteResponse { related_id, status, removed_count, failures, irreversible } => {
            assert_eq!(related_id, 9);
            assert_eq!(status, DeleteStatus::Partial);
            assert_eq!(removed_count, 2);
            assert!(irreversible);
            assert_eq!(
                failures,
                vec![
                    DeleteFailure { path: b"tree".to_vec(), errno: EINVAL },
                    DeleteFailure { path: b"tree/b".to_vec(), errno: 13 },
                ]
            );
        }
        other => panic!("unexpected {other:?}"),
    }
}

#[test]
fn a_refused_or_cancelled_delete_says_so() {

    for (path, links) in [(&b""[..], &[][..]), (&b"../x"[..], &[][..]), (&b"link/x"[..], &[true, false][..])] {
        match start_delete(3, path, links) {
            DeleteStart::Refused(V2Message::DeleteResponse { status, removed_count, failures, .. }) => {
                assert_eq!(status, DeleteStatus::Partial);
                assert_eq!(removed_count, 0);
                assert_eq!(failures[0].path, path.to_vec());
            }
            _ => panic!("{path:?} must be refused"),
        }
    }
    let DeleteStart::Walk(mut walk) = start_delete(4, b"x", &[false]) else { panic!() };
    assert!(matches!(walk.cancel(), V2Message::BrowseError { related_id: 4, code: 1, .. }));
    assert!(walk.next().is_none());
    assert!(matches!(walk.finish(), V2Message::DeleteResponse { status: DeleteStatus::Cancelled, .. }));
    let DeleteStart::Walk(mut clean) = start_delete(5, b"x", &[false]) else { panic!() };
    let item = clean.next().unwrap();
    clean.removed(&item.path);
    assert!(matches!(clean.finish(), V2Message::DeleteResponse { status: DeleteStatus::Complete, removed_count: 1, .. }));
}

fn client_handshake(capabilities: u32) -> xsync_core::protocol::Frame {
    xsync_core::protocol::Frame {
        message_id: 1,
        message: xsync_core::protocol::Message::Handshake {
            role: xsync_core::protocol::Role::Session,
            capabilities,
            max_payload: xsync_core::protocol::MAX_COMPLETE_PAYLOAD,
            max_segment: xsync_core::protocol::MAX_DATA_SEGMENT,
            window: xsync_core::protocol::DEFAULT_UNACKNOWLEDGED_WINDOW,
            job_id: [3; 16],
            compression: xsync_core::protocol::CompressionMode::Uncompressed,
            compression_level: 3,
        },
    }
}

#[test]
fn version_selection_covers_every_client_server_pair() {
    let fs_v3_client = CAP_BROWSE_V2 | CAP_VERSION_NEGOTIATION | CAP_FS_V3;

    // v3 client, v2 server: the server never advertises CAP_FS_V3, both
    // select v2, and browse still works.
    let mut server = Server::new_with_capabilities(PathBuf::from("/srv"), CAP_VERSION_NEGOTIATION | CAP_BROWSE_META);
    let answer = server.answer_handshake(&client_handshake(fs_v3_client)).unwrap();
    assert_eq!(answer.kind, SessionKind::Browse);
    match answer.handshake.1 {
        Message::Handshake { capabilities, .. } => {
            assert_eq!(capabilities & CAP_FS_V3, 0);
            assert!(capabilities & CAP_BROWSE_V2 != 0);
        }
        other => panic!("expected handshake, got {other:?}"),
    }
    assert!(matches!(answer.ack.1, Message::Ack { acknowledged_id: 1, acknowledged_type: 1 }));

    // v2 client, v3 server: v2 is selected.
    let mut server = Server::new(PathBuf::from("/srv"), true);
    let answer = server
        .answer_handshake(&client_handshake(CAP_BROWSE_V2 | CAP_VERSION_NEGOTIATION))
        .unwrap();
    assert_eq!(answer.kind, SessionKind::Browse);

    // v3 on both ends commits to the filesystem grammar.
    let answer = server.answer_handshake(&client_handshake(fs_v3_client)).unwrap();
    assert_eq!(answer.kind, SessionKind::Filesystem);

    // A session peer with neither browse nor fs bits cannot be served.
    let error = server.answer_handshake(&client_handshake(CAP_VERSION_NEGOTIATION)).unwrap_err();
    assert!(error.to_string().contains("v2 or v3"), "{error:?}");
}

fn listed(name: &str) -> BrowseEntry {
    BrowseEntry {
        name: name.as_bytes().to_vec(),
        kind: 1,
        size: 1,
        mtime_ns: 0,
        mode: 0o644,
        symlink_target: Vec::new(),
    }
}

fn page(step: PageStep) -> (u64, bool, Vec<Vec<u8>>) {
    match step {
        PageStep::Page(V2Message::ListPage { related_id, page_token, final_page, entries }) => {
            assert_eq!(related_id, 7);
            (page_token, final_page, entries.into_iter().map(|e| e.name).collect())
        }
        other => panic!("expected a page, got {other:?}"),
    }
}

#[test]
fn listing_pages_skip_the_token_and_count_unreadable_items() {
    let mut pager = ListPager::new(7, 1, 2).unwrap();
    assert!(matches!(pager.on_item(Some(Some(listed("a")))), PageStep::More));
    assert!(matches!(pager.on_item(Some(None)), PageStep::More));
    assert!(matches!(pager.on_item(Some(Some(listed("b")))), PageStep::More));
    assert!(matches!(pager.on_item(Some(Some(listed("c")))), PageStep::More));
    let (token, last, names) = page(pager.on_item(Some(Some(listed("d")))));
    assert_eq!((token, last), (4, false));
    assert_eq!(names, vec![b"b".to_vec(), b"c".to_vec()]);

    let mut pager = ListPager::new(7, 4, 2).unwrap();
    for name in ["a", "b", "c", "d"] {
        assert!(matches!(pager.on_item(Some(Some(listed(name)))), PageStep::More));
    }
    assert!(matches!(pager.on_item(Some(Some(listed("e")))), PageStep::More));
    let (token, last, names) = page(pager.on_item(None));
    assert_eq!((token, last), (0, true));
    assert_eq!(names, vec![b"e".to_vec()]);

    let mut pager = ListPager::new(7, 9, 2).unwrap();
    assert!(matches!(pager.on_item(Some(Some(listed("a")))), PageStep::More));
    let (token, last, names) = page(pager.on_item(None));
    assert_eq!((token, last, names.len()), (0, true, 0));

    // A page of no entries only looks at what follows the token.
    let mut pager = ListPager::new(7, 0, 0).unwrap();
    let (token, last, _) = page(pager.on_item(Some(Some(listed("a")))));
    assert_eq!((token, last), (0, false));
}

#[test]
fn stat_names_and_listing_entries_come_from_the_path_and_the_stat() {
    assert_eq!(last_component(b"dir/sub/file"), b"file".to_vec());
    assert_eq!(last_component(b"file"), b"file".to_vec());
    assert_eq!(last_component(b"dir/"), Vec::<u8>::new());
    let facts = MetadataFacts { kind: 3, mode: 0o777, size: 4, mtime_ns: None, atime_ns: None, btime_ns: None, unix: None };
    let entry = browse_entry(b"link".to_vec(), &facts, Some(b"target".to_vec()));
    assert_eq!(entry.kind, 3);
    assert_eq!(entry.mtime_ns, 0);
    assert_eq!(entry.symlink_target, b"target".to_vec());
    let file = browse_entry(b"f".to_vec(), &MetadataFacts { kind: 1, mtime_ns: Some(9), ..facts }, Some(b"x".to_vec()));
    assert_eq!(file.symlink_target, Vec::<u8>::new());
    assert_eq!(file.mtime_ns, 9);
}

#[test]
fn browse_session_handles_multiple_requests_until_eof() {
    let capabilities = CAP_BROWSE_V2 | CAP_VERSION_NEGOTIATION;
    let mut server = Server::new(PathBuf::from("/srv"), true);
    let answer = server.answer_handshake(&client_handshake(capabilities)).unwrap();
    assert!(matches!(
        answer.handshake.1,
        Message::Handshake { role: xsync_core::protocol::Role::Session, capabilities, .. }
            if capabilities & CAP_BROWSE_V2 != 0
    ));
    assert!(matches!(answer.ack.1, Message::Ack { .. }));
    let mut session = BrowseDispatcher::new(server.capabilities());

    let first = match session.route(2, V2Message::Keepalive { nonce: 7 }).unwrap() {
        BrowseRoute::Reply(reply) => (server.next_id(), reply),
        other => panic!("expected a reply, got {other:?}"),
    };
    assert_eq!(first, (1002, V2Message::KeepaliveAck { nonce: 7 }));

    let request = V2Message::ListRequest { path: Vec::new(), page_token: 0, page_size: 10 };
    let (related_id, page_token, page_size) = match session.route(3, request).unwrap() {
        BrowseRoute::Serve {
            related_id,
            request: V2Message::ListRequest { page_token, page_size, .. },
        } => (related_id, page_token, page_size),
        other => panic!("expected a listing to serve, got {other:?}"),
    };
    // The root is empty: the directory ends at once.
    let mut pager = ListPager::new(related_id, page_token, page_size).unwrap();
    let reply = match pager.on_item(None) {
        PageStep::Page(reply) => reply,
        other => panic!("expected a page, got {other:?}"),
    };
    session.after_reply(&reply);
    let second = (server.next_id(), reply);
    assert_eq!(
        second,
        (
            1003,
            V2Message::ListPage { related_id: 3, page_token: 0, final_page: true, entries: Vec::new() }
        )
    );
}

#[test]
fn delete_walk_visits_listed_entries_in_order_before_their_directory() {
    let mut walk = match start_delete(5, b"dir", &[false]) {
        DeleteStart::Walk(walk) => walk,
        DeleteStart::Refused(message) => panic!("refused: {message:?}"),
    };
    let first = walk.next().unwrap();
    assert_eq!((first.path.as_bytes(), first.after_children), (b"dir".as_slice(), false));
    walk.expand(first.path, &vec![b"a".to_vec(), b"..".to_vec(), b"b".to_vec()]);
    let mut order = Vec::new();
    while let Some(item) = walk.next() {
        order.push((item.path.as_bytes().to_vec(), item.after_children));
    }
    assert_eq!(
        order,
        vec![(b"dir/a".to_vec(), false), (b"dir/b".to_vec(), false), (b"dir".to_vec(), true)]
    );
    match walk.finish() {
        V2Message::DeleteResponse { status, failures, .. } => {
            assert_eq!(status, DeleteStatus::Partial);
            assert_eq!(failures, vec![DeleteFailure { path: b"dir".to_vec(), errno: EINVAL }]);
        }
        other => panic!("expected the final answer, got {other:?}"),
    }
}

#[test]
fn fs_session_counts_completions_against_accepted_requests() {
    let mut session = mounted(true);
    assert_eq!(
        session.on_completed(9, None).unwrap_err(),
        ServerError::UnexpectedMessage("v3 completion with no request in flight".to_owned())
    );
    session.on_frame(3, V3Message::Flush { handle: 1 }).unwrap();
    session.on_eof();
    assert!(!session.finished(), "request 3 is still unanswered");
    let started = session
        .on_completed(3, Some(xsync_core::fs_order::HandleKey { handle: 1, exclusive: true }))
        .unwrap();
    assert!(started.is_empty());
    assert!(session.finished());
    session.on_frame(4, V3Message::Flush { handle: 2 }).unwrap();
    assert!(!session.finished());
    session
        .on_completed(4, Some(xsync_core::fs_order::HandleKey { handle: 2, exclusive: true }))
        .unwrap();
    assert!(session.finished());
}
