use xsync_core::fs_server::{
    check_export_name, check_flush, check_read, check_write, dir_page, mount_access,
    write_barrier, DirPageRange, HandleInfo, HandleTable, MountAccess, WriteProbe,
    DEFAULT_FS_MAX_TRANSFER,
};
use xsync_core::fs_server::{
    attrs_from_facts, change_cookie, mount_info, PathSemantics, needs_link_target, MetadataFacts, UnixStat, check_directory_target, check_export_root, close_reply, plan_open, Existing,
    ExportRoot, OpenPlan,
};
use xsync_core::protocol::{Access, FsErrorCode, V3Message, ATTR_ALLOCATED_SIZE, ATTR_ATIME, ATTR_BTIME, ATTR_CTIME, ATTR_IDENTITY, ATTR_NLINK, ATTR_OWNER, ATTR_RDEV, ATTR_SYMLINK_TARGET, SUPPORTS_CASE_INSENSITIVE, SUPPORTS_NORMALIZATION_INSENSITIVE, SUPPORTS_SYMLINKS, OPEN_APPEND, OPEN_CREATE, OPEN_DIRECTORY, OPEN_EXCL, OPEN_NOFOLLOW, OPEN_READ, OPEN_TRUNC, OPEN_WRITE};

fn code(message: Option<V3Message>) -> Option<FsErrorCode> {
    match message {
        Some(V3Message::Error { code, .. }) => Some(code),
        Some(other) => panic!("unexpected {other:?}"),
        None => None,
    }
}

fn file(flags: u32) -> Option<HandleInfo> {
    Some(HandleInfo { flags, directory: false })
}

#[test]
fn the_handle_table_never_exceeds_its_limit_and_never_reuses_a_number() {
    let mut table = HandleTable::new(2);
    assert!(table.reserve());
    let first = table.commit(HandleInfo { flags: OPEN_READ, directory: false }).unwrap();
    assert!(table.reserve());
    let second = table.commit(HandleInfo { flags: 0, directory: true }).unwrap();
    assert_ne!(first, 0);
    assert_ne!(first, second);
    assert!(!table.reserve(), "a third handle must not fit under a limit of two");
    assert!(table.close(first));
    assert!(!table.close(first), "closing twice is this request's error");
    assert_eq!(table.get(first), None);
    assert!(table.reserve());
    let third = table.commit(HandleInfo { flags: OPEN_WRITE, directory: false }).unwrap();
    assert!(third > second);
    assert_eq!(table.get(second), Some(HandleInfo { flags: 0, directory: true }));
}

#[test]
fn a_failed_open_gives_its_slot_back() {
    let mut table = HandleTable::new(1);
    assert!(table.reserve());
    table.release_reserved();
    assert!(table.reserve());
}

#[test]
fn fs_close_of_an_unknown_handle_is_this_requests_error() {
    let mut table = HandleTable::new(4);
    assert!(!table.close(99));
    assert!(table.reserve());
    assert!(table.commit(HandleInfo { flags: OPEN_READ, directory: false }).is_some());
}

#[test]
fn reads_need_an_open_readable_file_and_a_length_within_max_read() {
    assert_eq!(code(check_read(1, None, 10)), Some(FsErrorCode::BadHandle));
    assert_eq!(
        code(check_read(1, Some(HandleInfo { flags: OPEN_READ, directory: true }), 10)),
        Some(FsErrorCode::IsDirectory)
    );
    assert_eq!(code(check_read(1, file(OPEN_WRITE), 10)), Some(FsErrorCode::Access));
    assert_eq!(
        code(check_read(1, file(OPEN_READ), DEFAULT_FS_MAX_TRANSFER + 1)),
        Some(FsErrorCode::Invalid)
    );
    assert_eq!(code(check_read(1, file(OPEN_READ), DEFAULT_FS_MAX_TRANSFER)), None);
}

#[test]
fn writes_verify_their_digest_before_touching_the_file() {
    let data = b"payload";
    let good = *blake3::hash(data).as_bytes();
    assert_eq!(code(check_write(2, file(OPEN_WRITE), Some(good), data)), None);
    assert_eq!(code(check_write(2, file(OPEN_WRITE), None, data)), None);
    match check_write(2, file(OPEN_WRITE), Some([0; 32]), data) {
        Some(V3Message::Error { related_id, code, message, .. }) => {
            assert_eq!(related_id, 2);
            assert_eq!(code, FsErrorCode::Integrity);
            assert_eq!(message, b"write payload does not match its digest; nothing was written".to_vec());
        }
        other => panic!("unexpected {other:?}"),
    }
    assert_eq!(code(check_write(2, file(OPEN_READ), None, data)), Some(FsErrorCode::Access));
    assert_eq!(code(check_write(2, None, None, data)), Some(FsErrorCode::BadHandle));
    assert_eq!(
        code(check_write(2, Some(HandleInfo { flags: OPEN_WRITE, directory: true }), None, data)),
        Some(FsErrorCode::IsDirectory)
    );
    assert!(xsync_core::fs_server::appends(HandleInfo { flags: OPEN_WRITE | OPEN_APPEND, directory: false }));
    assert_eq!(code(check_flush(3, Some(HandleInfo { flags: 0, directory: true }))), Some(FsErrorCode::IsDirectory));
    assert_eq!(code(check_flush(3, file(0))), None);
}

#[test]
fn directory_pages_tile_the_listing_without_repeating_or_losing_entries() {
    let dir = Some(HandleInfo { flags: 0, directory: true });
    let mut cursor = 0u64;
    let mut seen = Vec::new();
    loop {
        let page = dir_page(1, dir, 7, cursor, 3).unwrap();
        assert_eq!(page.start as u64, cursor);
        seen.extend(page.start..page.end);
        cursor = page.end as u64;
        if page.final_page {
            break;
        }
    }
    assert_eq!(seen, (0..7).collect::<Vec<_>>());
    assert_eq!(
        dir_page(1, dir, 7, 7, 3).unwrap(),
        DirPageRange { start: 7, end: 7, final_page: true }
    );
}

#[test]
fn listing_refuses_a_file_handle_and_a_cursor_past_the_end() {
    let dir = Some(HandleInfo { flags: 0, directory: true });
    assert!(matches!(
        dir_page(1, file(OPEN_READ), 5, 0, 10),
        Err(V3Message::Error { code: FsErrorCode::NotDirectory, .. })
    ));
    assert!(matches!(
        dir_page(1, dir, 5, 6, 10),
        Err(V3Message::Error { code: FsErrorCode::Invalid, .. })
    ));
    assert!(matches!(
        dir_page(1, None, 5, 0, 10),
        Err(V3Message::Error { code: FsErrorCode::BadHandle, .. })
    ));
}

#[test]
fn a_mount_can_only_narrow_what_the_export_allows() {
    assert_eq!(
        mount_access(false, Access::ReadWrite, None),
        MountAccess { access: Access::ReadWrite, effective_writable: true, reason: Vec::new() }
    );
    assert_eq!(
        mount_access(false, Access::ReadOnly, None),
        MountAccess {
            access: Access::ReadWrite,
            effective_writable: false,
            reason: b"mounted read-only at the client's request".to_vec(),
        }
    );
    let barrier = write_barrier(true, WriteProbe::Writable);
    assert_eq!(barrier, Some("export is read-only"));
    assert_eq!(
        mount_access(true, Access::ReadWrite, barrier),
        MountAccess {
            access: Access::ReadOnly,
            effective_writable: false,
            reason: b"export is read-only".to_vec(),
        }
    );
    assert_eq!(write_barrier(false, WriteProbe::ReadOnlyFilesystem), Some("filesystem is mounted read-only"));
    assert_eq!(write_barrier(false, WriteProbe::PermissionDenied), Some("no write permission on the export root"));
    assert_eq!(write_barrier(false, WriteProbe::Failed), Some("the export root does not accept writes"));
    assert_eq!(write_barrier(false, WriteProbe::Writable), None);
}

#[test]
fn only_the_unnamed_export_can_be_mounted() {
    assert!(check_export_name(1, b"").is_none());
    assert_eq!(code(check_export_name(1, b"named")), Some(FsErrorCode::NoEntry));
}

#[test]
fn opening_follows_the_flags_and_refuses_links_and_directories() {
    let link = Some(Existing { symlink: true, directory: false });
    let dir = Some(Existing { symlink: false, directory: true });
    assert!(matches!(
        plan_open(1, OPEN_READ | OPEN_NOFOLLOW, link),
        Err(V3Message::Error { code: FsErrorCode::Loop, .. })
    ));
    assert!(plan_open(1, OPEN_READ, link).is_ok(), "without NOFOLLOW the open follows the link");
    assert!(matches!(
        plan_open(1, OPEN_READ, dir),
        Err(V3Message::Error { code: FsErrorCode::IsDirectory, .. })
    ));
    assert_eq!(plan_open(1, OPEN_DIRECTORY, dir).unwrap().directory, true);
    assert_eq!(
        plan_open(1, OPEN_WRITE | OPEN_APPEND | OPEN_CREATE | OPEN_EXCL | OPEN_TRUNC, None).unwrap(),
        OpenPlan {
            directory: false,
            read: false,
            write: false,
            append: true,
            truncate: true,
            create: false,
            create_new: true,
        }
    );
    assert_eq!(code(check_directory_target(1, false)), Some(FsErrorCode::NotDirectory));
    assert_eq!(code(check_directory_target(1, true)), None);
    assert_eq!(code(check_export_root(1, ExportRoot::NotDirectory)), Some(FsErrorCode::NotDirectory));
    assert!(matches!(
        check_export_root(1, ExportRoot::Missing(2)),
        Some(V3Message::Error { code: FsErrorCode::NoEntry, platform_errno: 2, .. })
    ));
    assert_eq!(close_reply(4, true), V3Message::Done { related_id: 4 });
    assert_eq!(code(Some(close_reply(4, false))), Some(FsErrorCode::BadHandle));
}

#[test]
fn change_cookie_digests_length_times_and_identity() {
    let mut input = Vec::new();
    input.extend_from_slice(&10u64.to_le_bytes());
    input.extend_from_slice(&(-5i64).to_le_bytes());
    input.extend_from_slice(&1u64.to_le_bytes());
    input.extend_from_slice(&2u64.to_le_bytes());
    input.extend_from_slice(&3i64.to_le_bytes());
    input.extend_from_slice(&4i64.to_le_bytes());
    let expected = blake3::hash(&input);
    let cookie = change_cookie(10, -5, Some((1, 2, 3, 4)));
    assert_eq!(&cookie[..], &expected.as_bytes()[..16]);
    // An edit that keeps the length still changes the cookie.
    assert_ne!(cookie, change_cookie(10, -4, Some((1, 2, 3, 4))));
    let short = blake3::hash(&input[..16]);
    assert_eq!(&change_cookie(10, -5, None)[..], &short.as_bytes()[..16]);
}

#[test]
fn attributes_carry_only_the_blocks_asked_for() {
    let unix = UnixStat {
        uid: 501,
        gid: 20,
        nlink: 1 << 40,
        ctime: i64::MAX / 2,
        ctime_nsec: 7,
        device: 1,
        inode: 2,
        rdev: 9,
        blocks: u64::MAX / 2,
    };
    let facts = MetadataFacts {
        kind: 3,
        mode: 0o777,
        size: 4,
        mtime_ns: None,
        atime_ns: Some(11),
        btime_ns: None,
        unix: Some(unix),
    };
    let everything = ATTR_ATIME | ATTR_BTIME | ATTR_SYMLINK_TARGET | ATTR_OWNER | ATTR_NLINK
        | ATTR_CTIME | ATTR_IDENTITY | ATTR_RDEV | ATTR_ALLOCATED_SIZE;
    assert!(needs_link_target(3, everything));
    assert!(!needs_link_target(1, everything));
    let attrs = attrs_from_facts(&facts, Some(b"target".to_vec()), everything);
    assert_eq!(attrs.kind, 3);
    assert_eq!(attrs.mtime_ns, 0);
    assert_eq!(attrs.change_cookie, change_cookie(4, 0, Some((1, 2, i64::MAX / 2, 7))));
    assert_eq!(attrs.atime_ns, Some(11));
    assert_eq!(attrs.btime_ns, None);
    assert_eq!(attrs.symlink_target, Some(b"target".to_vec()));
    assert_eq!(attrs.owner, Some((501, 20)));
    assert_eq!(attrs.nlink, None);
    assert_eq!(attrs.ctime_ns, Some(i64::MAX));
    assert_eq!(attrs.identity, Some((1, 2)));
    assert_eq!(attrs.rdev, None);
    assert_eq!(attrs.allocated_size, Some(u64::MAX));

    let plain = attrs_from_facts(&MetadataFacts { kind: 1, ..facts }, None, ATTR_CTIME);
    assert_eq!(plain.atime_ns, None);
    assert_eq!(plain.owner, None);
    assert_eq!(plain.symlink_target, None);
    let small = UnixStat { ctime: -2, ctime_nsec: 5, blocks: 3, ..unix };
    let attrs = attrs_from_facts(
        &MetadataFacts { kind: 4, unix: Some(small), ..facts },
        None,
        ATTR_CTIME | ATTR_RDEV | ATTR_ALLOCATED_SIZE,
    );
    assert_eq!(attrs.ctime_ns, Some(-1_999_999_995));
    assert_eq!(attrs.rdev, Some(9));
    assert_eq!(attrs.allocated_size, Some(1536));
}

const SENSITIVE: PathSemantics = PathSemantics { case_insensitive: false, normalization_insensitive: false };

fn fs_mount_facts(read_only_export: bool, export: &[u8], requested: Access, root: ExportRoot) -> V3Message {
    mount_info(1000, export, requested, read_only_export, root, WriteProbe::Writable, SENSITIVE, true, false)
}

#[test]
fn fs_mount_reports_a_writable_export() {
    let facts = fs_mount_facts(false, b"", Access::ReadWrite, ExportRoot::Directory);
    let V3Message::MountInfo {
        related_id,
        access,
        effective_writable,
        reason,
        max_read,
        max_write,
        max_name_len,
        max_path_len,
        case_sensitive,
        supports,
        ..
    } = facts
    else {
        panic!("expected MountInfo, got {facts:?}")
    };
    assert_eq!(related_id, 1000);
    assert_eq!(access, Access::ReadWrite);
    assert!(effective_writable, "a writable root must be writable");
    // A reason exists only when a write is refused.
    assert!(reason.is_empty());
    assert_eq!(max_read, DEFAULT_FS_MAX_TRANSFER);
    assert_eq!(max_write, DEFAULT_FS_MAX_TRANSFER);
    assert!(max_name_len > 0 && max_path_len > 0);
    assert!(case_sensitive);
    assert_eq!(supports & SUPPORTS_CASE_INSENSITIVE, 0);
    assert_ne!(supports & SUPPORTS_SYMLINKS, 0);
    let folding = PathSemantics { case_insensitive: true, normalization_insensitive: true };
    let V3Message::MountInfo { case_sensitive, supports, .. } =
        mount_info(1, b"", Access::ReadWrite, false, ExportRoot::Directory, WriteProbe::Writable, folding, false, true)
    else {
        panic!("expected MountInfo")
    };
    assert!(!case_sensitive);
    assert_eq!(supports, SUPPORTS_CASE_INSENSITIVE | SUPPORTS_NORMALIZATION_INSENSITIVE);
}

#[test]
fn fs_mount_reports_a_read_only_export_with_its_reason() {
    let facts = fs_mount_facts(true, b"", Access::ReadWrite, ExportRoot::Directory);
    let V3Message::MountInfo { access, effective_writable, reason, .. } = facts else {
        panic!("expected MountInfo, got {facts:?}")
    };
    assert_eq!(access, Access::ReadOnly);
    assert!(!effective_writable);
    assert_eq!(reason, b"export is read-only");
}

#[test]
fn fs_mount_lets_a_client_ask_for_less_than_the_export_allows() {
    // The export is writable; the client asked not to be able to write, so
    // the mount is read-only and says why.
    let facts = fs_mount_facts(false, b"", Access::ReadOnly, ExportRoot::Directory);
    let V3Message::MountInfo { access, effective_writable, reason, .. } = facts else {
        panic!("expected MountInfo, got {facts:?}")
    };
    // `access` is what the export grants; `effective_writable` is what this
    // session got.
    assert_eq!(access, Access::ReadWrite);
    assert!(!effective_writable);
    assert_eq!(reason, b"mounted read-only at the client's request");
}

#[test]
fn fs_mount_refuses_a_named_export_and_a_missing_root() {
    let named = fs_mount_facts(false, b"media", Access::ReadWrite, ExportRoot::Directory);
    assert!(matches!(named, V3Message::Error { code: FsErrorCode::NoEntry, .. }), "{named:?}");
    let missing = fs_mount_facts(false, b"", Access::ReadWrite, ExportRoot::Missing(2));
    assert!(matches!(missing, V3Message::Error { code: FsErrorCode::NoEntry, .. }), "{missing:?}");
}
