use xsync_core::browse::MutationKind;
use xsync_core::destination::{validate_unique_destination_path, SeenPaths};
use xsync_core::entries::{
    entry_record_from_file_entry, file_entry_from_entry_record, fs_path_error, mkdir_status,
    mutation_response, nanos_from_offset, negative_magnitude, publish_changed_response,
    publish_error_response, rename_status, IoFailureKind,
};
use xsync_core::error::ServerError;
use xsync_core::protocol::{EntryKind, EntryRecord, FsErrorCode, MutationStatus, PublishStatus, V2Message, V3Message};
use xsync_core::scan;
use xsync_core::wire_path::WirePath;

#[test]
fn entry_record_round_trips_invalid_utf8_path_bytes() {
    let record = EntryRecord {
        path: b"bad-\xff-name".to_vec(),
        kind: EntryKind::File,
        size: 3,
        mtime_ns: 0,
        mode: 0o644,
        fingerprint: [0; 32],
    };
    let entry = file_entry_from_entry_record(&record).unwrap();
    assert_eq!(entry.path.as_bytes(), b"bad-\xff-name");
    assert_eq!(entry_record_from_file_entry(&entry).path, record.path);
}

#[test]
fn a_record_keeps_its_identity_kind_size_mode_and_time_through_an_entry() {
    let mut fingerprint = [0u8; 32];
    fingerprint[..8].copy_from_slice(&7u64.to_le_bytes());
    fingerprint[8..16].copy_from_slice(&0x0102_0304_0506_0708u64.to_le_bytes());
    let record = EntryRecord {
        path: b"dir/file".to_vec(),
        kind: EntryKind::Symlink,
        size: 42,
        mtime_ns: -1_500_000_000,
        mode: 0o755,
        fingerprint,
    };
    let entry = file_entry_from_entry_record(&record).unwrap();
    assert_eq!(entry.kind, scan::EntryKind::Symlink);
    assert_eq!(entry.fingerprint.identity.device, 7);
    assert_eq!(entry.fingerprint.identity.file, 0x0102_0304_0506_0708);
    assert_eq!(entry.fingerprint.ctime, None);
    let back = entry_record_from_file_entry(&entry);
    assert_eq!(back, record);
}

#[test]
fn an_unsafe_record_path_is_refused() {
    let record = EntryRecord {
        path: b"../escape".to_vec(),
        kind: EntryKind::File,
        size: 0,
        mtime_ns: 0,
        mode: 0,
        fingerprint: [0; 32],
    };
    let error = file_entry_from_entry_record(&record).unwrap_err();
    assert_eq!(error, ServerError::InvalidPath("unsafe wire path '../escape'".to_owned()));
}

#[test]
fn timestamps_convert_both_ways_and_saturate() {
    assert_eq!(nanos_from_offset(Ok(1234)), 1234);
    assert_eq!(nanos_from_offset(Err(2_000_000_000)), -2_000_000_000);
    assert_eq!(negative_magnitude(-7), 7);
    assert_eq!(negative_magnitude(i64::MIN), 1u64 << 63);
    assert_eq!(nanos_from_offset(Ok(u128::MAX)), i64::MAX);
    assert_eq!(nanos_from_offset(Err(u128::MAX)), -i64::MAX);
    assert_eq!(nanos_from_offset(Err(9)), -9);
}

#[test]
fn an_entry_carries_its_time_to_the_record_saturated_like_the_clock() {
    let record = EntryRecord {
        path: b"old".to_vec(),
        kind: EntryKind::File,
        size: 1,
        mtime_ns: i64::MIN,
        mode: 0o600,
        fingerprint: [0; 32],
    };
    let entry = file_entry_from_entry_record(&record).unwrap();
    assert_eq!(entry.mtime, i64::MIN);
    assert_eq!(entry.fingerprint.mtime, i64::MIN);
    assert_eq!(entry_record_from_file_entry(&entry).mtime_ns, -i64::MAX);
}

#[test]
fn filesystem_failures_map_onto_mutation_statuses() {
    assert_eq!(rename_status(IoFailureKind::CrossesDevices), MutationStatus::CrossDevice);
    assert_eq!(rename_status(IoFailureKind::NotFound), MutationStatus::ParentMissing);
    assert_eq!(mkdir_status(IoFailureKind::CrossesDevices), MutationStatus::Error);
    assert_eq!(mkdir_status(IoFailureKind::AlreadyExists), MutationStatus::AlreadyExists);
}

#[test]
fn mutation_replies_carry_the_status_and_the_error_text() {
    let reply = mutation_response(
        9,
        Err((MutationStatus::PermissionDenied, "denied".to_owned())),
        MutationKind::SetMtime,
    );
    assert_eq!(
        reply,
        V2Message::SetMtimeResponse {
            related_id: 9,
            status: MutationStatus::PermissionDenied,
            error: b"denied".to_vec(),
        }
    );
    let ok = mutation_response(3, Ok(()), MutationKind::Rename);
    assert_eq!(
        ok,
        V2Message::RenameResponse { related_id: 3, status: MutationStatus::Done, error: Vec::new() }
    );
}

#[test]
fn publish_replies_report_the_changed_base_or_the_error() {
    let changed = publish_changed_response(4, Some((10, 20, 30, 40)));
    assert_eq!(
        changed,
        V2Message::PublishResponse {
            related_id: 4,
            status: PublishStatus::Changed,
            current_present: true,
            size: 10,
            mtime_ns: 20,
            device: 30,
            file: 40,
            error: b"remote file changed underneath the editor".to_vec(),
        }
    );
    let gone = publish_error_response(5, "boom");
    assert_eq!(
        gone,
        V2Message::PublishResponse {
            related_id: 5,
            status: PublishStatus::Error,
            current_present: false,
            size: 0,
            mtime_ns: 0,
            device: 0,
            file: 0,
            error: b"boom".to_vec(),
        }
    );
}

#[test]
fn a_refused_path_is_an_access_error_only_when_it_escapes() {
    let escape = fs_path_error(1, &ServerError::SymlinkEscape("a/b".to_owned()));
    assert!(matches!(escape, V3Message::Error { code: FsErrorCode::Access, .. }));
    let invalid = fs_path_error(1, &ServerError::InvalidPath("x".to_owned()));
    match invalid {
        V3Message::Error { code, message, .. } => {
            assert_eq!(code, FsErrorCode::Invalid);
            assert_eq!(message, b"invalid destination path 'x'".to_vec());
        }
        other => panic!("unexpected {other:?}"),
    }
}

#[test]
fn seen_destinations_are_claimed_once() {
    let mut seen = SeenPaths::new();
    let path = WirePath::from_wire(b"dir/file".to_vec()).unwrap();
    assert!(validate_unique_destination_path(&path, &[false, false], &mut seen).is_ok());
    let again = validate_unique_destination_path(&path, &[false, false], &mut seen).unwrap_err();
    assert_eq!(again, ServerError::DuplicatePath("dir/file".to_owned()));
    let other = WirePath::from_wire(b"dir/other".to_vec()).unwrap();
    assert!(validate_unique_destination_path(&other, &[false, false], &mut seen).is_ok());
}

#[test]
fn symlinked_ancestors_and_the_root_are_refused() {
    let mut seen = SeenPaths::new();
    let through_link = WirePath::from_wire(b"link/file".to_vec()).unwrap();
    let error = validate_unique_destination_path(&through_link, &[true, false], &mut seen).unwrap_err();
    assert_eq!(error, ServerError::SymlinkEscape("link/file".to_owned()));
    // The last component may itself be a link: the mutation replaces it.
    let last = WirePath::from_wire(b"dir/link".to_vec()).unwrap();
    assert!(validate_unique_destination_path(&last, &[false, true], &mut seen).is_ok());
    let root = WirePath::from_wire(Vec::new()).unwrap();
    assert_eq!(
        validate_unique_destination_path(&root, &[], &mut seen).unwrap_err(),
        ServerError::InvalidPath("empty path".to_owned())
    );
    assert!(WirePath::from_wire(b"../escape".to_vec()).is_err());
    // A refused path is not claimed.
    assert!(validate_unique_destination_path(&through_link, &[false, false], &mut seen).is_ok());
}
