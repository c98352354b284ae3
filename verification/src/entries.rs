//! Scanned entries on the wire: conversion in both directions, the
//! timestamps they carry, and the replies a server builds from a filesystem
//! outcome.

use vstd::prelude::*;
use vstd::bytes::{spec_u64_from_le_bytes, spec_u64_to_le_bytes, u64_from_le_bytes, u64_to_le_bytes};
use crate::browse::MutationKind;
use crate::error::ServerError;
use crate::protocol;
use crate::protocol::{FsErrorCode, MutationStatus, PublishStatus, V2Message, V3Message};
use crate::scan::{EntryKind, FileEntry, FileIdentity, SourceFingerprint};
use crate::text::{copy_bytes, string_bytes, utf8_lossy};
use crate::wire_path::{valid_wire_path, WirePath};

verus! {

/// The wire kind names the scanned kind, and reading it back gives the
/// scanned kind's namesake: a file is sent as a file, a directory as a
/// directory, a link as a link, anything else as other.
pub proof fn lemma_kinds_keep_their_names(scanned: EntryKind, wire: protocol::EntryKind)
    ensures
        protocol_kind_of(scanned) is File <==> scanned is File,
        protocol_kind_of(scanned) is Directory <==> scanned is Directory,
        protocol_kind_of(scanned) is Symlink <==> scanned is Symlink,
        protocol_kind_of(scanned) is Other <==> scanned is Other,
        scan_kind_of(wire) is File <==> wire is File,
        scan_kind_of(wire) is Directory <==> wire is Directory,
        scan_kind_of(wire) is Symlink <==> wire is Symlink,
        scan_kind_of(wire) is Other <==> wire is Other,
{
}

/// The wire kind of a scanned kind.
pub open spec fn protocol_kind_of(kind: EntryKind) -> protocol::EntryKind {
    match kind {
        EntryKind::File => protocol::EntryKind::File,
        EntryKind::Directory => protocol::EntryKind::Directory,
        EntryKind::Symlink => protocol::EntryKind::Symlink,
        EntryKind::Other => protocol::EntryKind::Other,
    }
}

/// The scanned kind of a wire kind.
pub open spec fn scan_kind_of(kind: protocol::EntryKind) -> EntryKind {
    match kind {
        protocol::EntryKind::File => EntryKind::File,
        protocol::EntryKind::Directory => EntryKind::Directory,
        protocol::EntryKind::Symlink => EntryKind::Symlink,
        protocol::EntryKind::Other => EntryKind::Other,
    }
}

/// The wire kind of a scanned kind.
pub fn to_protocol_kind(kind: EntryKind) -> (r: protocol::EntryKind)
    ensures
        r == protocol_kind_of(kind),
{
    match kind {
        EntryKind::File => protocol::EntryKind::File,
        EntryKind::Directory => protocol::EntryKind::Directory,
        EntryKind::Symlink => protocol::EntryKind::Symlink,
        EntryKind::Other => protocol::EntryKind::Other,
    }
}

/// The scanned kind of a wire kind.
pub fn from_protocol_kind(kind: protocol::EntryKind) -> (r: EntryKind)
    ensures
        r == scan_kind_of(kind),
{
    match kind {
        protocol::EntryKind::File => EntryKind::File,
        protocol::EntryKind::Directory => EntryKind::Directory,
        protocol::EntryKind::Symlink => EntryKind::Symlink,
        protocol::EntryKind::Other => EntryKind::Other,
    }
}

/// The kinds on both sides correspond one to one.
pub proof fn lemma_kind_round_trip(kind: EntryKind, wire: protocol::EntryKind)
    ensures
        scan_kind_of(protocol_kind_of(kind)) == kind,
        protocol_kind_of(scan_kind_of(wire)) == wire,
{
}

/// Signed nanoseconds since the epoch for an offset, saturated to `i64`.
pub open spec fn nanos_of_offset(offset: Result<u128, u128>) -> int {
    match offset {
        Ok(n) => if n <= i64::MAX { n as int } else { i64::MAX as int },
        Err(n) => if n <= i64::MAX { -(n as int) } else { -(i64::MAX as int) },
    }
}

/// Signed nanoseconds since the epoch for an offset from it; a distance that
/// does not fit saturates at `i64::MAX` on either side.
pub fn nanos_from_offset(offset: Result<u128, u128>) -> (r: i64)
    ensures
        r == nanos_of_offset(offset),
{
    match offset {
        Ok(n) => if n <= i64::MAX as u128 { n as i64 } else { i64::MAX },
        Err(n) => {
            let magnitude: i64 = if n <= i64::MAX as u128 { n as i64 } else { i64::MAX };
            -magnitude
        },
    }
}

/// The magnitude of a negative nanosecond count.
pub fn negative_magnitude(nanos: i64) -> (r: u64)
    requires
        nanos < 0,
    ensures
        r == -(nanos as int),
{
    let above: i64 = nanos + 1;
    let m: i64 = -above;
    (m as u64) + 1
}

/// The fingerprint a wire record carries for a filesystem identity: the
/// device and file numbers as little-endian words, then sixteen zero bytes.
pub open spec fn identity_fingerprint(identity: FileIdentity) -> Seq<u8> {
    spec_u64_to_le_bytes(identity.device) + spec_u64_to_le_bytes(identity.file) + Seq::new(
        16,
        |i: int| 0u8,
    )
}

/// The identity a wire fingerprint carries in its first sixteen bytes.
pub open spec fn identity_of_fingerprint(fingerprint: Seq<u8>) -> FileIdentity {
    FileIdentity {
        device: spec_u64_from_le_bytes(fingerprint.subrange(0, 8)),
        file: spec_u64_from_le_bytes(fingerprint.subrange(8, 16)),
    }
}

/// Reading back the identity written into a fingerprint gives the identity.
pub proof fn lemma_identity_round_trip(identity: FileIdentity)
    ensures
        identity_fingerprint(identity).len() == 32,
        identity_of_fingerprint(identity_fingerprint(identity)) == identity,
{
    vstd::bytes::lemma_auto_spec_u64_to_from_le_bytes();
    let fp = identity_fingerprint(identity);
    assert(fp.subrange(0, 8) =~= spec_u64_to_le_bytes(identity.device));
    assert(fp.subrange(8, 16) =~= spec_u64_to_le_bytes(identity.file));
}

fn copy_word(fp: &mut [u8; 32], at: usize, word: &Vec<u8>)
    requires
        word@.len() == 8,
        at + 8 <= 32,
    ensures
        forall|i: int| 0 <= i < 8 ==> #[trigger] final(fp)@[at + i] == word@[i],
        forall|i: int| 0 <= i < 32 && !(at <= i < at + 8) ==> #[trigger] final(fp)@[i] == old(
            fp,
        )@[i],
{
    for i in 0..8
        invariant
            word@.len() == 8,
            at + 8 <= 32,
            forall|k: int| 0 <= k < i ==> #[trigger] fp@[at + k] == word@[k],
            forall|k: int| 0 <= k < 32 && !(at <= k < at + i) ==> #[trigger] fp@[k] == old(fp)@[k],
    {
        fp[at + i] = word[i];
    }
}

/// A nanosecond count as a timestamp carries it: a distance from the epoch
/// beyond `i64::MAX` saturates there, on either side.
pub open spec fn saturated_nanos(n: int) -> int {
    if n > i64::MAX {
        i64::MAX as int
    } else if n < -(i64::MAX as int) {
        -(i64::MAX as int)
    } else {
        n
    }
}

/// The wire record of a scanned entry.
pub fn entry_record_from_file_entry(entry: &FileEntry) -> (r: protocol::EntryRecord)
    ensures
        r.path@ == entry.path@,
        r.kind == protocol_kind_of(entry.kind),
        r.size == entry.size,
        r.mode == entry.mode,
        r.mtime_ns == saturated_nanos(entry.mtime as int),
        r.fingerprint@ == identity_fingerprint(entry.fingerprint.identity),
{
    let mtime_ns = if entry.mtime == i64::MIN { -i64::MAX } else { entry.mtime };
    let mut fp = [0u8; 32];
    let device = u64_to_le_bytes(entry.fingerprint.identity.device);
    let file = u64_to_le_bytes(entry.fingerprint.identity.file);
    copy_word(&mut fp, 0, &device);
    copy_word(&mut fp, 8, &file);
    assert(fp@ =~= identity_fingerprint(entry.fingerprint.identity)) by {
        assert forall|i: int| 0 <= i < 32 implies fp@[i] == identity_fingerprint(
            entry.fingerprint.identity,
        )[i] by {
            if i < 8 {
                assert(fp@[0 + i] == device@[i]);
            } else if i < 16 {
                assert(fp@[8 + (i - 8)] == file@[i - 8]);
            }
        }
    }
    let path = copy_bytes(entry.path.as_bytes());
    protocol::EntryRecord {
        path,
        kind: to_protocol_kind(entry.kind),
        size: entry.size,
        mtime_ns,
        mode: entry.mode,
        fingerprint: fp,
    }
}

/// The diagnostic an unsafe record path is refused with.
pub open spec fn unsafe_path_text(path: Seq<u8>) -> Seq<char> {
    "unsafe wire path '"@ + utf8_lossy(path) + "'"@
}

/// The scanned entry a wire record describes; a path that could leave the
/// root is refused.
pub fn file_entry_from_entry_record(record: &protocol::EntryRecord) -> (r: Result<
    FileEntry,
    ServerError,
>)
    ensures
        r is Ok <==> valid_wire_path(record.path@),
        r matches Err(e) ==> e is InvalidPath && e->InvalidPath_0@ == unsafe_path_text(
            record.path@,
        ),
        r matches Ok(entry) ==> {
            &&& entry.path@ == record.path@
            &&& entry.kind == scan_kind_of(record.kind)
            &&& entry.size == record.size
            &&& entry.mode == record.mode
            &&& entry.mtime == record.mtime_ns
            &&& entry.fingerprint.identity == identity_of_fingerprint(record.fingerprint@)
            &&& entry.fingerprint.kind == entry.kind
            &&& entry.fingerprint.size == record.size
            &&& entry.fingerprint.mtime == entry.mtime
            &&& entry.fingerprint.ctime is None
        },
{
    let path = match WirePath::from_wire(record.path.clone()) {
        Ok(path) => path,
        Err(error) => {
            let text = error.to_string();
            return Err(ServerError::InvalidPath(text));
        },
    };
    let mtime = record.mtime_ns;
    let mut device_bytes: Vec<u8> = Vec::new();
    let mut file_bytes: Vec<u8> = Vec::new();
    for i in 0..8
        invariant
            record.fingerprint@.len() == 32,
            device_bytes@ == record.fingerprint@.subrange(0, i as int),
            file_bytes@ == record.fingerprint@.subrange(8, 8 + i as int),
    {
        device_bytes.push(record.fingerprint[i]);
        file_bytes.push(record.fingerprint[8 + i]);
        assert(device_bytes@ =~= record.fingerprint@.subrange(0, i as int + 1));
        assert(file_bytes@ =~= record.fingerprint@.subrange(8, 8 + i as int + 1));
    }
    let device = u64_from_le_bytes(device_bytes.as_slice());
    let file = u64_from_le_bytes(file_bytes.as_slice());
    let kind = from_protocol_kind(record.kind);
    Ok(
        FileEntry {
            path,
            kind,
            size: record.size,
            mtime,
            mode: record.mode,
            fingerprint: SourceFingerprint {
                identity: FileIdentity { device, file },
                kind,
                size: record.size,
                mtime,
                ctime: None,
            },
        },
    )
}

/// Writing back the identity read from a fingerprint reproduces the
/// fingerprint's first sixteen bytes.
pub proof fn lemma_fingerprint_round_trip(fingerprint: Seq<u8>)
    requires
        fingerprint.len() == 32,
    ensures
        identity_fingerprint(identity_of_fingerprint(fingerprint)).subrange(0, 16)
            == fingerprint.subrange(0, 16),
{
    vstd::bytes::lemma_auto_spec_u64_to_from_le_bytes();
    let id = identity_of_fingerprint(fingerprint);
    let d = fingerprint.subrange(0, 8);
    let f = fingerprint.subrange(8, 16);
    assert(spec_u64_to_le_bytes(spec_u64_from_le_bytes(d)) == d);
    assert(spec_u64_to_le_bytes(spec_u64_from_le_bytes(f)) == f);
    assert(identity_fingerprint(id).subrange(0, 16) =~= fingerprint.subrange(0, 16));
}

/// The outcome of a filesystem call as the reply logic sees it: the kind of
/// failure `std::io::Error::kind` reports, and whether the OS error was a
/// cross-device link.
#[derive(Debug, Clone, Copy, PartialEq, Eq, Structural)]
pub enum IoFailureKind {
    NotFound,
    PermissionDenied,
    AlreadyExists,
    CrossesDevices,
    Other,
}

/// The status a failed rename is reported with.
pub open spec fn rename_status_of(kind: IoFailureKind) -> MutationStatus {
    match kind {
        IoFailureKind::AlreadyExists => MutationStatus::AlreadyExists,
        IoFailureKind::PermissionDenied => MutationStatus::PermissionDenied,
        IoFailureKind::NotFound => MutationStatus::ParentMissing,
        IoFailureKind::CrossesDevices => MutationStatus::CrossDevice,
        IoFailureKind::Other => MutationStatus::Error,
    }
}

/// The status a failed rename is reported with.
pub fn rename_status(kind: IoFailureKind) -> (r: MutationStatus)
    ensures
        r == rename_status_of(kind),
{
    match kind {
        IoFailureKind::AlreadyExists => MutationStatus::AlreadyExists,
        IoFailureKind::PermissionDenied => MutationStatus::PermissionDenied,
        IoFailureKind::NotFound => MutationStatus::ParentMissing,
        IoFailureKind::CrossesDevices => MutationStatus::CrossDevice,
        IoFailureKind::Other => MutationStatus::Error,
    }
}

/// The status a failed directory creation is reported with.
pub fn mkdir_status(kind: IoFailureKind) -> (r: MutationStatus)
    ensures
        r == match kind {
            IoFailureKind::AlreadyExists => MutationStatus::AlreadyExists,
            IoFailureKind::PermissionDenied => MutationStatus::PermissionDenied,
            IoFailureKind::NotFound => MutationStatus::ParentMissing,
            _ => MutationStatus::Error,
        },
{
    match kind {
        IoFailureKind::AlreadyExists => MutationStatus::AlreadyExists,
        IoFailureKind::PermissionDenied => MutationStatus::PermissionDenied,
        IoFailureKind::NotFound => MutationStatus::ParentMissing,
        _ => MutationStatus::Error,
    }
}

/// The status a failed permission or mtime change is reported with.
pub fn meta_status(kind: IoFailureKind) -> (r: MutationStatus)
    ensures
        r == match kind {
            IoFailureKind::PermissionDenied => MutationStatus::PermissionDenied,
            IoFailureKind::NotFound => MutationStatus::ParentMissing,
            _ => MutationStatus::Error,
        },
{
    match kind {
        IoFailureKind::PermissionDenied => MutationStatus::PermissionDenied,
        IoFailureKind::NotFound => MutationStatus::ParentMissing,
        _ => MutationStatus::Error,
    }
}

/// A mutation that failed before reaching the filesystem: a generic error
/// carrying the error's message.
pub fn mutation_failure(error: &ServerError) -> (r: (MutationStatus, String))
    ensures
        r.0 == MutationStatus::Error,
        r.1@ == error.spec_text(),
{
    (MutationStatus::Error, error.to_string())
}

/// The reply to a mutation request: its status, and the error's UTF-8 text
/// when it failed.
pub fn mutation_response(
    related_id: u64,
    result: Result<(), (MutationStatus, String)>,
    kind: MutationKind,
) -> (r: V2Message)
    ensures
        ({
            let (status, error) = match result {
                Ok(_) => (MutationStatus::Done, Seq::<u8>::empty()),
                Err(failure) => (failure.0, vstd::utf8::encode_utf8(failure.1@)),
            };
            match kind {
                MutationKind::Rename => r matches V2Message::RenameResponse { related_id: i, status: s, error: e }
                    && i == related_id && s == status && e@ == error,
                MutationKind::CreateDirectory => r matches V2Message::CreateDirectoryResponse {
                    related_id: i,
                    status: s,
                    error: e,
                } && i == related_id && s == status && e@ == error,
                MutationKind::SetPermissions => r matches V2Message::SetPermissionsResponse {
                    related_id: i,
                    status: s,
                    error: e,
                } && i == related_id && s == status && e@ == error,
                MutationKind::SetMtime => r matches V2Message::SetMtimeResponse {
                    related_id: i,
                    status: s,
                    error: e,
                } && i == related_id && s == status && e@ == error,
            }
        }),
{
    let (status, error) = match result {
        Ok(()) => (MutationStatus::Done, Vec::new()),
        Err((status, error)) => (status, string_bytes(error.as_str())),
    };
    match kind {
        MutationKind::Rename => V2Message::RenameResponse { related_id, status, error },
        MutationKind::CreateDirectory => V2Message::CreateDirectoryResponse {
            related_id,
            status,
            error,
        },
        MutationKind::SetPermissions => V2Message::SetPermissionsResponse {
            related_id,
            status,
            error,
        },
        MutationKind::SetMtime => V2Message::SetMtimeResponse { related_id, status, error },
    }
}

/// The reply to a publish whose base no longer matches: the file's current
/// facts when it still exists, and a fixed explanation.
pub fn publish_changed_response(related_id: u64, current: Option<(u64, i64, u64, u64)>) -> (r:
    V2Message)
    ensures
        r matches V2Message::PublishResponse {
            related_id: i,
            status,
            current_present,
            size,
            mtime_ns,
            device,
            file,
            error,
        } && i == related_id && status == PublishStatus::Changed && current_present
            == current is Some && (match current {
            Some(c) => size == c.0 && mtime_ns == c.1 && device == c.2 && file == c.3,
            None => size == 0 && mtime_ns == 0 && device == 0 && file == 0,
        }) && error@ == vstd::utf8::encode_utf8("remote file changed underneath the editor"@),
{
    let (current_present, size, mtime_ns, device, file) = match current {
        Some((size, mtime_ns, device, file)) => (true, size, mtime_ns, device, file),
        None => (false, 0, 0, 0, 0),
    };
    V2Message::PublishResponse {
        related_id,
        status: PublishStatus::Changed,
        current_present,
        size,
        mtime_ns,
        device,
        file,
        error: string_bytes("remote file changed underneath the editor"),
    }
}

/// The reply to a publish that failed: the error's UTF-8 text and nothing
/// else.
pub fn publish_error_response(related_id: u64, error: &str) -> (r: V2Message)
    ensures
        r matches V2Message::PublishResponse {
            related_id: i,
            status,
            current_present,
            size,
            mtime_ns,
            device,
            file,
            error: e,
        } && i == related_id && status == PublishStatus::Error && !current_present && size == 0
            && mtime_ns == 0 && device == 0 && file == 0 && e@ == vstd::utf8::encode_utf8(error@),
{
    V2Message::PublishResponse {
        related_id,
        status: PublishStatus::Error,
        current_present: false,
        size: 0,
        mtime_ns: 0,
        device: 0,
        file: 0,
        error: string_bytes(error),
    }
}

/// A filesystem-session error reply.
pub fn fs_error(related_id: u64, code: FsErrorCode, message: &str) -> (r: V3Message)
    ensures
        r matches V3Message::Error { related_id: i, code: c, platform_errno, message: m } && i
            == related_id && c == code && platform_errno == 0 && m@ == vstd::utf8::encode_utf8(
            message@,
        ),
{
    V3Message::Error { related_id, code, platform_errno: 0, message: string_bytes(message) }
}

/// The reply to a request whose path was refused before reaching the
/// filesystem: an escape is an access error, anything else an invalid
/// argument.
pub fn fs_path_error(related_id: u64, error: &ServerError) -> (r: V3Message)
    ensures
        r matches V3Message::Error { related_id: i, code: c, platform_errno, message: m } && i
            == related_id && c == (if error is SymlinkEscape {
            FsErrorCode::Access
        } else {
            FsErrorCode::Invalid
        }) && platform_errno == 0 && m@ == vstd::utf8::encode_utf8(error.spec_text()),
{
    let code = match error {
        ServerError::SymlinkEscape(_) => FsErrorCode::Access,
        _ => FsErrorCode::Invalid,
    };
    let text = error.to_string();
    fs_error(related_id, code, text.as_str())
}

} // verus!
