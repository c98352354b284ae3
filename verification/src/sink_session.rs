//! The decisions of the receiving end of a push, one message at a time.
//!
//! After its scan pages are acknowledged, the receiving session takes the
//! transfer stream: metadata changes, batches of complete files, large files
//! sent in ranges, and the closing counts. This module holds what the session
//! remembers between messages and decides what each one does; touching the
//! destination, the resume journal and the publishing pool is the embedding
//! program's, and so is examining, before a message is handed over, the
//! ancestors of the destination [`Receiver::destination_of`] names.

use vstd::prelude::*;
use std::collections::HashMap;
use crate::destination::{
    redirected, slash_count, validate_destination_path, validate_unique_destination_path, SeenPaths,
};
use crate::entries::{file_entry_from_entry_record, identity_of_fingerprint, unsafe_path_text};
use crate::error::{ServerError, SinkError};
use crate::digest::{blake3_digest, blake3_hash};
use crate::protocol::{ByteRange, EntryKind, EntryRecord, Message, MetadataOperation};
use crate::scan::{self, FileEntry};
use crate::text::{copy_bytes, decimal, push_decimal, push_str, utf8_lossy};
use crate::transfer::{ranges_cover, ranges_cover_file};
use crate::wire_path::{valid_wire_path, WirePath};

verus! {

broadcast use vstd::std_specs::hash::group_hash_axioms;

/// The acknowledged type of a file batch.
pub const ACK_FILE_BATCH: u8 = 3;
/// The acknowledged type of a file segment.
pub const ACK_FILE_SEGMENT: u8 = 4;
/// The acknowledged type of a large-file prepare.
pub const ACK_LARGE_PREPARE: u8 = 5;
/// The acknowledged type of a large-file range.
pub const ACK_LARGE_RANGE: u8 = 6;
/// The acknowledged type of a large-file finish.
pub const ACK_LARGE_FINISH: u8 = 7;
/// The acknowledged type of a metadata message.
pub const ACK_METADATA: u8 = 8;
/// The acknowledged type of the closing counts.
pub const ACK_STATS: u8 = 10;
/// The error code a failed deletion is reported with.
pub const DELETE_FAILED_CODE: u16 = 1001;

/// The id the `index`-th file of a batch carried by message `message_id` is
/// known by: the message id shifted past sixteen bits, or-ed with the index.
pub open spec fn batch_file_id(message_id: u64, index: u64) -> u64 {
    (message_id << 16u64) | index
}

/// The files awaiting their contents once the first `n` entries of a batch
/// carried by message `message_id` are registered, in order, over `files`;
/// a later entry with the same id replaces an earlier one.
pub open spec fn registered(
    files: Map<u64, EntryRecord>,
    message_id: u64,
    entries: Seq<EntryRecord>,
    n: nat,
) -> Map<u64, EntryRecord>
    decreases n,
{
    if n == 0 {
        files
    } else {
        registered(files, message_id, entries, (n - 1) as nat).insert(
            batch_file_id(message_id, (n - 1) as u64),
            entries[n - 1],
        )
    }
}

/// Whether a message would change the destination.
pub open spec fn is_mutation(message: Message) -> bool {
    ||| message is Metadata
    ||| message is FileBatch
    ||| message is FileSegment
    ||| message is LargeFilePrepare
    ||| message is LargeFileRange
    ||| message is LargeFileFinish
}

/// Whether a data-only session takes a message: the file data of batches
/// and large files, and nothing that describes or closes the transfer.
pub open spec fn is_data(message: Message) -> bool {
    ||| message is FileBatch
    ||| message is FileSegment
    ||| message is LargeFilePrepare
    ||| message is LargeFileRange
}

/// Whether a metadata operation on `path` is carried out at all: a deletion
/// only when the session deletes.
pub open spec fn metadata_applies(operation: MetadataOperation, delete: bool) -> bool {
    operation != MetadataOperation::Delete || delete
}

/// Whether a metadata operation on `path` names a destination that must be
/// validated first: every one that is carried out, except the closing
/// directory repair of the root itself.
pub open spec fn metadata_validates(operation: MetadataOperation, path: Seq<u8>, delete: bool) -> bool {
    metadata_applies(operation, delete) && !(operation == MetadataOperation::SetDirectory && path.len()
        == 0)
}

/// Whether validation refuses a well-formed destination, given which of its
/// ancestors are symlinks: it is the empty path, or a symlink redirects it.
pub open spec fn destination_refused(path: Seq<u8>, symlinked: Seq<bool>) -> bool {
    path.len() == 0 || redirected(slash_count(path) + 1, symlinked)
}

/// `e` is the error validation refuses such a destination with.
pub open spec fn is_destination_refusal(e: ServerError, path: Seq<u8>) -> bool {
    if path.len() == 0 {
        e matches ServerError::InvalidPath(m) && m@ == "empty path"@
    } else {
        e matches ServerError::SymlinkEscape(m) && m@ == utf8_lossy(path)
    }
}

/// `e` refuses a path that could leave the root.
pub open spec fn is_unsafe_path(e: ServerError, path: Seq<u8>) -> bool {
    e matches ServerError::InvalidPath(m) && m@ == unsafe_path_text(path)
}

/// `e` is an unexpected-message error with this text.
pub open spec fn is_unexpected(e: ServerError, text: Seq<char>) -> bool {
    e matches ServerError::UnexpectedMessage(m) && m@ == text
}

/// `entry` is the scanned entry the wire record describes.
pub open spec fn describes(entry: FileEntry, record: EntryRecord) -> bool {
    &&& entry.path@ == record.path@
    &&& entry.kind == crate::entries::scan_kind_of(record.kind)
    &&& entry.size == record.size
    &&& entry.mode == record.mode
    &&& entry.fingerprint.identity == identity_of_fingerprint(record.fingerprint@)
    &&& entry.fingerprint.kind == entry.kind
    &&& entry.fingerprint.size == record.size
    &&& entry.mtime == record.mtime_ns
    &&& entry.fingerprint.mtime == entry.mtime
    &&& entry.fingerprint.ctime is None
}

/// The outcome of a metadata message: the claimed destinations before and
/// after it, and what it yields. A path that could leave the root is
/// refused; one claimed before is refused unless the message is the closing
/// repair of a directory; the empty path claims nothing. A deletion the
/// session does not perform is only acknowledged; anything else performed
/// first passes destination validation, except the repair of the root.
pub open spec fn metadata_outcome(
    delete: bool,
    seen: Set<Seq<u8>>,
    seen_after: Set<Seq<u8>>,
    operation: MetadataOperation,
    path: Seq<u8>,
    target: Seq<u8>,
    mode: u32,
    mtime_ns: i64,
    symlinked: Seq<bool>,
    r: Result<ReceiveStep, ServerError>,
) -> bool {
    if !valid_wire_path(path) {
        &&& seen_after == seen
        &&& r matches Err(e)
        &&& is_unsafe_path(e, path)
    } else if path.len() > 0 && seen.contains(path) && operation != MetadataOperation::SetDirectory {
        &&& seen_after == seen
        &&& r matches Err(e)
        &&& is_duplicate(e, path)
    } else {
        &&& seen_after == (if path.len() > 0 { seen.insert(path) } else { seen })
        &&& if !metadata_applies(operation, delete) {
            r matches Ok(ReceiveStep::Acknowledge(t)) && t == ACK_METADATA
        } else if metadata_validates(operation, path, delete) && destination_refused(path, symlinked) {
            r matches Err(e) && is_destination_refusal(e, path)
        } else {
            &&& r matches Ok(ReceiveStep::Apply { operation: o, path: p, target: t, mode: m, mtime_ns: n })
            &&& o == operation && p@ == path && t@ == target && m == mode && n == mtime_ns
        }
    }
}

/// `e` refuses a destination claimed before.
pub open spec fn is_duplicate(e: ServerError, path: Seq<u8>) -> bool {
    e matches ServerError::DuplicatePath(m) && m@ == utf8_lossy(path)
}

/// The text a segment of a complete file at a non-zero offset is refused
/// with.
pub open spec fn nonzero_offset_text(offset: u64, file_id: u64) -> Seq<char> {
    "non-zero offset "@ + decimal(offset as nat) + " for complete file "@ + decimal(file_id as nat)
}

/// The text a segment for no registered file is refused with.
pub open spec fn unregistered_segment_text(file_id: u64) -> Seq<char> {
    "FileSegment for unregistered file_id "@ + decimal(file_id as nat)
}

/// The text a finish for no prepared large file is refused with.
pub open spec fn unregistered_finish_text(file_id: u64) -> Seq<char> {
    "LargeFileFinish for unregistered file_id "@ + decimal(file_id as nat)
}

/// Whether a destination passes: it is safe, validation accepts it, and it
/// is unclaimed.
pub open spec fn claimable(path: Seq<u8>, symlinked: Seq<bool>, seen: Set<Seq<u8>>) -> bool {
    valid_wire_path(path) && !destination_refused(path, symlinked) && !seen.contains(path)
}

/// `e` is the error a destination that does not pass is refused with:
/// first for being unsafe, then by validation, then for being claimed.
pub open spec fn is_claim_refusal(e: ServerError, path: Seq<u8>, symlinked: Seq<bool>) -> bool {
    if !valid_wire_path(path) {
        is_unsafe_path(e, path)
    } else if destination_refused(path, symlinked) {
        is_destination_refusal(e, path)
    } else {
        is_duplicate(e, path)
    }
}

/// The outcome of a file segment. A segment for a batched file consumes the
/// registration, whatever follows: it must start at offset zero, and its
/// destination must pass, which claims it; the file is then published, with
/// the pool drained when it was the batch's last. A segment for a prepared
/// large file is a chunk of it; any other is refused.
pub open spec fn segment_outcome(
    batch: Map<u64, EntryRecord>,
    batch_after: Map<u64, EntryRecord>,
    large: Map<u64, FileEntry>,
    seen: Set<Seq<u8>>,
    seen_after: Set<Seq<u8>>,
    file_id: u64,
    offset: u64,
    digest: [u8; 32],
    data: Seq<u8>,
    symlinked: Seq<bool>,
    paranoid: bool,
    r: Result<ReceiveStep, ServerError>,
) -> bool {
    if batch.contains_key(file_id) {
        let record = batch[file_id];
        let path = record.path@;
        &&& batch_after == batch.remove(file_id)
        &&& if offset != 0 {
            &&& seen_after == seen
            &&& r matches Err(e)
            &&& is_unexpected(e, nonzero_offset_text(offset, file_id))
        } else if !claimable(path, symlinked, seen) {
            &&& seen_after == seen
            &&& r matches Err(e)
            &&& is_claim_refusal(e, path, symlinked)
        } else {
            &&& seen_after == seen.insert(path)
            &&& r matches Ok(ReceiveStep::Publish { entry, digest: d, data: bytes, drain, verify_readback })
            &&& verify_readback == paranoid
            &&& describes(entry, record)
            &&& d == digest && bytes@ == data
            &&& drain == batch_after.is_empty()
        }
    } else {
        &&& batch_after == batch
        &&& seen_after == seen
        &&& if large.contains_key(file_id) {
            &&& r matches Ok(ReceiveStep::WriteChunk { file_id: f, offset: o, digest: d, data: bytes })
            &&& f == file_id && o == offset && d == digest && bytes@ == data
        } else {
            &&& r matches Err(e)
            &&& is_unexpected(e, unregistered_segment_text(file_id))
        }
    }
}

/// The outcome of a large-file prepare: its destination must pass, which
/// claims it, and the file is registered under its id, replacing any
/// earlier registration of that id.
pub open spec fn prepare_outcome(
    large: Map<u64, FileEntry>,
    large_after: Map<u64, FileEntry>,
    seen: Set<Seq<u8>>,
    seen_after: Set<Seq<u8>>,
    file_id: u64,
    path: Seq<u8>,
    size: u64,
    mtime_ns: i64,
    mode: u32,
    fingerprint: Seq<u8>,
    symlinked: Seq<bool>,
    r: Result<ReceiveStep, ServerError>,
) -> bool {
    if !claimable(path, symlinked, seen) {
        &&& seen_after == seen
        &&& large_after == large
        &&& r matches Err(e)
        &&& is_claim_refusal(e, path, symlinked)
    } else {
        let entry = large_after[file_id];
        &&& seen_after == seen.insert(path)
        &&& large_after == large.insert(file_id, entry)
        &&& entry.path@ == path && entry.kind == scan::EntryKind::File && entry.size == size
        &&& entry.mode == mode && entry.mtime == mtime_ns
        &&& entry.fingerprint.identity == identity_of_fingerprint(fingerprint)
        &&& entry.fingerprint.kind == scan::EntryKind::File && entry.fingerprint.size == size
        &&& entry.fingerprint.mtime == entry.mtime && entry.fingerprint.ctime is None
        &&& r matches Ok(ReceiveStep::Prepare { file_id: f })
        &&& f == file_id
    }
}

/// What the receiving session does with one message.
#[derive(Debug)]
pub enum ReceiveStep {
    /// Carry out the metadata operation at `path` (the root, when it is
    /// empty), then acknowledge the message as a metadata message; a
    /// deletion that fails is reported with [`delete_failure`] instead.
    Apply { operation: MetadataOperation, path: WirePath, target: Vec<u8>, mode: u32, mtime_ns: i64 },
    /// Acknowledge the message with this type, and do nothing else.
    Acknowledge(u8),
    /// Publish this complete file, then collect finished publications and
    /// acknowledge each as a segment: all of them when `drain` is set, since
    /// the batch is then complete and the sender waits for every one.
    /// When `verify_readback` is set (a paranoid session), the committed
    /// file is read back and checked with [`readback_verified`] before the
    /// acknowledgement.
    Publish { entry: FileEntry, digest: [u8; 32], data: Vec<u8>, drain: bool, verify_readback: bool },
    /// Write this chunk of the prepared large file `file_id` (see
    /// [`Receiver::large_file`]), record its range, and acknowledge the
    /// message as a segment.
    WriteChunk { file_id: u64, offset: u64, digest: [u8; 32], data: Vec<u8> },
    /// Stage the large file `file_id` (see [`Receiver::large_file`]),
    /// acknowledge the message as a prepare, then send the pages of the
    /// ranges already held.
    Prepare { file_id: u64 },
    /// Check that the file's ranges cover it ([`check_large_coverage`]),
    /// verify and commit it, and acknowledge the message as a finish.
    /// When `verify_readback` is set (a paranoid session), the staged file is
    /// read back and checked with [`readback_verified`] before it is
    /// committed.
    Finish { file_id: u64, entry: FileEntry, digest: [u8; 32], verify_readback: bool },
    /// Collect every publication, acknowledge the counts, echo them, and end
    /// the stream.
    Close { files: u64, bytes: u64, skipped: u64, warnings: u64, failed: u64 },
}

fn is_mutation_message(message: &Message) -> (r: bool)
    ensures
        r == is_mutation(*message),
{
    match message {
        Message::Metadata { .. } | Message::FileBatch { .. } | Message::FileSegment { .. }
        | Message::LargeFilePrepare { .. } | Message::LargeFileRange { .. }
        | Message::LargeFileFinish { .. } => true,
        _ => false,
    }
}

fn is_data_message(message: &Message) -> (r: bool)
    ensures
        r == is_data(*message),
{
    match message {
        Message::FileBatch { .. } | Message::FileSegment { .. } | Message::LargeFilePrepare { .. }
        | Message::LargeFileRange { .. } => true,
        _ => false,
    }
}

/// The state the receiving session keeps between messages.
pub struct Receiver {
    data_only: bool,
    dry_run: bool,
    delete: bool,
    paranoid: bool,
    seen: SeenPaths,
    batch: HashMap<u64, EntryRecord>,
    large: HashMap<u64, FileEntry>,
}

impl Receiver {
    /// The session's invariant.
    pub closed spec fn wf(&self) -> bool {
        self.seen.wf()
    }

    /// Whether the session only writes file data for a transfer another
    /// session controls.
    pub closed spec fn spec_data_only(&self) -> bool {
        self.data_only
    }

    /// Whether the session only reports and refuses every change.
    pub closed spec fn spec_dry_run(&self) -> bool {
        self.dry_run
    }

    /// Whether the session deletes what the sender asks it to.
    pub closed spec fn spec_delete(&self) -> bool {
        self.delete
    }

    /// Whether the session reads every committed file back and checks it.
    pub closed spec fn spec_paranoid(&self) -> bool {
        self.paranoid
    }

    /// The same session, reading committed files back when `paranoid`.
    pub fn with_paranoid(self, paranoid: bool) -> (r: Receiver)
        ensures
            r.wf() == self.wf(),
            r.spec_paranoid() == paranoid,
            r.spec_data_only() == self.spec_data_only(),
            r.spec_dry_run() == self.spec_dry_run(),
            r.spec_delete() == self.spec_delete(),
            r.spec_seen() == self.spec_seen(),
            r.spec_batch() == self.spec_batch(),
            r.spec_large() == self.spec_large(),
    {
        Receiver { paranoid, ..self }
    }

    /// The destinations claimed so far.
    pub closed spec fn spec_seen(&self) -> Set<Seq<u8>> {
        self.seen@
    }

    /// The batched files awaiting their contents, by file id.
    pub closed spec fn spec_batch(&self) -> Map<u64, EntryRecord> {
        self.batch@
    }

    /// The large files prepared and not yet finished, by file id.
    pub closed spec fn spec_large(&self) -> Map<u64, FileEntry> {
        self.large@
    }

    /// A session that has claimed nothing and awaits nothing.
    pub fn new(dry_run: bool, delete: bool) -> (r: Receiver)
        ensures
            r.wf(),
            !r.spec_data_only(),
            r.spec_dry_run() == dry_run,
            r.spec_delete() == delete,
            r.spec_seen() == Set::<Seq<u8>>::empty(),
            r.spec_batch() == Map::<u64, EntryRecord>::empty(),
            r.spec_large() == Map::<u64, FileEntry>::empty(),
    {
        Receiver {
            data_only: false,
            dry_run,
            delete,
            paranoid: false,
            seen: SeenPaths::new(),
            batch: HashMap::new(),
            large: HashMap::new(),
        }
    }

    /// A session that only writes file data for a transfer another session
    /// controls: it takes batches, their segments, and large-file prepares
    /// and ranges, and nothing else.
    pub fn data_only() -> (r: Receiver)
        ensures
            r.wf(),
            r.spec_data_only(),
            !r.spec_dry_run(),
            !r.spec_delete(),
            r.spec_seen() == Set::<Seq<u8>>::empty(),
            r.spec_batch() == Map::<u64, EntryRecord>::empty(),
            r.spec_large() == Map::<u64, FileEntry>::empty(),
    {
        Receiver {
            data_only: true,
            dry_run: false,
            delete: false,
            paranoid: false,
            seen: SeenPaths::new(),
            batch: HashMap::new(),
            large: HashMap::new(),
        }
    }

    fn register_batch(&mut self, message_id: u64, entries: Vec<EntryRecord>)
        ensures
            final(self).spec_batch() == registered(
                old(self).spec_batch(),
                message_id,
                entries@,
                entries@.len(),
            ),
            final(self).data_only == old(self).data_only,
            final(self).paranoid == old(self).paranoid,
            final(self).dry_run == old(self).dry_run,
            final(self).delete == old(self).delete,
            final(self).seen == old(self).seen,
            final(self).large == old(self).large,
    {
        let ghost all = entries@;
        let count = entries.len();
        let mut index: u64 = 0;
        for entry in it: entries.into_iter()
            invariant
                it.seq() == all,
                all.len() == count,
                index == it.index(),
                self.batch@ == registered(old(self).batch@, message_id, all, index as nat),
                self.data_only == old(self).data_only,
                self.paranoid == old(self).paranoid,
                self.dry_run == old(self).dry_run,
                self.delete == old(self).delete,
                self.seen == old(self).seen,
                self.large == old(self).large,
        {
            assert(index < count);
            let id = (message_id << 16u64) | index;
            self.batch.insert(id, entry);
            index = index + 1;
        }
    }

    fn on_metadata(
        &mut self,
        operation: MetadataOperation,
        path: Vec<u8>,
        target: Vec<u8>,
        mode: u32,
        mtime_ns: i64,
        symlinked: &[bool],
    ) -> (r: Result<ReceiveStep, ServerError>)
        requires
            old(self).wf(),
        ensures
            final(self).wf(),
            final(self).data_only == old(self).data_only,
            final(self).paranoid == old(self).paranoid,
            final(self).dry_run == old(self).dry_run,
            final(self).delete == old(self).delete,
            final(self).batch == old(self).batch,
            final(self).large == old(self).large,
            metadata_outcome(
                old(self).delete,
                old(self).seen@,
                final(self).seen@,
                operation,
                path@,
                target@,
                mode,
                mtime_ns,
                symlinked@,
                r,
            ),
    {
        let ghost bytes = path@;
        let relative = match WirePath::from_wire(path) {
            Ok(p) => p,
            Err(error) => {
                return Err(ServerError::InvalidPath(error.to_string()));
            },
        };
        if !relative.is_empty() && !self.seen.insert(relative.as_bytes()) && operation
            != MetadataOperation::SetDirectory {
            assert(self.seen@ =~= old(self).seen@);
            return Err(ServerError::DuplicatePath(relative.to_string()));
        }
        if operation == MetadataOperation::Delete && !self.delete {
            return Ok(ReceiveStep::Acknowledge(ACK_METADATA));
        }
        if !(operation == MetadataOperation::SetDirectory && relative.is_empty()) {
            validate_destination_path(&relative, symlinked)?;
        }
        Ok(ReceiveStep::Apply { operation, path: relative, target, mode, mtime_ns })
    }

    fn on_segment(
        &mut self,
        file_id: u64,
        offset: u64,
        digest: [u8; 32],
        data: Vec<u8>,
        symlinked: &[bool],
    ) -> (r: Result<ReceiveStep, ServerError>)
        requires
            old(self).wf(),
        ensures
            final(self).wf(),
            final(self).data_only == old(self).data_only,
            final(self).paranoid == old(self).paranoid,
            final(self).dry_run == old(self).dry_run,
            final(self).delete == old(self).delete,
            final(self).large == old(self).large,
            segment_outcome(
                old(self).batch@,
                final(self).batch@,
                old(self).large@,
                old(self).seen@,
                final(self).seen@,
                file_id,
                offset,
                digest,
                data@,
                symlinked@,
                old(self).paranoid,
                r,
            ),
    {
        match self.batch.remove(&file_id) {
            Some(record) => {
                if offset != 0 {
                    let mut text = String::new();
                    push_str(&mut text, "non-zero offset ");
                    push_decimal(&mut text, offset);
                    push_str(&mut text, " for complete file ");
                    push_decimal(&mut text, file_id);
                    proof {
                        reveal_strlit("non-zero offset ");
                        reveal_strlit(" for complete file ");
                    }
                    return Err(ServerError::UnexpectedMessage(text));
                }
                let entry = file_entry_from_entry_record(&record)?;
                validate_unique_destination_path(&entry.path, symlinked, &mut self.seen)?;
                let drain = self.batch.is_empty();
                Ok(ReceiveStep::Publish { entry, digest, data, drain, verify_readback: self.paranoid })
            },
            None => {
                assert(self.batch@ =~= old(self).batch@);
                if self.large.contains_key(&file_id) {
                    Ok(ReceiveStep::WriteChunk { file_id, offset, digest, data })
                } else {
                    let mut text = String::new();
                    push_str(&mut text, "FileSegment for unregistered file_id ");
                    push_decimal(&mut text, file_id);
                    proof {
                        reveal_strlit("FileSegment for unregistered file_id ");
                    }
                    Err(ServerError::UnexpectedMessage(text))
                }
            },
        }
    }

    fn on_prepare(
        &mut self,
        file_id: u64,
        path: Vec<u8>,
        size: u64,
        mtime_ns: i64,
        mode: u32,
        fingerprint: [u8; 32],
        symlinked: &[bool],
    ) -> (r: Result<ReceiveStep, ServerError>)
        requires
            old(self).wf(),
        ensures
            final(self).wf(),
            final(self).data_only == old(self).data_only,
            final(self).paranoid == old(self).paranoid,
            final(self).dry_run == old(self).dry_run,
            final(self).delete == old(self).delete,
            final(self).batch == old(self).batch,
            prepare_outcome(
                old(self).large@,
                final(self).large@,
                old(self).seen@,
                final(self).seen@,
                file_id,
                path@,
                size,
                mtime_ns,
                mode,
                fingerprint@,
                symlinked@,
                r,
            ),
    {
        let record = EntryRecord { path, kind: EntryKind::File, size, mtime_ns, mode, fingerprint };
        let entry = file_entry_from_entry_record(&record)?;
        validate_unique_destination_path(&entry.path, symlinked, &mut self.seen)?;
        self.large.insert(file_id, entry);
        Ok(ReceiveStep::Prepare { file_id })
    }

    fn on_finish(&mut self, file_id: u64, digest: [u8; 32]) -> (r: Result<ReceiveStep, ServerError>)
        ensures
            final(self).data_only == old(self).data_only,
            final(self).paranoid == old(self).paranoid,
            final(self).dry_run == old(self).dry_run,
            final(self).delete == old(self).delete,
            final(self).batch == old(self).batch,
            final(self).seen == old(self).seen,
            if old(self).large@.contains_key(file_id) {
                &&& final(self).large@ == old(self).large@.remove(file_id)
                &&& r matches Ok(ReceiveStep::Finish { file_id: f, entry, digest: d, verify_readback })
                &&& f == file_id && entry == old(self).large@[file_id] && d == digest
                &&& verify_readback == old(self).paranoid
            } else {
                &&& final(self).large@ == old(self).large@
                &&& r matches Err(e)
                &&& is_unexpected(e, unregistered_finish_text(file_id))
            },
    {
        match self.large.remove(&file_id) {
            Some(entry) => Ok(ReceiveStep::Finish { file_id, entry, digest, verify_readback: self.paranoid }),
            None => {
                let mut text = String::new();
                push_str(&mut text, "LargeFileFinish for unregistered file_id ");
                push_decimal(&mut text, file_id);
                proof {
                    reveal_strlit("LargeFileFinish for unregistered file_id ");
                }
                Err(ServerError::UnexpectedMessage(text))
            },
        }
    }

    /// The destination whose ancestors the embedding program examines
    /// before handing `message` to [`Receiver::on_message`], which takes
    /// `symlinked[i]` to say whether the root joined with the first `i + 1`
    /// components of it exists and is a symlink: the path of a metadata
    /// change that will be validated, of a prepared large file, or of the
    /// batched file a segment completes.
    pub fn destination_of(&self, message: &Message) -> (r: Option<Vec<u8>>)
        ensures
            match *message {
                Message::Metadata { operation, path, .. } => if metadata_validates(
                    operation,
                    path@,
                    self.spec_delete(),
                ) {
                    r matches Some(p) && p@ == path@
                } else {
                    r is None
                },
                Message::LargeFilePrepare { path, .. } => r matches Some(p) && p@ == path@,
                Message::FileSegment { file_id, .. } => if self.spec_batch().contains_key(file_id) {
                    r matches Some(p) && p@ == self.spec_batch()[file_id].path@
                } else {
                    r is None
                },
                _ => r is None,
            },
    {
        match message {
            Message::Metadata { operation, path, .. } => {
                let applies = *operation != MetadataOperation::Delete || self.delete;
                if applies && !(*operation == MetadataOperation::SetDirectory && path.len() == 0) {
                    Some(copy_bytes(path.as_slice()))
                } else {
                    None
                }
            },
            Message::LargeFilePrepare { path, .. } => Some(copy_bytes(path.as_slice())),
            Message::FileSegment { file_id, .. } => match self.batch.get(file_id) {
                Some(record) => Some(copy_bytes(record.path.as_slice())),
                None => None,
            },
            _ => None,
        }
    }

    /// Decides what one message of the transfer stream does, given which
    /// ancestors of the destination [`Receiver::destination_of`] named are
    /// symlinks.
    ///
    /// A data-only session refuses everything but file data, and a dry run
    /// every message that would change the destination. Otherwise: a metadata change is validated and yields its operation
    /// ([`metadata_outcome`]); a batch registers its files under their ids
    /// ([`batch_file_id`]) and is acknowledged; a segment completes a
    /// batched file or carries a chunk of a prepared one
    /// ([`segment_outcome`]); a prepare registers a large file
    /// ([`prepare_outcome`]); a range request is only acknowledged; a finish
    /// hands over its prepared file; the counts close the stream; an error
    /// from the peer ends the session with it; anything else is unexpected.
    pub fn on_message(&mut self, message_id: u64, message: Message, symlinked: &[bool]) -> (r: Result<
        ReceiveStep,
        ServerError,
    >)
        requires
            old(self).wf(),
        ensures
            final(self).wf(),
            final(self).spec_data_only() == old(self).spec_data_only(),
            final(self).spec_dry_run() == old(self).spec_dry_run(),
            final(self).spec_delete() == old(self).spec_delete(),
            final(self).spec_paranoid() == old(self).spec_paranoid(),
            old(self).spec_data_only() && !is_data(message) ==> {
                &&& final(self).spec_seen() == old(self).spec_seen()
                &&& final(self).spec_batch() == old(self).spec_batch()
                &&& final(self).spec_large() == old(self).spec_large()
                &&& r matches Err(e)
                &&& is_unexpected(e, "data session does not handle "@ + message.spec_name())
            },
            !(old(self).spec_data_only() && !is_data(message)) && old(self).spec_dry_run()
                && is_mutation(message) ==> {
                &&& final(self).spec_seen() == old(self).spec_seen()
                &&& final(self).spec_batch() == old(self).spec_batch()
                &&& final(self).spec_large() == old(self).spec_large()
                &&& r matches Err(e)
                &&& is_unexpected(e, "dry-run receiver rejected a mutation message"@)
            },
            !(old(self).spec_data_only() && !is_data(message)) && !(old(self).spec_dry_run()
                && is_mutation(message)) ==> match message {
                Message::Metadata { operation, path, target, mode, mtime_ns } => {
                    &&& final(self).spec_batch() == old(self).spec_batch()
                    &&& final(self).spec_large() == old(self).spec_large()
                    &&& metadata_outcome(
                        old(self).spec_delete(),
                        old(self).spec_seen(),
                        final(self).spec_seen(),
                        operation,
                        path@,
                        target@,
                        mode,
                        mtime_ns,
                        symlinked@,
                        r,
                    )
                },
                Message::FileBatch { entries, .. } => {
                    &&& final(self).spec_seen() == old(self).spec_seen()
                    &&& final(self).spec_large() == old(self).spec_large()
                    &&& final(self).spec_batch() == registered(
                        old(self).spec_batch(),
                        message_id,
                        entries@,
                        entries@.len(),
                    )
                    &&& r matches Ok(ReceiveStep::Acknowledge(t))
                    &&& t == ACK_FILE_BATCH
                },
                Message::FileSegment { file_id, offset, digest, data } => {
                    &&& final(self).spec_large() == old(self).spec_large()
                    &&& segment_outcome(
                        old(self).spec_batch(),
                        final(self).spec_batch(),
                        old(self).spec_large(),
                        old(self).spec_seen(),
                        final(self).spec_seen(),
                        file_id,
                        offset,
                        digest,
                        data@,
                        symlinked@,
                        old(self).spec_paranoid(),
                        r,
                    )
                },
                Message::LargeFilePrepare { file_id, path, size, mtime_ns, mode, fingerprint } => {
                    &&& final(self).spec_batch() == old(self).spec_batch()
                    &&& prepare_outcome(
                        old(self).spec_large(),
                        final(self).spec_large(),
                        old(self).spec_seen(),
                        final(self).spec_seen(),
                        file_id,
                        path@,
                        size,
                        mtime_ns,
                        mode,
                        fingerprint@,
                        symlinked@,
                        r,
                    )
                },
                Message::LargeFileFinish { file_id, digest } => {
                    &&& final(self).spec_seen() == old(self).spec_seen()
                    &&& final(self).spec_batch() == old(self).spec_batch()
                    &&& if old(self).spec_large().contains_key(file_id) {
                        &&& final(self).spec_large() == old(self).spec_large().remove(file_id)
                        &&& r matches Ok(ReceiveStep::Finish { file_id: f, entry, digest: d, verify_readback })
                        &&& f == file_id && entry == old(self).spec_large()[file_id] && d == digest
                        &&& verify_readback == old(self).spec_paranoid()
                    } else {
                        &&& final(self).spec_large() == old(self).spec_large()
                        &&& r matches Err(e)
                        &&& is_unexpected(e, unregistered_finish_text(file_id))
                    }
                },
                _ => {
                    &&& final(self).spec_seen() == old(self).spec_seen()
                    &&& final(self).spec_batch() == old(self).spec_batch()
                    &&& final(self).spec_large() == old(self).spec_large()
                    &&& match message {
                        Message::LargeFileRange { .. } => r matches Ok(ReceiveStep::Acknowledge(t))
                            && t == ACK_LARGE_RANGE,
                        Message::Stats { files, bytes, skipped, warnings, failed } => r matches Ok(
                            ReceiveStep::Close { files: f, bytes: b, skipped: s, warnings: w, failed: x },
                        ) && f == files && b == bytes && s == skipped && w == warnings && x == failed,
                        Message::Error { code, message: text, .. } => r matches Err(
                            ServerError::RemoteError { code: c, message: m },
                        ) && c == code && m@ == text@,
                        _ => r matches Err(e) && is_unexpected(e, message.spec_name()),
                    }
                },
            },
    {
        if self.data_only && !is_data_message(&message) {
            let mut text = String::new();
            push_str(&mut text, "data session does not handle ");
            push_str(&mut text, message.name());
            proof {
                reveal_strlit("data session does not handle ");
            }
            return Err(ServerError::UnexpectedMessage(text));
        }
        if self.dry_run && is_mutation_message(&message) {
            let mut text = String::new();
            push_str(&mut text, "dry-run receiver rejected a mutation message");
            proof {
                reveal_strlit("dry-run receiver rejected a mutation message");
            }
            return Err(ServerError::UnexpectedMessage(text));
        }
        match message {
            Message::Metadata { operation, path, target, mode, mtime_ns } => self.on_metadata(
                operation,
                path,
                target,
                mode,
                mtime_ns,
                symlinked,
            ),
            Message::FileBatch { entries, .. } => {
                self.register_batch(message_id, entries);
                Ok(ReceiveStep::Acknowledge(ACK_FILE_BATCH))
            },
            Message::FileSegment { file_id, offset, digest, data } => self.on_segment(
                file_id,
                offset,
                digest,
                data,
                symlinked,
            ),
            Message::LargeFilePrepare { file_id, path, size, mtime_ns, mode, fingerprint } => self.on_prepare(
                file_id,
                path,
                size,
                mtime_ns,
                mode,
                fingerprint,
                symlinked,
            ),
            Message::LargeFileRange { .. } => Ok(ReceiveStep::Acknowledge(ACK_LARGE_RANGE)),
            Message::LargeFileFinish { file_id, digest } => self.on_finish(file_id, digest),
            Message::Stats { files, bytes, skipped, warnings, failed } => Ok(
                ReceiveStep::Close { files, bytes, skipped, warnings, failed },
            ),
            Message::Error { code, message, .. } => Err(ServerError::RemoteError { code, message }),
            other => {
                let mut text = String::new();
                push_str(&mut text, other.name());
                Err(ServerError::UnexpectedMessage(text))
            },
        }
    }

    /// The prepared large file `file_id`, if it is one.
    pub fn large_file(&self, file_id: u64) -> (r: Option<&FileEntry>)
        ensures
            match r {
                Some(entry) => self.spec_large().contains_key(file_id) && *entry == self.spec_large()[file_id],
                None => !self.spec_large().contains_key(file_id),
            },
    {
        self.large.get(&file_id)
    }
}

} // verus!

verus! {

/// The error message a deletion that failed is reported with, in place of
/// the metadata acknowledgement: code [`DELETE_FAILED_CODE`], the message
/// the deletion answers, and the path and failure in words.
pub fn delete_failure(related_id: u64, path: &WirePath, failure: &str) -> (r: Message)
    ensures
        r matches Message::Error { code, related_id: id, message } && code == DELETE_FAILED_CODE
            && id == related_id && message@ == "delete '"@ + utf8_lossy(path@) + "' failed: "@
            + failure@,
{
    let mut text = String::new();
    push_str(&mut text, "delete '");
    let shown = path.to_string();
    push_str(&mut text, shown.as_str());
    push_str(&mut text, "' failed: ");
    push_str(&mut text, failure);
    proof {
        reveal_strlit("delete '");
        reveal_strlit("' failed: ");
    }
    Message::Error { code: DELETE_FAILED_CODE, related_id, message: text }
}

/// The text a large file whose ranges leave a byte uncovered is refused
/// with at its finish.
pub open spec fn incomplete_coverage_text(file_id: u64) -> Seq<char> {
    "LargeFileFinish for file_id "@ + decimal(file_id as nat) + " has incomplete byte coverage"@
}

/// A large file is committed only when the ranges received for it, in this
/// session and recorded by the resume journal, cover every byte: its
/// staging file was preallocated, so a gap would publish zeros as content.
pub fn check_large_coverage(file_id: u64, size: u64, ranges: &[ByteRange]) -> (r: Result<
    (),
    ServerError,
>)
    ensures
        r is Ok <==> ranges_cover(size, ranges@),
        r matches Err(e) ==> is_unexpected(e, incomplete_coverage_text(file_id)),
{
    if ranges_cover_file(size, ranges) {
        return Ok(());
    }
    let mut text = String::new();
    push_str(&mut text, "LargeFileFinish for file_id ");
    push_decimal(&mut text, file_id);
    push_str(&mut text, " has incomplete byte coverage");
    proof {
        reveal_strlit("LargeFileFinish for file_id ");
        reveal_strlit(" has incomplete byte coverage");
    }
    Err(ServerError::UnexpectedMessage(text))
}

/// How a prepared large file starts: resuming into its surviving staging
/// file, or afresh, dropping the journal's record of it first when there is
/// one.
#[derive(Debug, Clone, Copy, PartialEq, Eq, Structural)]
pub enum ResumeStart {
    Resume,
    Fresh { invalidate: bool },
}

/// Ranges the journal recorded for a large file are kept only while the
/// staging file they were written to still exists; otherwise the file starts
/// over, and a stale record is invalidated.
pub fn resume_start(journalled_ranges: usize, staging_present: bool) -> (r: ResumeStart)
    ensures
        journalled_ranges > 0 && staging_present ==> r == ResumeStart::Resume,
        !(journalled_ranges > 0 && staging_present) ==> r == (ResumeStart::Fresh {
            invalidate: journalled_ranges > 0,
        }),
{
    if journalled_ranges > 0 && staging_present {
        ResumeStart::Resume
    } else {
        ResumeStart::Fresh { invalidate: journalled_ranges > 0 }
    }
}

/// The pages a collection of `count` items is sent in, at most `limit` to a
/// page: each page is `(start, end, final)`, the pages are consecutive from
/// zero to `count`, every page but the last is full, and there is always at
/// least one page, empty when the collection is.
pub fn collection_pages(count: usize, limit: usize) -> (r: Vec<(usize, usize, bool)>)
    requires
        limit > 0,
    ensures
        r@.len() >= 1,
        r@[0].0 == 0,
        r@.last().1 == count,
        forall|i: int| 0 <= i < r@.len() ==> {
            &&& (#[trigger] r@[i]).0 <= r@[i].1 <= count
            &&& r@[i].1 - r@[i].0 <= limit
            &&& r@[i].2 <==> i == r@.len() - 1
            &&& count > 0 ==> r@[i].0 < r@[i].1
        },
        forall|i: int| 0 <= i < r@.len() - 1 ==> {
            &&& (#[trigger] r@[i]).1 - r@[i].0 == limit
            &&& r@[i + 1].0 == r@[i].1
        },
{
    let mut pages: Vec<(usize, usize, bool)> = Vec::new();
    let mut start: usize = 0;
    loop
        invariant
            limit > 0,
            start <= count,
            pages@.len() == 0 ==> start == 0,
            pages@.len() > 0 ==> start < count,
            pages@.len() > 0 ==> pages@.last().1 == start && !pages@.last().2,
            pages@.len() > 0 ==> pages@[0].0 == 0,
            forall|i: int| 0 <= i < pages@.len() ==> {
                &&& (#[trigger] pages@[i]).0 < pages@[i].1 <= start
                &&& pages@[i].1 - pages@[i].0 == limit
                &&& !pages@[i].2
            },
            forall|i: int| 0 <= i < pages@.len() - 1 ==> (#[trigger] pages@[i + 1]).0 == pages@[i].1,
        decreases count - start,
    {
        let remaining = count - start;
        if remaining <= limit {
            let ghost before = pages@;
            pages.push((start, count, true));
            assert forall|i: int| 0 <= i < pages@.len() - 1 implies (#[trigger] pages@[i + 1]).0
                == pages@[i].1 by {
                if i + 1 < before.len() {
                    assert(before[i + 1].0 == before[i].1);
                }
            }
            return pages;
        }
        let ghost before = pages@;
        pages.push((start, start + limit, false));
        assert forall|i: int| 0 <= i < pages@.len() - 1 implies (#[trigger] pages@[i + 1]).0
            == pages@[i].1 by {
            if i + 1 < before.len() {
                assert(before[i + 1].0 == before[i].1);
            }
        }
        start = start + limit;
    }
}

} // verus!

verus! {

/// A destination claimed earlier in a transfer is never written again: a
/// metadata change naming it is refused, unless it is the closing repair of
/// a directory, and the claims only grow.
pub proof fn lemma_metadata_never_reclaims(
    delete: bool,
    seen: Set<Seq<u8>>,
    seen_after: Set<Seq<u8>>,
    operation: MetadataOperation,
    path: Seq<u8>,
    target: Seq<u8>,
    mode: u32,
    mtime_ns: i64,
    symlinked: Seq<bool>,
    r: Result<ReceiveStep, ServerError>,
)
    requires
        metadata_outcome(delete, seen, seen_after, operation, path, target, mode, mtime_ns, symlinked, r),
    ensures
        seen.subset_of(seen_after),
        path.len() > 0 && seen.contains(path) && operation != MetadataOperation::SetDirectory ==> r is Err,
{
}

/// A destination claimed earlier in a transfer is never written again: the
/// segment completing a batched file with such a destination is refused,
/// the registration is consumed either way, so a file is published at most
/// once, and the claims only grow.
pub proof fn lemma_segment_never_reclaims(
    batch: Map<u64, EntryRecord>,
    batch_after: Map<u64, EntryRecord>,
    large: Map<u64, FileEntry>,
    seen: Set<Seq<u8>>,
    seen_after: Set<Seq<u8>>,
    file_id: u64,
    offset: u64,
    digest: [u8; 32],
    data: Seq<u8>,
    symlinked: Seq<bool>,
    paranoid: bool,
    r: Result<ReceiveStep, ServerError>,
)
    requires
        segment_outcome(batch, batch_after, large, seen, seen_after, file_id, offset, digest, data, symlinked, paranoid, r),
    ensures
        seen.subset_of(seen_after),
        !batch_after.contains_key(file_id),
        batch.contains_key(file_id) && seen.contains(batch[file_id].path@) ==> r is Err,
        r matches Ok(ReceiveStep::Publish { entry, .. }) ==> !seen.contains(entry.path@)
            && seen_after.contains(entry.path@),
{
}

/// A destination claimed earlier in a transfer is never written again: a
/// large-file prepare naming it is refused and registers nothing, and the
/// claims only grow.
pub proof fn lemma_prepare_never_reclaims(
    large: Map<u64, FileEntry>,
    large_after: Map<u64, FileEntry>,
    seen: Set<Seq<u8>>,
    seen_after: Set<Seq<u8>>,
    file_id: u64,
    path: Seq<u8>,
    size: u64,
    mtime_ns: i64,
    mode: u32,
    fingerprint: Seq<u8>,
    symlinked: Seq<bool>,
    r: Result<ReceiveStep, ServerError>,
)
    requires
        prepare_outcome(large, large_after, seen, seen_after, file_id, path, size, mtime_ns, mode, fingerprint, symlinked, r),
    ensures
        seen.subset_of(seen_after),
        seen.contains(path) ==> r is Err && large_after == large,
        r is Ok ==> !seen.contains(path) && seen_after.contains(path),
{
}

/// The check of a paranoid session's read-back: the bytes read back from
/// `entry`'s committed or staged file must have the expected BLAKE3 digest,
/// or the file fails verification.
pub fn readback_verified(entry: &FileEntry, expected: &[u8; 32], readback: &[u8]) -> (r: Result<(), ServerError>)
    ensures
        r is Ok <==> blake3_hash(readback@) == expected@,
        r matches Err(e) ==> e matches ServerError::Sink(SinkError::VerificationFailed { path, attempts })
            && path@ == utf8_lossy(entry.path@) && attempts == 2,
{
    let digest = blake3_digest(readback);
    let mut i: usize = 0;
    while i < 32
        invariant
            i <= 32,
            digest@.len() == 32,
            expected@.len() == 32,
            digest@ == blake3_hash(readback@),
            forall|k: int| 0 <= k < i ==> digest@[k] == expected@[k],
        decreases 32 - i,
    {
        if digest[i] != expected[i] {
            assert(digest@[i as int] != expected@[i as int]);
            return Err(ServerError::Sink(SinkError::VerificationFailed { path: entry.path.to_string(), attempts: 2 }));
        }
        i = i + 1;
    }
    assert(digest@ =~= expected@);
    Ok(())
}

} // verus!
