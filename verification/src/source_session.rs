//! The decisions of the sending end of a pull, one message at a time.
//!
//! After its scan pages are acknowledged, the sending session answers the
//! client's requests: batches of files to send whole, large files to serve
//! in ranges, symlinks to describe, and the closing counts. This module holds
//! the large files it serves and decides what each request does; reading the
//! tree and writing frames is the embedding program's.

use vstd::prelude::*;
use std::collections::HashMap;
use crate::entries::{file_entry_from_entry_record, identity_of_fingerprint, unsafe_path_text};
use crate::error::ServerError;
use crate::protocol::{EntryKind, EntryRecord, Message, MetadataOperation};
use crate::scan::{self, FileEntry, SourceFingerprint};
use crate::sink_session::{is_unexpected, ACK_LARGE_FINISH, ACK_LARGE_RANGE, ACK_METADATA};
use crate::text::push_str;
use crate::wire_path::{valid_wire_path, WirePath};

verus! {

broadcast use vstd::std_specs::hash::group_hash_axioms;

/// What the sending session does with one request.
#[derive(Debug)]
pub enum SendStep {
    /// Read each listed file whole and send it as one segment at offset
    /// zero under the file id `file_id`, draining acknowledgements as the
    /// window fills, then drain them all and acknowledge the batch.
    SendBatch { file_id: u64, records: Vec<EntryRecord> },
    /// Look the large file up on this side, hand the entry back through
    /// [`Sender::register`], refreshed as [`refreshed_entry`] says, and
    /// acknowledge the prepare.
    Register { file_id: u64, entry: FileEntry },
    /// Read `length` bytes at `offset` of the registered file `file_id` and
    /// send them as a segment, then acknowledge the range request.
    SendRange { file_id: u64, offset: u64, length: u64 },
    /// Acknowledge the request with this type, and do nothing else.
    Acknowledge(u8),
    /// Describe the symlink at `path` in a metadata reply.
    DescribeLink { path: WirePath },
    /// Acknowledge the counts, echo them, and end the stream.
    Close { files: u64, bytes: u64, skipped: u64, warnings: u64, failed: u64 },
}

/// The length of a range request a file of `size` bytes serves: the request
/// cut at the end of the file, nothing past it.
pub open spec fn served_length(size: u64, offset: u64, length: u64) -> u64 {
    let available: int = if offset <= size { size - offset } else { 0 };
    if length <= available { length } else { available as u64 }
}

/// The entry a large file is served from: the peer's description, or, when
/// this side could stat the path as a regular file and fingerprint it, that
/// size and fingerprint; a fingerprint rebuilt from the wire lacks what only
/// a real stat has, so the file's own is preferred.
pub open spec fn refreshed(entry: FileEntry, local: Option<(u64, SourceFingerprint)>, r: FileEntry) -> bool {
    &&& r.path@ == entry.path@
    &&& r.kind == entry.kind
    &&& r.mtime == entry.mtime
    &&& r.mode == entry.mode
    &&& match local {
        Some((size, fingerprint)) => r.size == size && r.fingerprint == fingerprint,
        None => r.size == entry.size && r.fingerprint == entry.fingerprint,
    }
}

/// The entry a large file is served from, given what this side's own stat
/// found, if the path is a regular file it could fingerprint.
pub fn refreshed_entry(entry: FileEntry, local: Option<(u64, SourceFingerprint)>) -> (r: FileEntry)
    ensures
        refreshed(entry, local, r),
{
    match local {
        Some((size, fingerprint)) => FileEntry {
            path: entry.path,
            kind: entry.kind,
            size,
            mtime: entry.mtime,
            mode: entry.mode,
            fingerprint,
        },
        None => entry,
    }
}

/// The answer a pipelined segment waits for while the window drains: its
/// acknowledgement. An error from the peer ends the session with it.
pub fn drain_reply(message: Message) -> (r: Result<(), ServerError>)
    ensures
        match message {
            Message::Ack { .. } => r is Ok,
            Message::Error { code, message: text, .. } => r matches Err(
                ServerError::RemoteError { code: c, message: m },
            ) && c == code && m@ == text@,
            _ => r matches Err(e) && is_unexpected(
                e,
                "expected Ack while draining pipelined writes, got "@ + message.spec_name(),
            ),
        },
{
    match message {
        Message::Ack { .. } => Ok(()),
        Message::Error { code, message, .. } => Err(ServerError::RemoteError { code, message }),
        other => {
            let mut text = String::new();
            push_str(&mut text, "expected Ack while draining pipelined writes, got ");
            push_str(&mut text, other.name());
            proof {
                reveal_strlit("expected Ack while draining pipelined writes, got ");
            }
            Err(ServerError::UnexpectedMessage(text))
        },
    }
}

/// The state the sending session keeps between requests: the large files
/// it serves, by file id.
pub struct Sender {
    large: HashMap<u64, FileEntry>,
}

impl Sender {
    /// The large files served, by file id.
    pub closed spec fn spec_large(&self) -> Map<u64, FileEntry> {
        self.large@
    }

    /// A session that serves nothing yet.
    pub fn new() -> (r: Sender)
        ensures
            r.spec_large() == Map::<u64, FileEntry>::empty(),
    {
        Sender { large: HashMap::new() }
    }

    /// Serves the large file `file_id` from `entry`, replacing any earlier
    /// entry under that id.
    pub fn register(&mut self, file_id: u64, entry: FileEntry)
        ensures
            final(self).spec_large() == old(self).spec_large().insert(file_id, entry),
    {
        self.large.insert(file_id, entry);
    }

    /// The large file served under `file_id`, if any.
    pub fn large_file(&self, file_id: u64) -> (r: Option<&FileEntry>)
        ensures
            match r {
                Some(entry) => self.spec_large().contains_key(file_id) && *entry == self.spec_large()[file_id],
                None => !self.spec_large().contains_key(file_id),
            },
    {
        self.large.get(&file_id)
    }

    /// Decides what one request does.
    ///
    /// A batch names files to send whole under the batch's own message id.
    /// A large-file prepare describes a file to serve, whose path must be
    /// safe. A range request for a served file is cut at its end and sent;
    /// one for any other file is only acknowledged, as is any metadata
    /// request but a symlink's, whose safe path is described. A finish stops
    /// serving its file. The counts close the stream; an error from the peer
    /// ends the session with it; anything else is unexpected.
    pub fn on_message(&mut self, message_id: u64, message: Message) -> (r: Result<SendStep, ServerError>)
        ensures
            match message {
                Message::LargeFileFinish { file_id, .. } => {
                    &&& final(self).spec_large() == old(self).spec_large().remove(file_id)
                    &&& r matches Ok(SendStep::Acknowledge(t))
                    &&& t == ACK_LARGE_FINISH
                },
                _ => final(self).spec_large() == old(self).spec_large(),
            },
            match message {
                Message::FileBatch { entries, .. } => r matches Ok(
                    SendStep::SendBatch { file_id, records },
                ) && file_id == message_id && records@ == entries@,
                Message::LargeFilePrepare { file_id, path, size, mtime_ns, mode, fingerprint } => if valid_wire_path(
                    path@,
                ) {
                    &&& r matches Ok(SendStep::Register { file_id: f, entry })
                    &&& f == file_id
                    &&& entry.path@ == path@ && entry.kind == scan::EntryKind::File && entry.size == size
                    &&& entry.mode == mode && entry.mtime == mtime_ns
                    &&& entry.fingerprint.identity == identity_of_fingerprint(fingerprint@)
                    &&& entry.fingerprint.kind == scan::EntryKind::File && entry.fingerprint.size == size
                    &&& entry.fingerprint.mtime == entry.mtime && entry.fingerprint.ctime is None
                } else {
                    r matches Err(e) && e matches ServerError::InvalidPath(m) && m@ == unsafe_path_text(path@)
                },
                Message::LargeFileRange { file_id, range } => if old(self).spec_large().contains_key(
                    file_id,
                ) {
                    &&& r matches Ok(SendStep::SendRange { file_id: f, offset, length })
                    &&& f == file_id && offset == range.offset
                    &&& length == served_length(old(self).spec_large()[file_id].size, range.offset, range.length)
                } else {
                    r matches Ok(SendStep::Acknowledge(t)) && t == ACK_LARGE_RANGE
                },
                Message::LargeFileFinish { .. } => true,
                Message::Metadata { operation, path, .. } => if operation
                    == MetadataOperation::CreateSymlink {
                    if valid_wire_path(path@) {
                        r matches Ok(SendStep::DescribeLink { path: p }) && p@ == path@
                    } else {
                        r matches Err(e) && e matches ServerError::InvalidPath(m) && m@ == unsafe_path_text(
                            path@,
                        )
                    }
                } else {
                    r matches Ok(SendStep::Acknowledge(t)) && t == ACK_METADATA
                },
                Message::Stats { files, bytes, skipped, warnings, failed } => r matches Ok(
                    SendStep::Close { files: f, bytes: b, skipped: s, warnings: w, failed: x },
                ) && f == files && b == bytes && s == skipped && w == warnings && x == failed,
                Message::Error { code, message: text, .. } => r matches Err(
                    ServerError::RemoteError { code: c, message: m },
                ) && c == code && m@ == text@,
                _ => r matches Err(e) && is_unexpected(e, message.spec_name()),
            },
    {
        match message {
            Message::FileBatch { entries, .. } => Ok(SendStep::SendBatch { file_id: message_id, records: entries }),
            Message::LargeFilePrepare { file_id, path, size, mtime_ns, mode, fingerprint } => {
                let record = EntryRecord { path, kind: EntryKind::File, size, mtime_ns, mode, fingerprint };
                let entry = file_entry_from_entry_record(&record)?;
                Ok(SendStep::Register { file_id, entry })
            },
            Message::LargeFileRange { file_id, range } => match self.large.get(&file_id) {
                Some(entry) => {
                    let available = if range.offset <= entry.size {
                        entry.size - range.offset
                    } else {
                        0
                    };
                    let length = if range.length <= available {
                        range.length
                    } else {
                        available
                    };
                    Ok(SendStep::SendRange { file_id, offset: range.offset, length })
                },
                None => Ok(SendStep::Acknowledge(ACK_LARGE_RANGE)),
            },
            Message::LargeFileFinish { file_id, .. } => {
                let _ = self.large.remove(&file_id);
                Ok(SendStep::Acknowledge(ACK_LARGE_FINISH))
            },
            Message::Metadata { operation, path, .. } => {
                if operation == MetadataOperation::CreateSymlink {
                    match WirePath::from_wire(path) {
                        Ok(p) => Ok(SendStep::DescribeLink { path: p }),
                        Err(error) => Err(ServerError::InvalidPath(error.to_string())),
                    }
                } else {
                    Ok(SendStep::Acknowledge(ACK_METADATA))
                }
            },
            Message::Stats { files, bytes, skipped, warnings, failed } => Ok(
                SendStep::Close { files, bytes, skipped, warnings, failed },
            ),
            Message::Error { code, message, .. } => Err(ServerError::RemoteError { code, message }),
            other => {
                let mut text = String::new();
                push_str(&mut text, other.name());
                Err(ServerError::UnexpectedMessage(text))
            },
        }
    }
}

} // verus!
