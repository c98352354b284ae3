//! The decisions of the client end of a push or pull: what it accepts in
//! answer to its own messages, how it reads the source's scan pages in a
//! pull, and the repairs it sends for metadata-only changes.

use vstd::prelude::*;
use crate::entries::{file_entry_from_entry_record, saturated_nanos};
use crate::error::ServerError;
use crate::filter::{decide_rules, Decision, FilterSet, RuleView};
use crate::protocol::{CompressionMode, EntryRecord, Message, MetadataOperation, CAP_ZSTD};
use crate::scan::FileEntry;
use crate::sink_session::{describes, is_unexpected, is_unsafe_path, DELETE_FAILED_CODE};
use crate::text::{push_str, utf8_lossy};
use crate::wire_path::valid_wire_path;

verus! {

/// The acknowledged type of a scan page.
pub const ACK_SCAN: u8 = 9;

/// The answer to a message must be its acknowledgement.
pub fn expect_ack(message: &Message) -> (r: Result<(), ServerError>)
    ensures
        r is Ok <==> *message is Ack,
        r matches Err(e) ==> is_unexpected(e, "expected Ack, got "@ + message.spec_name()),
{
    match message {
        Message::Ack { .. } => Ok(()),
        other => {
            let mut text = String::new();
            push_str(&mut text, "expected Ack, got ");
            push_str(&mut text, other.name());
            proof {
                reveal_strlit("expected Ack, got ");
            }
            Err(ServerError::UnexpectedMessage(text))
        },
    }
}

/// The answer to a message of the named kind must be its acknowledgement.
pub fn expect_ack_for(message: &Message, what: &str) -> (r: Result<(), ServerError>)
    ensures
        r is Ok <==> *message is Ack,
        r matches Err(e) ==> is_unexpected(
            e,
            "expected Ack for "@ + what@ + ", got "@ + message.spec_name(),
        ),
{
    match message {
        Message::Ack { .. } => Ok(()),
        other => {
            let mut text = String::new();
            push_str(&mut text, "expected Ack for ");
            push_str(&mut text, what);
            push_str(&mut text, ", got ");
            push_str(&mut text, other.name());
            proof {
                reveal_strlit("expected Ack for ");
                reveal_strlit(", got ");
            }
            Err(ServerError::UnexpectedMessage(text))
        },
    }
}

/// The answer to a deletion: its acknowledgement, or a failed-deletion
/// error, whose text is a warning the transfer carries on after.
pub fn expect_ack_or_delete_warning(message: Message) -> (r: Result<Option<String>, ServerError>)
    ensures
        match message {
            Message::Ack { .. } => (r matches Ok(None)),
            Message::Error { code, message: text, .. } => if code == DELETE_FAILED_CODE {
                (r matches Ok(Some(w)) && w@ == text@)
            } else {
                (r matches Err(e) && is_unexpected(
                    e,
                    "expected Ack or delete warning, got "@ + message.spec_name(),
                ))
            },
            _ => (r matches Err(e) && is_unexpected(
                e,
                "expected Ack or delete warning, got "@ + message.spec_name(),
            )),
        },
{
    match message {
        Message::Ack { .. } => Ok(None),
        Message::Error { code, message, .. } if code == DELETE_FAILED_CODE => Ok(Some(message)),
        other => {
            let mut text = String::new();
            push_str(&mut text, "expected Ack or delete warning, got ");
            push_str(&mut text, other.name());
            proof {
                reveal_strlit("expected Ack or delete warning, got ");
            }
            Err(ServerError::UnexpectedMessage(text))
        },
    }
}

/// The server's opening answer must be its handshake; the compression it
/// chose and the capabilities it advertises are taken from it.
pub fn server_handshake(message: &Message) -> (r: Result<(CompressionMode, u32), ServerError>)
    ensures
        match *message {
            Message::Handshake { compression, capabilities, .. } => r == Ok::<
                (CompressionMode, u32),
                ServerError,
            >((compression, capabilities)),
            _ => r matches Err(e) && is_unexpected(
                e,
                "expected Server Handshake, got "@ + message.spec_name(),
            ),
        },
{
    match message {
        Message::Handshake { compression, capabilities, .. } => Ok((*compression, *capabilities)),
        other => {
            let mut text = String::new();
            push_str(&mut text, "expected Server Handshake, got ");
            push_str(&mut text, other.name());
            proof {
                reveal_strlit("expected Server Handshake, got ");
            }
            Err(ServerError::UnexpectedMessage(text))
        },
    }
}

/// Why a session runs with or without compression: the user turned it off,
/// the peer does not offer it, or both ends do.
pub open spec fn spec_compression_reason(compress: bool, remote_capabilities: u32) -> Seq<char> {
    if !compress {
        "compression disabled by user"@
    } else if remote_capabilities & CAP_ZSTD == 0 {
        "remote peer does not advertise zstd"@
    } else {
        "both peers advertise zstd"@
    }
}

/// Why a session runs with or without compression.
pub fn compression_reason(compress: bool, remote_capabilities: u32) -> (r: &'static str)
    ensures
        r@ == spec_compression_reason(compress, remote_capabilities),
{
    proof {
        reveal_strlit("compression disabled by user");
        reveal_strlit("remote peer does not advertise zstd");
        reveal_strlit("both peers advertise zstd");
    }
    if !compress {
        "compression disabled by user"
    } else if remote_capabilities & CAP_ZSTD == 0 {
        "remote peer does not advertise zstd"
    } else {
        "both peers advertise zstd"
    }
}

/// The metadata-only repair sent for a file whose contents already match:
/// its mode and modification time, set on the destination's copy.
pub fn metadata_repair(entry: &FileEntry) -> (r: Message)
    ensures
        r matches Message::Metadata { operation, path, target, mode, mtime_ns } && operation
            == MetadataOperation::SetFile && path@ == entry.path@ && target@.len() == 0 && mode
            == entry.mode && mtime_ns == saturated_nanos(entry.mtime as int),
{
    Message::Metadata {
        operation: MetadataOperation::SetFile,
        path: crate::text::copy_bytes(entry.path.as_bytes()),
        target: Vec::new(),
        mode: entry.mode,
        mtime_ns: if entry.mtime == i64::MIN { -i64::MAX } else { entry.mtime },
    }
}

/// Whether a scanned record is kept by a pull: it names something below the
/// root, and the filter includes it.
pub open spec fn kept(record: EntryRecord, rules: Seq<RuleView>) -> bool {
    record.path@.len() > 0 && decide_rules(rules, utf8_lossy(record.path@)) == Decision::Included
}

/// The records of a page a pull keeps, in order.
pub open spec fn kept_records(records: Seq<EntryRecord>, rules: Seq<RuleView>) -> Seq<EntryRecord>
    decreases records.len(),
{
    if records.len() == 0 {
        records
    } else {
        let before = kept_records(records.drop_last(), rules);
        if kept(records.last(), rules) {
            before.push(records.last())
        } else {
            before
        }
    }
}

/// The mode and modification time of the root after a page: those of the
/// page's last record naming the root, if it has one.
pub open spec fn root_after(root: Option<(u32, i64)>, records: Seq<EntryRecord>) -> Option<(u32, i64)>
    decreases records.len(),
{
    if records.len() == 0 {
        root
    } else if records.last().path@.len() == 0 {
        Some((records.last().mode, records.last().mtime_ns))
    } else {
        root_after(root, records.drop_last())
    }
}

/// Whether a record can be taken: it names the root, or a path that cannot
/// leave it.
pub open spec fn record_safe(record: EntryRecord) -> bool {
    record.path@.len() == 0 || valid_wire_path(record.path@)
}

/// What a pull's intake takes from one answer during the scan phase, and
/// what [`ScanIntake::on_page`] reports of it.
pub open spec fn page_taken(before: ScanIntake, after: ScanIntake, message: Message, rules: Seq<RuleView>, r: Result<bool, ServerError>) -> bool {
    match message {
        Message::Scan { final_page, entries, .. } => {
            &&& (r is Ok <==> forall|i: int| 0 <= i < entries@.len() ==> record_safe(#[trigger] entries@[i]))
            &&& r matches Err(e) ==> exists|i: int|
                0 <= i < entries@.len() && !record_safe(#[trigger] entries@[i]) && (forall|j: int|
                    0 <= j < i ==> record_safe(#[trigger] entries@[j])) && is_unsafe_path(e, entries@[i].path@)
            &&& r matches Ok(last) ==> {
                let taken = kept_records(entries@, rules);
                &&& last == final_page
                &&& after.spec_root() == root_after(before.spec_root(), entries@)
                &&& after.spec_entries().len() == before.spec_entries().len() + taken.len()
                &&& forall|k: int| 0 <= k < before.spec_entries().len()
                    ==> #[trigger] after.spec_entries()[k] == before.spec_entries()[k]
                &&& forall|k: int| 0 <= k < taken.len()
                    ==> describes(#[trigger] after.spec_entries()[before.spec_entries().len() + k], taken[k])
            }
        },
        _ => {
            &&& after.spec_root() == before.spec_root()
            &&& after.spec_entries() == before.spec_entries()
            &&& r matches Err(e)
            &&& is_unexpected(e, "expected Scan, got "@ + message.spec_name())
        },
    }
}

/// What a pull has taken of the source's scan so far.
pub struct ScanIntake {
    root: Option<(u32, i64)>,
    entries: Vec<FileEntry>,
}

impl ScanIntake {
    /// The mode and modification time of the source root, once a page has
    /// named it.
    pub closed spec fn spec_root(&self) -> Option<(u32, i64)> {
        self.root
    }

    /// The entries kept so far, in the order the pages listed them.
    pub closed spec fn spec_entries(&self) -> Seq<FileEntry> {
        self.entries@
    }

    /// Nothing taken yet.
    pub fn new() -> (r: ScanIntake)
        ensures
            r.spec_root() is None,
            r.spec_entries().len() == 0,
    {
        ScanIntake { root: None, entries: Vec::new() }
    }

    /// The mode and modification time of the source root, if named.
    pub fn root(&self) -> (r: Option<(u32, i64)>)
        ensures
            r == self.spec_root(),
    {
        self.root
    }

    /// The entries kept, handed over once the last page is in.
    pub fn into_entries(self) -> (r: Vec<FileEntry>)
        ensures
            r@ == self.spec_entries(),
    {
        self.entries
    }

    fn take_page(&mut self, entries: Vec<EntryRecord>, filter: &FilterSet) -> (r: Result<(), ServerError>)
        ensures
            r is Ok <==> forall|i: int| 0 <= i < entries@.len() ==> record_safe(#[trigger] entries@[i]),
            r matches Err(e) ==> exists|i: int|
                0 <= i < entries@.len() && !record_safe(#[trigger] entries@[i]) && (forall|j: int|
                    0 <= j < i ==> record_safe(#[trigger] entries@[j])) && is_unsafe_path(e, entries@[i].path@),
            r is Ok ==> {
                let taken = kept_records(entries@, filter@);
                &&& final(self).spec_root() == root_after(old(self).spec_root(), entries@)
                &&& final(self).spec_entries().len() == old(self).spec_entries().len() + taken.len()
                &&& forall|k: int| 0 <= k < old(self).spec_entries().len()
                    ==> #[trigger] final(self).spec_entries()[k] == old(self).spec_entries()[k]
                &&& forall|k: int| 0 <= k < taken.len()
                    ==> describes(#[trigger] final(self).spec_entries()[old(self).spec_entries().len() + k], taken[k])
            },
    {
        let ghost start = self.entries@.len();
        let ghost old_entries = self.entries@;
        let ghost old_root = self.root;
        let mut i: usize = 0;
        while i < entries.len()
            invariant
                i <= entries@.len(),
                self.root == root_after(old_root, entries@.take(i as int)),
                self.entries@.len() == start + kept_records(entries@.take(i as int), filter@).len(),
                forall|k: int| 0 <= k < start ==> #[trigger] self.entries@[k] == old_entries[k],
                forall|k: int|
                    0 <= k < kept_records(entries@.take(i as int), filter@).len() ==> describes(
                        #[trigger] self.entries@[start + k],
                        kept_records(entries@.take(i as int), filter@)[k],
                    ),
                forall|j: int| 0 <= j < i ==> record_safe(#[trigger] entries@[j]),
                start == old_entries.len(),
            decreases entries.len() - i,
        {
            let record = &entries[i];
            assert(entries@.take(i as int + 1).drop_last() =~= entries@.take(i as int));
            if record.path.len() == 0 {
                self.root = Some((record.mode, record.mtime_ns));
            } else {
                let entry = match file_entry_from_entry_record(record) {
                    Ok(entry) => entry,
                    Err(e) => {
                        assert(!record_safe(entries@[i as int]));
                        return Err(e);
                    },
                };
                let shown = entry.path.to_string();
                if filter.decide(shown.as_str()).is_included() {
                    let ghost before = self.entries@;
                    self.entries.push(entry);
                    assert forall|k: int|
                        0 <= k < kept_records(entries@.take(i as int + 1), filter@).len() implies describes(
                        #[trigger] self.entries@[start + k],
                        kept_records(entries@.take(i as int + 1), filter@)[k],
                    ) by {
                        if k < kept_records(entries@.take(i as int), filter@).len() {
                            assert(self.entries@[start + k] == before[start + k]);
                        }
                    }
                }
            }
            i = i + 1;
        }
        assert(entries@.take(entries@.len() as int) =~= entries@);
        Ok(())
    }

    /// Takes one answer during the scan phase of a pull, which must be a
    /// scan page: its record naming the root gives the root's mode and time,
    /// and each other record is kept when `filter` includes it. A record
    /// whose path could leave the root ends the pull. The result says
    /// whether this was the last page; each page is acknowledged with
    /// [`ACK_SCAN`].
    pub fn on_page(&mut self, message: Message, filter: &FilterSet) -> (r: Result<bool, ServerError>)
        ensures
            page_taken(*old(self), *final(self), message, filter@, r),
    {
        match message {
            Message::Scan { final_page, entries, .. } => {
                self.take_page(entries, filter)?;
                Ok(final_page)
            },
            other => {
                let mut text = String::new();
                push_str(&mut text, "expected Scan, got ");
                push_str(&mut text, other.name());
                proof {
                    reveal_strlit("expected Scan, got ");
                }
                Err(ServerError::UnexpectedMessage(text))
            },
        }
    }
}

} // verus!
