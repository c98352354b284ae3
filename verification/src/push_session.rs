//! The client end of a single-stream push once its plan is known: the
//! directories and links it creates, the files it hands to the transfer,
//! the deletions it asks for, the metadata it repairs and restores, and the
//! statistics it closes with.
//!
//! Every frame the push sends and every answer it accepts is decided here;
//! the embedding program writes the frames, reads the answers and moves the
//! file contents.

use vstd::prelude::*;
use crate::batching::{file_sizes, greedy_batches, plan_small_file_batches, small_batch_frames, small_batch_of};
use crate::client_session::expect_ack_or_delete_warning;
use crate::data_session::segment_of;
use crate::digest::blake3_digest;
use crate::entries::{entry_record_from_file_entry, saturated_nanos};
use crate::error::ServerError;
use crate::protocol::{EntryRecord, Message, MetadataOperation, MAX_DATA_SEGMENT};
use crate::pull_session::{indices_where, lemma_batches_within, record_for, sat_add, size_indices, TransferLimits};
use crate::scan::FileEntry;
use crate::sink::listed;
use crate::sink_session::{batch_file_id, is_unexpected, DELETE_FAILED_CODE};
use crate::text::push_str;

verus! {

/// The byte length of each entry's path.
pub open spec fn path_lengths(entries: Seq<FileEntry>) -> Seq<nat> {
    entries.map_values(|e: FileEntry| e.path@.len())
}

/// Whether entry `i` goes before entry `j`: the shorter path first (the
/// longer first when `longest_first`), and among paths of one length the
/// order given.
pub open spec fn goes_before(lengths: Seq<nat>, longest_first: bool, i: int, j: int) -> bool {
    ||| (if longest_first {
        lengths[i] > lengths[j]
    } else {
        lengths[i] < lengths[j]
    })
    ||| (lengths[i] == lengths[j] && i < j)
}

/// Whether `order` lists each index below the number of lengths once, each
/// before every index it goes before.
pub open spec fn length_ordered(lengths: Seq<nat>, longest_first: bool, order: Seq<usize>) -> bool {
    &&& order.len() == lengths.len()
    &&& forall|a: int| 0 <= a < order.len() ==> #[trigger] order[a] < lengths.len()
    &&& forall|j: int| 0 <= j < lengths.len() ==> #[trigger] listed(order, j)
    &&& forall|a: int, b: int|
        0 <= a < b < order.len() ==> goes_before(
            lengths,
            longest_first,
            #[trigger] order[a] as int,
            #[trigger] order[b] as int,
        )
}

fn strictly_before(x: usize, y: usize, longest_first: bool) -> (r: bool)
    ensures
        r == (if longest_first {
            x > y
        } else {
            x < y
        }),
{
    if longest_first {
        x > y
    } else {
        x < y
    }
}

/// The order in which entries are sent when they go by path length: the
/// shorter first, or the longer first when `longest_first`, and among paths
/// of one length in the order given.
pub fn length_order(entries: &[FileEntry], longest_first: bool) -> (r: Vec<usize>)
    ensures
        length_ordered(path_lengths(entries@), longest_first, r@),
{
    let ghost lengths = path_lengths(entries@);
    let mut length: Vec<usize> = Vec::new();
    for k in 0..entries.len()
        invariant
            lengths == path_lengths(entries@),
            length@.len() == k,
            forall|m: int| 0 <= m < k ==> #[trigger] length@[m] == lengths[m],
    {
        length.push(entries[k].path.as_bytes().len());
    }
    let mut order: Vec<usize> = Vec::new();
    for k in 0..entries.len()
        invariant
            lengths == path_lengths(entries@),
            length@.len() == entries@.len(),
            forall|m: int| 0 <= m < entries@.len() ==> #[trigger] length@[m] == lengths[m],
            order@.len() == k,
            forall|a: int| 0 <= a < order@.len() ==> #[trigger] order@[a] < k,
            forall|j: int| 0 <= j < k ==> #[trigger] listed(order@, j),
            forall|a: int, b: int|
                0 <= a < b < order@.len() ==> goes_before(
                    lengths,
                    longest_first,
                    #[trigger] order@[a] as int,
                    #[trigger] order@[b] as int,
                ),
    {
        let mut p: usize = order.len();
        while p > 0 && strictly_before(length[k], length[order[p - 1]], longest_first)
            invariant
                p <= order@.len(),
                length@.len() == entries@.len(),
                k < entries@.len(),
                forall|a: int| 0 <= a < order@.len() ==> #[trigger] order@[a] < k,
                forall|a: int|
                    p <= a < order@.len() ==> (if longest_first {
                        length@[k as int] > length@[#[trigger] order@[a] as int]
                    } else {
                        length@[k as int] < length@[#[trigger] order@[a] as int]
                    }),
            decreases p,
        {
            p = p - 1;
        }
        let ghost before = order@;
        order.insert(p, k);
        proof {
            assert(order@ == before.insert(p as int, k));
            assert forall|j: int| 0 <= j < k + 1 implies #[trigger] listed(order@, j) by {
                if j == k as int {
                    assert(order@[p as int] == k);
                } else {
                    assert(listed(before, j));
                    let b = choose|b: int| 0 <= b < before.len() && before[b] == j;
                    if b < p as int {
                        assert(order@[b] == before[b]);
                    } else {
                        assert(order@[b + 1] == before[b]);
                    }
                }
            }
            assert forall|a: int| 0 <= a < order@.len() implies #[trigger] order@[a] < k + 1 by {
                if a < p as int {
                    assert(order@[a] == before[a]);
                } else if a > p as int {
                    assert(order@[a] == before[a - 1]);
                }
            }
            assert forall|a: int, b: int| 0 <= a < b < order@.len() implies goes_before(
                lengths,
                longest_first,
                #[trigger] order@[a] as int,
                #[trigger] order@[b] as int,
            ) by {
                if b < p as int {
                    assert(order@[a] == before[a] && order@[b] == before[b]);
                } else if b == p as int {
                    assert(order@[a] == before[a]);
                    assert(before[a] < k);
                    if p > 0 {
                        assert(!(if longest_first {
                            length@[k as int] > length@[before[p - 1] as int]
                        } else {
                            length@[k as int] < length@[before[p - 1] as int]
                        }));
                        if a < p - 1 {
                            assert(goes_before(lengths, longest_first, before[a] as int, before[p - 1] as int));
                        }
                    }
                } else if a == p as int {
                    assert(order@[b] == before[b - 1]);
                    assert(before[b - 1] < k);
                } else if a < p as int {
                    assert(order@[a] == before[a] && order@[b] == before[b - 1]);
                } else {
                    assert(order@[a] == before[a - 1] && order@[b] == before[b - 1]);
                }
            }
        }
    }
    order
}

/// Whether two entries agree on everything a frame is built from.
pub open spec fn same_entry(a: FileEntry, b: FileEntry) -> bool {
    a.path@ == b.path@ && a.kind == b.kind && a.size == b.size && a.mtime == b.mtime && a.mode == b.mode
        && a.fingerprint == b.fingerprint
}

/// Whether `out` holds the entries of `src` in the order the lengths of
/// their paths give.
pub open spec fn arranged(out: Seq<FileEntry>, src: Seq<FileEntry>, longest_first: bool) -> bool {
    exists|order: Seq<usize>|
        #[trigger] length_ordered(path_lengths(src), longest_first, order) && out.len() == src.len()
            && forall|k: int| 0 <= k < out.len() ==> same_entry(#[trigger] out[k], src[order[k] as int])
}

/// The entries in the order their path lengths give.
pub fn arrange(entries: &[FileEntry], longest_first: bool) -> (r: Vec<FileEntry>)
    ensures
        arranged(r@, entries@, longest_first),
{
    let order = length_order(entries, longest_first);
    let mut out: Vec<FileEntry> = Vec::new();
    for k in 0..order.len()
        invariant
            length_ordered(path_lengths(entries@), longest_first, order@),
            out@.len() == k,
            forall|m: int| 0 <= m < k ==> same_entry(#[trigger] out@[m], entries@[order@[m] as int]),
    {
        out.push(entries[order[k]].clone());
    }
    proof {
        assert(length_ordered(path_lengths(entries@), longest_first, order@));
    }
    out
}

/// Entries in the order their path lengths give go shorter first (longer
/// first when `longest_first`): so a directory is created before anything
/// below it, and finished or deleted after everything below it.
pub proof fn lemma_arranged_by_length(out: Seq<FileEntry>, src: Seq<FileEntry>, longest_first: bool)
    requires
        arranged(out, src, longest_first),
    ensures
        forall|a: int, b: int|
            0 <= a < out.len() && 0 <= b < out.len() && (if longest_first {
                (#[trigger] out[a]).path@.len() > (#[trigger] out[b]).path@.len()
            } else {
                out[a].path@.len() < out[b].path@.len()
            }) ==> a < b,
{
    let order = choose|order: Seq<usize>|
        #[trigger] length_ordered(path_lengths(src), longest_first, order) && out.len() == src.len() && forall|
            k: int,
        | 0 <= k < out.len() ==> same_entry(#[trigger] out[k], src[order[k] as int]);
    assert forall|a: int, b: int|
        0 <= a < out.len() && 0 <= b < out.len() && (if longest_first {
            (#[trigger] out[a]).path@.len() > (#[trigger] out[b]).path@.len()
        } else {
            out[a].path@.len() < out[b].path@.len()
        }) implies a < b by {
        if b < a {
            assert(goes_before(path_lengths(src), longest_first, order[b] as int, order[a] as int));
            assert(same_entry(out[a], src[order[a] as int]));
            assert(same_entry(out[b], src[order[b] as int]));
        }
    }
}

/// Whether `m` applies `operation` to `entry`'s path with its mode and
/// modification time.
pub open spec fn sets(m: Message, operation: MetadataOperation, entry: FileEntry) -> bool {
    m matches Message::Metadata { operation: op, path, target, mode, mtime_ns } && op == operation
        && path@ == entry.path@ && target@.len() == 0 && mode == entry.mode && mtime_ns
        == saturated_nanos(entry.mtime as int)
}

/// Whether `m` creates the symbolic link `entry` pointing at `target`.
pub open spec fn links(m: Message, entry: FileEntry, target: Seq<u8>) -> bool {
    m matches Message::Metadata { operation, path, target: t, mode, mtime_ns } && operation
        == MetadataOperation::CreateSymlink && path@ == entry.path@ && t@ == target && mode == entry.mode
        && mtime_ns == saturated_nanos(entry.mtime as int)
}

/// Whether `m` asks for `entry` to be deleted.
pub open spec fn deletes(m: Message, entry: FileEntry) -> bool {
    m matches Message::Metadata { operation, path, target, mode, mtime_ns } && operation
        == MetadataOperation::Delete && path@ == entry.path@ && target@.len() == 0 && mode == 0
        && mtime_ns == 0
}

/// Whether `m` sets the root directory's mode and modification time.
pub open spec fn sets_root(m: Message, root: (u32, i64)) -> bool {
    m matches Message::Metadata { operation, path, target, mode, mtime_ns } && operation
        == MetadataOperation::SetDirectory && path@.len() == 0 && target@.len() == 0 && mode == root.0
        && mtime_ns == root.1
}

/// Whether `frames` apply `operation` to each of `entries`, in order.
pub open spec fn frames_for(frames: Seq<Message>, operation: MetadataOperation, entries: Seq<FileEntry>) -> bool {
    frames.len() == entries.len() && forall|k: int|
        0 <= k < frames.len() ==> sets(#[trigger] frames[k], operation, entries[k])
}

/// Whether `frames` create each of the links, in order.
pub open spec fn link_frames(frames: Seq<Message>, entries: Seq<FileEntry>, targets: Seq<Seq<u8>>) -> bool {
    frames.len() == entries.len() && forall|k: int|
        0 <= k < frames.len() ==> links(#[trigger] frames[k], entries[k], targets[k])
}

fn metadata_frame(operation: MetadataOperation, entry: &FileEntry) -> (r: Message)
    ensures
        sets(r, operation, *entry),
{
    Message::Metadata {
        operation,
        path: crate::text::copy_bytes(entry.path.as_bytes()),
        target: Vec::new(),
        mode: entry.mode,
        mtime_ns: if entry.mtime == i64::MIN { -i64::MAX } else { entry.mtime },
    }
}

pub(crate) fn metadata_frames(operation: MetadataOperation, entries: &Vec<FileEntry>) -> (r: Vec<Message>)
    ensures
        frames_for(r@, operation, entries@),
{
    let mut out: Vec<Message> = Vec::new();
    for k in 0..entries.len()
        invariant
            out@.len() == k,
            forall|m: int| 0 <= m < k ==> sets(#[trigger] out@[m], operation, entries@[m]),
    {
        out.push(metadata_frame(operation, &entries[k]));
    }
    out
}

pub(crate) fn symlink_frames(entries: &Vec<FileEntry>, targets: &Vec<Vec<u8>>) -> (r: Vec<Message>)
    requires
        targets@.len() == entries@.len(),
    ensures
        link_frames(r@, entries@, targets@.map_values(|t: Vec<u8>| t@)),
{
    let mut out: Vec<Message> = Vec::new();
    for k in 0..entries.len()
        invariant
            targets@.len() == entries@.len(),
            out@.len() == k,
            forall|m: int|
                0 <= m < k ==> links(#[trigger] out@[m], entries@[m], targets@[m]@),
    {
        let entry = &entries[k];
        out.push(
            Message::Metadata {
                operation: MetadataOperation::CreateSymlink,
                path: crate::text::copy_bytes(entry.path.as_bytes()),
                target: crate::text::copy_bytes(targets[k].as_slice()),
                mode: entry.mode,
                mtime_ns: if entry.mtime == i64::MIN { -i64::MAX } else { entry.mtime },
            },
        );
    }
    out
}

pub(crate) fn delete_frame(entry: &FileEntry) -> (r: Message)
    ensures
        deletes(r, *entry),
{
    Message::Metadata {
        operation: MetadataOperation::Delete,
        path: crate::text::copy_bytes(entry.path.as_bytes()),
        target: Vec::new(),
        mode: 0,
        mtime_ns: 0,
    }
}

/// What the planner decided for a push, as the session sends it.
pub struct PushPlan {
    /// The directories to create: the new ones, then those whose type changed.
    pub directories: Vec<FileEntry>,
    /// The symbolic links to create: the new ones, then the changed ones.
    pub symlinks: Vec<FileEntry>,
    /// The target each link points at, read from the source.
    pub symlink_targets: Vec<Vec<u8>>,
    /// The files to transfer: the new ones, then the changed ones.
    pub files: Vec<FileEntry>,
    /// The destination's files, links and other entries the source lacks.
    pub extraneous: Vec<FileEntry>,
    /// The destination's directories the source lacks.
    pub extraneous_directories: Vec<FileEntry>,
    /// The files whose contents match and whose metadata alone is repaired.
    pub repairs: Vec<FileEntry>,
    /// The directories whose mode and time are set once everything else is
    /// done: new, changed, unchanged and drifted.
    pub finish: Vec<FileEntry>,
    /// How many of those directories had only their metadata drift.
    pub drifted_directories: u64,
    /// The mode and time of the source root, when it is a directory.
    pub root: Option<(u32, i64)>,
    /// How many files needed nothing.
    pub skipped: u64,
}

/// The counts a push ends with.
#[derive(Debug, Clone, Copy, PartialEq, Eq, Structural)]
pub struct PushReport {
    pub transferred_files: u64,
    pub transferred_bytes: u64,
    pub skipped_files: u64,
    pub warnings: u64,
    pub failed_entries: u64,
    pub deleted_entries: u64,
    pub metadata_repaired: u64,
}

/// Where a push stands after planning.
#[derive(Debug, Clone, Copy, PartialEq, Eq, Structural)]
pub enum PushPhase {
    /// Nothing sent yet.
    Start,
    /// Directory creations were sent; their acknowledgements are awaited.
    CreateDirectories,
    /// Link creations were sent; their acknowledgements are awaited.
    Symlinks,
    /// A batch of small files is being loaded from the source.
    Loading,
    /// A batch of small files was sent; its acknowledgements are awaited.
    BatchAcks,
    /// A file that fits in one segment is being read from the source.
    Reading,
    /// A single file's batch frame was sent; its acknowledgement is awaited.
    MediumBatchAck,
    /// A single file's segment was sent; its acknowledgement is awaited.
    MediumSegmentAck,
    /// A large file is being transferred in ranges.
    Large,
    /// A deletion was sent; its answer is awaited.
    Deleting,
    /// Metadata repairs were sent; their acknowledgements are awaited.
    Repairs,
    /// Directory metadata was sent; its acknowledgements are awaited.
    FinishDirectories,
    /// The root's metadata was sent; its acknowledgement is awaited.
    Root,
    /// The statistics were sent; their acknowledgement is awaited.
    Stats,
    /// The server's own statistics are awaited.
    ServerStats,
    /// The push is over.
    Done,
    /// The push failed.
    Failed,
}

/// What the embedding program hands the session.
pub enum PushEvent {
    /// Begin.
    Start,
    /// The server's next frame.
    Received(Message),
    /// The contents of the batch's files, in order, where they could be read.
    Loaded(Vec<Option<Vec<u8>>>),
    /// The contents of the file in hand, where it could be read.
    Read(Option<Vec<u8>>),
    /// The large file in hand was transferred, or could not be.
    LargeDone { transferred: bool },
}

/// What the session asks the embedding program to do next.
pub enum PushAction {
    /// Write these frames, numbered from `first_id` on, then hand back the
    /// server's next frame.
    Send { first_id: u64, frames: Vec<Message> },
    /// Hand back the server's next frame.
    Receive,
    /// Read the planned files at these indices, then hand back `Loaded`.
    Load { indices: Vec<usize> },
    /// Read planned file `index`, then hand back `Read`.
    Read { index: usize },
    /// Transfer planned file `index` in ranges, then hand back `LargeDone`.
    TransferLarge { index: usize },
    /// The push is over, with this report.
    Finish(PushReport),
    /// End the push with this error.
    Fail(ServerError),
}

/// The message number `count` numbers after `id`, saturating at the largest.
pub open spec fn skip_ids(id: u64, count: nat) -> u64 {
    if id + count > u64::MAX {
        u64::MAX
    } else {
        (id + count) as u64
    }
}

/// The statistics frame a push closes with.
pub open spec fn stats_message(report: PushReport) -> Message {
    Message::Stats {
        files: report.transferred_files,
        bytes: report.transferred_bytes,
        skipped: report.skipped_files,
        warnings: report.warnings,
        failed: report.failed_entries,
    }
}

/// `n` plus one, saturating at the largest.
pub open spec fn bump(n: u64) -> u64 {
    if n == u64::MAX {
        n
    } else {
        (n + 1) as u64
    }
}

/// The single-stream push from its plan to its statistics.
pub struct PushSession {
    phase: PushPhase,
    next_id: u64,
    dry_run: bool,
    delete: bool,
    creation: Vec<FileEntry>,
    symlinks: Vec<FileEntry>,
    targets: Vec<Vec<u8>>,
    files: Vec<FileEntry>,
    small: Vec<usize>,
    batches: Vec<std::ops::Range<usize>>,
    rest: Vec<usize>,
    deletions: Vec<FileEntry>,
    repairs: Vec<FileEntry>,
    finishing: Vec<FileEntry>,
    root: Option<(u32, i64)>,
    pending: usize,
    cursor: usize,
    batch: usize,
    held: Vec<u8>,
    held_batch: u64,
    report: PushReport,
}

/// The first stage at or after `from` with work to do: creating
/// directories (0), links (1), the batches of small files (2), the other
/// files one by one (3), deleting (4, only when deletion was asked for and no
/// entry failed), repairing metadata (5), finishing directories (6), the
/// root (7) and the statistics (8).
pub open spec fn first_stage(s: PushSession, failed: u64, from: nat) -> nat {
    if from <= 0 && s.creation().len() > 0 {
        0
    } else if from <= 1 && s.symlinks().len() > 0 {
        1
    } else if from <= 2 && s.batches().len() > 0 {
        2
    } else if from <= 3 && s.rest().len() > 0 {
        3
    } else if from <= 4 && s.delete_enabled() && failed == 0 && s.deletions().len() > 0 {
        4
    } else if from <= 5 && s.repairs().len() > 0 {
        5
    } else if from <= 6 && s.finishing().len() > 0 {
        6
    } else if from <= 7 && s.root() is Some {
        7
    } else {
        8
    }
}

/// The plan indices of the files of batch `b`.
pub open spec fn batch_indices(s: PushSession, b: int) -> Seq<usize> {
    s.small().subrange(s.batches()[b].start as int, s.batches()[b].end as int)
}

/// Whether the session asks for batch `b` to be loaded.
pub open spec fn loading(before: PushSession, b: int, after: PushSession, r: PushAction) -> bool {
    &&& r matches PushAction::Load { indices } && indices@ == batch_indices(before, b)
    &&& after.phase() == PushPhase::Loading && after.batch() == b && after.next_id() == before.next_id()
}

/// What the session does on starting other file `i`: one that fits in a
/// segment is read, a larger one handed over.
pub open spec fn started_file(before: PushSession, i: int, after: PushSession, r: PushAction) -> bool {
    let index = before.rest()[i];
    &&& after.cursor() == i && after.next_id() == before.next_id()
    &&& if before.files()[index as int].size <= MAX_DATA_SEGMENT {
        r == PushAction::Read { index } && after.phase() == PushPhase::Reading
    } else {
        r == PushAction::TransferLarge { index } && after.phase() == PushPhase::Large
    }
}

/// Whether two sessions carry the same plan.
pub open spec fn same_plan(a: PushSession, b: PushSession) -> bool {
    &&& a.delete_enabled() == b.delete_enabled()
    &&& a.creation() == b.creation()
    &&& a.symlinks() == b.symlinks()
    &&& a.targets() == b.targets()
    &&& a.files() == b.files()
    &&& a.small() == b.small()
    &&& a.batches() == b.batches()
    &&& a.rest() == b.rest()
    &&& a.deletions() == b.deletions()
    &&& a.repairs() == b.repairs()
    &&& a.finishing() == b.finishing()
    &&& a.root() == b.root()
}

/// Whether the session sent `frames` from its next number on and awaits
/// their acknowledgements in `phase`.
pub open spec fn sent_all(before: PushSession, after: PushSession, r: PushAction, frames: Seq<Message>, phase: PushPhase) -> bool {
    &&& r matches PushAction::Send { first_id, frames: f } && first_id == before.next_id() && f@ == frames
    &&& after.phase() == phase
    &&& after.pending() == frames.len()
    &&& after.next_id() == skip_ids(before.next_id(), frames.len())
}

/// Whether the session sent the single frame `m` and awaits its answer in
/// `phase`.
pub open spec fn sent_one(before: PushSession, after: PushSession, r: PushAction, m: spec_fn(Message) -> bool, phase: PushPhase) -> bool {
    &&& r matches PushAction::Send { first_id, frames } && first_id == before.next_id() && frames@.len() == 1
        && m(frames@[0])
    &&& after.phase() == phase
    &&& after.next_id() == bump(before.next_id())
}

/// No deletion is asked for once an entry has failed.
pub proof fn lemma_failure_keeps_everything(s: PushSession, failed: u64, from: nat)
    requires
        failed > 0,
    ensures
        first_stage(s, failed, from) != 4,
{
}

/// What the session does on entering the first stage at or after `from`
/// with `report` as its counts.
pub open spec fn entered(before: PushSession, report: PushReport, from: nat, after: PushSession, r: PushAction) -> bool {
    let stage = first_stage(before, report.failed_entries, from);
    &&& same_plan(before, after)
    &&& after.report() == report
    &&& stage == 0 ==> exists|f: Seq<Message>|
        frames_for(f, MetadataOperation::CreateDirectory, before.creation()) && #[trigger] sent_all(
            before,
            after,
            r,
            f,
            PushPhase::CreateDirectories,
        )
    &&& stage == 1 ==> exists|f: Seq<Message>|
        link_frames(f, before.symlinks(), before.targets()) && #[trigger] sent_all(
            before,
            after,
            r,
            f,
            PushPhase::Symlinks,
        )
    &&& stage == 2 ==> loading(before, 0, after, r)
    &&& stage == 3 ==> started_file(before, 0, after, r)
    &&& stage == 4 ==> sent_one(before, after, r, |m: Message| deletes(m, before.deletions()[0]), PushPhase::Deleting)
        && after.cursor() == 0
    &&& stage == 5 ==> exists|f: Seq<Message>|
        frames_for(f, MetadataOperation::SetFile, before.repairs()) && #[trigger] sent_all(
            before,
            after,
            r,
            f,
            PushPhase::Repairs,
        )
    &&& stage == 6 ==> exists|f: Seq<Message>|
        frames_for(f, MetadataOperation::SetDirectory, before.finishing()) && #[trigger] sent_all(
            before,
            after,
            r,
            f,
            PushPhase::FinishDirectories,
        )
    &&& stage == 7 ==> sent_one(
        before,
        after,
        r,
        |m: Message| sets_root(m, before.root()->0),
        PushPhase::Root,
    )
    &&& stage == 8 ==> sent_one(before, after, r, |m: Message| m == stats_message(report), PushPhase::Stats)
}

/// The stage after the one whose acknowledgements are drained in `phase`.
pub open spec fn stage_after(phase: PushPhase) -> nat {
    match phase {
        PushPhase::CreateDirectories => 1,
        PushPhase::Symlinks => 2,
        PushPhase::Repairs => 6,
        _ => 7,
    }
}

/// Whether `phase` awaits the acknowledgements of a batch of frames.
pub open spec fn draining(phase: PushPhase) -> bool {
    phase == PushPhase::CreateDirectories || phase == PushPhase::Symlinks || phase == PushPhase::BatchAcks
        || phase == PushPhase::Repairs || phase == PushPhase::FinishDirectories
}

/// What the session does once batch `batch` is done, with `report` as its
/// counts: load the next batch, or go on to the other files.
pub open spec fn batch_done(before: PushSession, report: PushReport, after: PushSession, r: PushAction) -> bool {
    let next = before.batch() + 1;
    if next < before.batches().len() {
        loading(before, next as int, after, r) && after.report() == report && same_plan(before, after)
    } else {
        entered(before, report, 3, after, r)
    }
}

/// What the session does once other file `cursor` is done, with `report`
/// as its counts: start the next one, or go on to the deletions.
pub open spec fn file_done(before: PushSession, report: PushReport, after: PushSession, r: PushAction) -> bool {
    let next = before.cursor() + 1;
    if next < before.rest().len() {
        started_file(before, next as int, after, r) && after.report() == report && same_plan(before, after)
    } else {
        entered(before, report, 4, after, r)
    }
}

/// The counts after a batch: its files sent, and those that could not be
/// read failed.
pub open spec fn after_batch(report: PushReport, sent_files: u64, sent_bytes: u64, failed: u64) -> PushReport {
    PushReport {
        transferred_files: sat_add(report.transferred_files, sent_files),
        transferred_bytes: sat_add(report.transferred_bytes, sent_bytes),
        failed_entries: sat_add(report.failed_entries, failed),
        ..report
    }
}

/// The counts after file `entry` was sent.
pub open spec fn sent_file(report: PushReport, entry: FileEntry) -> PushReport {
    PushReport {
        transferred_files: bump(report.transferred_files),
        transferred_bytes: sat_add(report.transferred_bytes, entry.size),
        ..report
    }
}

/// The counts after a file could not be sent.
pub open spec fn failed_file(report: PushReport) -> PushReport {
    PushReport { failed_entries: bump(report.failed_entries), ..report }
}

/// Whether `m` is the batch frame that announces `file` alone.
pub open spec fn single_batch(m: Message, file: FileEntry) -> bool {
    m matches Message::FileBatch { batch_id, entries } && batch_id == 1 && entries@.len() == 1 && record_for(
        entries@[0],
        file,
        file.path@,
    )
}

/// What the session does once a batch was loaded: send it and await its
/// acknowledgements, or, when nothing could be read, move on.
pub open spec fn loaded_step(before: PushSession, frames: Seq<Message>, report: PushReport, after: PushSession, r: PushAction) -> bool {
    if frames.len() == 0 {
        batch_done(before, report, after, r)
    } else {
        &&& r matches PushAction::Send { first_id, frames: f } && first_id == before.next_id() && f@ == frames
        &&& after.phase() == PushPhase::BatchAcks && after.pending() == frames.len()
        &&& after.next_id() == skip_ids(before.next_id(), frames.len())
        &&& after.report() == report && after.batch() == before.batch() && same_plan(before, after)
    }
}

/// Whether the session failed with the unexpected-message error `text`.
pub open spec fn refused(after: PushSession, r: PushAction, text: Seq<char>) -> bool {
    after.phase() == PushPhase::Failed && (r matches PushAction::Fail(e) && is_unexpected(e, text))
}

/// What the session does with an answer while draining acknowledgements:
/// each acknowledgement counts one frame off, the last one moves on, an
/// error frame is the server's error, and anything else is refused.
pub open spec fn drain_step(before: PushSession, m: Message, after: PushSession, r: PushAction) -> bool {
    match m {
        Message::Ack { .. } => if before.pending() == 1 {
            if before.phase() == PushPhase::BatchAcks {
                batch_done(before, before.report(), after, r)
            } else {
                entered(before, before.report(), stage_after(before.phase()), after, r)
            }
        } else {
            &&& r is Receive
            &&& after.phase() == before.phase() && after.pending() == before.pending() - 1
            &&& after.next_id() == before.next_id() && after.report() == before.report()
            &&& same_plan(before, after)
        },
        Message::Error { code, message, .. } => after.phase() == PushPhase::Failed && (r matches PushAction::Fail(
            e,
        ) && e matches ServerError::RemoteError { code: c, message: t } && c == code && t@ == message@),
        _ => refused(after, r, "expected Ack while draining pipelined writes, got "@ + m.spec_name()),
    }
}

/// The counts after the answer to a deletion: one more deleted entry, or,
/// for a failed deletion, one more failure and one more warning.
pub open spec fn after_deletion(report: PushReport, deleted: bool) -> PushReport {
    if deleted {
        PushReport { deleted_entries: bump(report.deleted_entries), ..report }
    } else {
        PushReport { failed_entries: bump(report.failed_entries), warnings: bump(report.warnings), ..report }
    }
}

/// What the session does with the answer to a deletion.
pub open spec fn deletion_step(before: PushSession, m: Message, after: PushSession, r: PushAction) -> bool {
    let next = before.cursor() + 1;
    let outcome = if m is Ack {
        Some(true)
    } else if m matches Message::Error { code, .. } && code == DELETE_FAILED_CODE {
        Some(false)
    } else {
        None
    };
    match outcome {
        Some(deleted) => {
            let report = after_deletion(before.report(), deleted);
            if next < before.deletions().len() {
                &&& sent_one(before, after, r, |f: Message| deletes(f, before.deletions()[next as int]), PushPhase::Deleting)
                &&& after.cursor() == next && after.report() == report && same_plan(before, after)
            } else {
                entered(before, report, 5, after, r)
            }
        },
        None => refused(after, r, "expected Ack or delete warning, got "@ + m.spec_name()),
    }
}

/// What the session does with one event.
pub open spec fn push_step(before: PushSession, event: PushEvent, after: PushSession, r: PushAction) -> bool {
    match event {
        PushEvent::Start => entered(before, before.report(), if before.dry_run() { 8 } else { 0 }, after, r),
        PushEvent::Loaded(loaded) => exists|frames: Seq<Message>, sent_files: u64, sent_bytes: u64, failed: u64|
            #[trigger] small_batch_of(
                before.files(),
                batch_indices(before, before.batch() as int),
                loaded@,
                before.next_id(),
                frames,
                sent_files,
                sent_bytes,
                failed,
            ) && loaded_step(before, frames, after_batch(before.report(), sent_files, sent_bytes, failed), after, r),
        PushEvent::Read(data) => {
            let file = before.files()[before.rest()[before.cursor() as int] as int];
            match data {
                None => file_done(before, failed_file(before.report()), after, r),
                Some(d) => {
                    &&& r matches PushAction::Send { first_id, frames } && first_id == before.next_id()
                        && frames@.len() == 1 && single_batch(frames@[0], file)
                    &&& after.phase() == PushPhase::MediumBatchAck && after.held() == d@ && after.held_batch()
                        == before.next_id()
                    &&& after.next_id() == bump(before.next_id()) && after.cursor() == before.cursor()
                    &&& after.report() == before.report() && same_plan(before, after)
                },
            }
        },
        PushEvent::LargeDone { transferred } => {
            let file = before.files()[before.rest()[before.cursor() as int] as int];
            file_done(
                before,
                if transferred {
                    sent_file(before.report(), file)
                } else {
                    failed_file(before.report())
                },
                after,
                r,
            )
        },
        PushEvent::Received(m) => if draining(before.phase()) {
            drain_step(before, m, after, r)
        } else if before.phase() == PushPhase::Deleting {
            deletion_step(before, m, after, r)
        } else if before.phase() == PushPhase::MediumBatchAck {
            if m is Ack {
                &&& r matches PushAction::Send { first_id, frames } && first_id == before.next_id()
                    && frames@.len() == 1 && segment_of(
                    frames@[0],
                    batch_file_id(before.held_batch(), 0),
                    0,
                    before.held(),
                )
                &&& after.phase() == PushPhase::MediumSegmentAck && after.next_id() == bump(before.next_id())
                &&& after.cursor() == before.cursor() && after.report() == before.report() && same_plan(before, after)
            } else {
                refused(after, r, "expected Ack for FileBatch, got "@ + m.spec_name())
            }
        } else if before.phase() == PushPhase::MediumSegmentAck {
            if m is Ack {
                file_done(
                    before,
                    sent_file(before.report(), before.files()[before.rest()[before.cursor() as int] as int]),
                    after,
                    r,
                )
            } else {
                refused(after, r, "expected Ack for FileSegment, got "@ + m.spec_name())
            }
        } else if before.phase() == PushPhase::Root {
            if m is Ack {
                entered(before, before.report(), 8, after, r)
            } else {
                refused(after, r, "expected Ack for root SetDirectory, got "@ + m.spec_name())
            }
        } else if before.phase() == PushPhase::Stats {
            if m is Ack {
                r is Receive && after.phase() == PushPhase::ServerStats && after.report() == before.report()
            } else {
                refused(after, r, "expected Ack for Stats, got "@ + m.spec_name())
            }
        } else {
            after.phase() == PushPhase::Done && r == PushAction::Finish(before.report())
        },
    }
}

pub(crate) fn unexpected_frame(prefix: &str, m: &Message) -> (e: ServerError)
    ensures
        is_unexpected(e, prefix@ + m.spec_name()),
{
    let mut text = String::new();
    push_str(&mut text, prefix);
    push_str(&mut text, m.name());
    ServerError::UnexpectedMessage(text)
}

impl PushSession {
    /// Where the push stands.
    pub closed spec fn phase(&self) -> PushPhase {
        self.phase
    }

    /// The next free message number.
    pub closed spec fn next_id(&self) -> u64 {
        self.next_id
    }

    /// Whether the push only reports what it would do.
    pub closed spec fn dry_run(&self) -> bool {
        self.dry_run
    }

    /// Whether extraneous destination entries are deleted.
    pub closed spec fn delete_enabled(&self) -> bool {
        self.delete
    }

    /// The directories to create, in the order they are created.
    pub closed spec fn creation(&self) -> Seq<FileEntry> {
        self.creation@
    }

    /// The links to create.
    pub closed spec fn symlinks(&self) -> Seq<FileEntry> {
        self.symlinks@
    }

    /// The target of each link.
    pub closed spec fn targets(&self) -> Seq<Seq<u8>> {
        self.targets@.map_values(|t: Vec<u8>| t@)
    }

    /// The files to transfer.
    pub closed spec fn files(&self) -> Seq<FileEntry> {
        self.files@
    }

    /// The indices of the small files, in order.
    pub closed spec fn small(&self) -> Seq<usize> {
        self.small@
    }

    /// The batches, as ranges of positions among the small files.
    pub closed spec fn batches(&self) -> Seq<std::ops::Range<usize>> {
        self.batches@
    }

    /// The indices of the other files, in order.
    pub closed spec fn rest(&self) -> Seq<usize> {
        self.rest@
    }

    /// The batch in hand.
    pub closed spec fn batch(&self) -> nat {
        self.batch as nat
    }

    /// The contents of the single file in hand.
    pub closed spec fn held(&self) -> Seq<u8> {
        self.held@
    }

    /// The message number the single file in hand was announced with.
    pub closed spec fn held_batch(&self) -> u64 {
        self.held_batch
    }

    /// The entries to delete, in the order they are deleted.
    pub closed spec fn deletions(&self) -> Seq<FileEntry> {
        self.deletions@
    }

    /// The files whose metadata is repaired.
    pub closed spec fn repairs(&self) -> Seq<FileEntry> {
        self.repairs@
    }

    /// The directories whose metadata is set at the end, in that order.
    pub closed spec fn finishing(&self) -> Seq<FileEntry> {
        self.finishing@
    }

    /// The source root's mode and time, when it is a directory.
    pub closed spec fn root(&self) -> Option<(u32, i64)> {
        self.root
    }

    /// How many acknowledgements are still awaited.
    pub closed spec fn pending(&self) -> nat {
        self.pending as nat
    }

    /// Which deletion is awaiting its answer.
    pub closed spec fn cursor(&self) -> nat {
        self.cursor as nat
    }

    /// The counts so far.
    pub closed spec fn report(&self) -> PushReport {
        self.report
    }

    /// The session is consistent.
    pub closed spec fn wf(&self) -> bool {
        &&& self.plan_wf()
        &&& draining(self.phase) ==> self.pending > 0
        &&& self.phase == PushPhase::Deleting ==> self.cursor < self.deletions@.len()
        &&& (self.phase == PushPhase::Loading || self.phase == PushPhase::BatchAcks) ==> self.batch
            < self.batches@.len()
        &&& (self.phase == PushPhase::Reading || self.phase == PushPhase::MediumBatchAck || self.phase
            == PushPhase::MediumSegmentAck || self.phase == PushPhase::Large) ==> self.cursor < self.rest@.len()
    }

    /// The plan the session carries is consistent.
    pub closed spec fn plan_wf(&self) -> bool {
        let n = self.small@.len() as int;
        &&& self.targets@.len() == self.symlinks@.len()
        &&& forall|a: int| 0 <= a < self.small@.len() ==> #[trigger] self.small@[a] < self.files@.len()
        &&& forall|a: int| 0 <= a < self.rest@.len() ==> #[trigger] self.rest@[a] < self.files@.len()
        &&& forall|k: int|
            0 <= k < self.batches@.len() ==> (#[trigger] self.batches@[k]).start < self.batches@[k].end <= n
                && self.batches@[k].end - self.batches@[k].start < 0x10000
    }

    /// Whether the session takes `event` where it stands.
    pub open spec fn accepts(&self, event: &PushEvent) -> bool {
        match *event {
            PushEvent::Start => self.phase() == PushPhase::Start,
            PushEvent::Loaded(loaded) => self.phase() == PushPhase::Loading && loaded@.len() == batch_indices(
                *self,
                self.batch() as int,
            ).len(),
            PushEvent::Read(_) => self.phase() == PushPhase::Reading,
            PushEvent::LargeDone { .. } => self.phase() == PushPhase::Large,
            PushEvent::Received(_) => draining(self.phase()) || self.phase() == PushPhase::Deleting
                || self.phase() == PushPhase::MediumBatchAck || self.phase() == PushPhase::MediumSegmentAck
                || self.phase() == PushPhase::Root || self.phase() == PushPhase::Stats || self.phase()
                == PushPhase::ServerStats,
        }
    }

    /// The push of `plan` once planning is done, numbering its frames from
    /// `next_id`: directories are created shortest path first, extraneous
    /// directories deleted after the other extraneous entries and longest
    /// path first, and directories finished longest path first, each in the
    /// order given among paths of one length. Files of at most
    /// `limits.small_file_limit` bytes are sent in greedy batches, the others
    /// one by one in plan order. A dry run sends nothing but its statistics.
    pub fn new(plan: PushPlan, limits: TransferLimits, dry_run: bool, delete: bool, next_id: u64) -> (r: PushSession)
        requires
            plan.symlink_targets@.len() == plan.symlinks@.len(),
            limits.max_batch_files < 0x10000,
        ensures
            r.wf(),
            r.phase() == PushPhase::Start,
            r.next_id() == next_id,
            r.dry_run() == dry_run,
            r.delete_enabled() == delete,
            arranged(r.creation(), plan.directories@, false),
            r.symlinks() == plan.symlinks@,
            r.targets() == plan.symlink_targets@.map_values(|t: Vec<u8>| t@),
            r.files() == plan.files@,
            indices_where(plan.files@, r.small(), |f: FileEntry| (f.size <= limits.small_file_limit) == true),
            indices_where(plan.files@, r.rest(), |f: FileEntry| (f.size <= limits.small_file_limit) == false),
            greedy_batches(
                r.small().map_values(|i: usize| plan.files@[i as int].size),
                r.batches(),
                limits.max_batch_files,
                limits.batch_target,
            ),
            r.deletions().len() == plan.extraneous@.len() + plan.extraneous_directories@.len(),
            r.deletions().subrange(0, plan.extraneous@.len() as int) == plan.extraneous@,
            arranged(
                r.deletions().subrange(plan.extraneous@.len() as int, r.deletions().len() as int),
                plan.extraneous_directories@,
                true,
            ),
            r.repairs() == plan.repairs@,
            arranged(r.finishing(), plan.finish@, true),
            r.root() == plan.root,
            r.report() == (PushReport {
                transferred_files: 0,
                transferred_bytes: 0,
                skipped_files: plan.skipped,
                warnings: 0,
                failed_entries: 0,
                deleted_entries: 0,
                metadata_repaired: if dry_run {
                    0
                } else if plan.repairs@.len() + plan.drifted_directories > u64::MAX {
                    u64::MAX
                } else {
                    (plan.repairs@.len() + plan.drifted_directories) as u64
                },
            }),
    {
        let creation = arrange(plan.directories.as_slice(), false);
        let finishing = arrange(plan.finish.as_slice(), true);
        let mut doomed_directories = arrange(plan.extraneous_directories.as_slice(), true);
        let ghost doomed = doomed_directories@;
        let mut deletions = plan.extraneous;
        let ghost first = deletions@;
        deletions.append(&mut doomed_directories);
        let repaired = (plan.repairs.len() as u64).saturating_add(plan.drifted_directories);
        proof {
            assert(deletions@.subrange(0, first.len() as int) =~= first);
            assert(deletions@.subrange(first.len() as int, deletions@.len() as int) =~= doomed);
        }
        let small = size_indices(&plan.files, limits.small_file_limit, true);
        let rest = size_indices(&plan.files, limits.small_file_limit, false);
        let mut small_files: Vec<FileEntry> = Vec::new();
        for k in 0..small.len()
            invariant
                forall|a: int| 0 <= a < small@.len() ==> #[trigger] small@[a] < plan.files@.len(),
                small_files@.len() == k,
                forall|m: int| 0 <= m < k ==> (#[trigger] small_files@[m]).size == plan.files@[small@[m] as int].size,
        {
            small_files.push(plan.files[small[k]].clone());
        }
        let batches = plan_small_file_batches(small_files.as_slice(), limits.max_batch_files, limits.batch_target);
        let ghost sizes = small@.map_values(|i: usize| plan.files@[i as int].size);
        proof {
            assert(file_sizes(small_files@) =~= sizes);
            assert forall|k: int| 0 <= k < batches@.len() implies (#[trigger] batches@[k]).start < batches@[k].end
                <= small@.len() && batches@[k].end - batches@[k].start < 0x10000 by {
                lemma_batches_within(sizes, batches@, limits.max_batch_files, limits.batch_target, k);
            }
        }
        PushSession {
            phase: PushPhase::Start,
            next_id,
            dry_run,
            delete,
            creation,
            symlinks: plan.symlinks,
            targets: plan.symlink_targets,
            files: plan.files,
            small,
            batches,
            rest,
            batch: 0,
            held: Vec::new(),
            held_batch: 0,
            deletions,
            repairs: plan.repairs,
            finishing,
            root: plan.root,
            pending: 0,
            cursor: 0,
            report: PushReport {
                transferred_files: 0,
                transferred_bytes: 0,
                skipped_files: plan.skipped,
                warnings: 0,
                failed_entries: 0,
                deleted_entries: 0,
                metadata_repaired: if dry_run { 0 } else { repaired },
            },
        }
    }

    /// Where the push stands.
    pub fn stage(&self) -> (r: PushPhase)
        ensures
            r == self.phase(),
    {
        self.phase
    }

    /// The next free message number.
    pub fn next_message_id(&self) -> (r: u64)
        ensures
            r == self.next_id(),
    {
        self.next_id
    }

    fn send_all(&mut self, frames: Vec<Message>, phase: PushPhase) -> (r: PushAction)
        ensures
            r matches PushAction::Send { first_id, frames: f } && first_id == old(self).next_id() && f@
                == frames@,
            final(self).phase == phase,
            final(self).pending == frames@.len(),
            final(self).next_id == skip_ids(old(self).next_id, frames@.len()),
            final(self).report == old(self).report,
            final(self).cursor == old(self).cursor,
            final(self).dry_run == old(self).dry_run,
            final(self).targets == old(self).targets,
            final(self).symlinks == old(self).symlinks,
            final(self).deletions == old(self).deletions,
            final(self).files == old(self).files,
            final(self).small == old(self).small,
            final(self).batches == old(self).batches,
            final(self).rest == old(self).rest,
            final(self).batch == old(self).batch,
            final(self).held == old(self).held,
            final(self).held_batch == old(self).held_batch,
            same_plan(*old(self), *final(self)),
    {
        let first_id = self.next_id;
        self.next_id = self.next_id.saturating_add(frames.len() as u64);
        self.pending = frames.len();
        self.phase = phase;
        PushAction::Send { first_id, frames }
    }

    fn send_one(&mut self, frame: Message, phase: PushPhase) -> (r: PushAction)
        ensures
            r matches PushAction::Send { first_id, frames } && first_id == old(self).next_id()
                && frames@ == seq![frame],
            final(self).phase == phase,
            final(self).next_id == bump(old(self).next_id),
            final(self).report == old(self).report,
            final(self).pending == old(self).pending,
            final(self).cursor == old(self).cursor,
            final(self).dry_run == old(self).dry_run,
            final(self).targets == old(self).targets,
            final(self).symlinks == old(self).symlinks,
            final(self).deletions == old(self).deletions,
            final(self).files == old(self).files,
            final(self).small == old(self).small,
            final(self).batches == old(self).batches,
            final(self).rest == old(self).rest,
            final(self).batch == old(self).batch,
            final(self).held == old(self).held,
            final(self).held_batch == old(self).held_batch,
            same_plan(*old(self), *final(self)),
    {
        let first_id = self.next_id;
        self.next_id = self.next_id.saturating_add(1);
        self.phase = phase;
        let mut frames: Vec<Message> = Vec::new();
        frames.push(frame);
        PushAction::Send { first_id, frames }
    }

    fn fail(&mut self, e: ServerError) -> (r: PushAction)
        requires
            old(self).plan_wf(),
        ensures
            r == PushAction::Fail(e),
            final(self).phase == PushPhase::Failed,
            final(self).wf(),
    {
        self.phase = PushPhase::Failed;
        PushAction::Fail(e)
    }

    fn load(&mut self, b: usize) -> (r: PushAction)
        requires
            old(self).plan_wf(),
            b < old(self).batches@.len(),
        ensures
            final(self).wf(),
            loading(*old(self), b as int, *final(self), r),
            final(self).report == old(self).report,
            same_plan(*old(self), *final(self)),
    {
        let start = self.batches[b].start;
        let end = self.batches[b].end;
        let mut indices: Vec<usize> = Vec::new();
        let mut k = start;
        while k < end
            invariant
                self.plan_wf(),
                b < self.batches@.len(),
                start == self.batches@[b as int].start,
                end == self.batches@[b as int].end,
                start <= k <= end,
                end <= self.small@.len(),
                indices@ == self.small@.subrange(start as int, k as int),
            decreases end - k,
        {
            indices.push(self.small[k]);
            k = k + 1;
            assert(indices@ =~= self.small@.subrange(start as int, k as int));
        }
        self.batch = b;
        self.phase = PushPhase::Loading;
        PushAction::Load { indices }
    }

    fn start_file(&mut self, i: usize) -> (r: PushAction)
        requires
            old(self).plan_wf(),
            i < old(self).rest@.len(),
        ensures
            final(self).wf(),
            started_file(*old(self), i as int, *final(self), r),
            final(self).report == old(self).report,
            same_plan(*old(self), *final(self)),
    {
        self.cursor = i;
        let index = self.rest[i];
        if self.files[index].size <= MAX_DATA_SEGMENT as u64 {
            self.phase = PushPhase::Reading;
            PushAction::Read { index }
        } else {
            self.phase = PushPhase::Large;
            PushAction::TransferLarge { index }
        }
    }

    fn enter(&mut self, from: u8, report: PushReport) -> (r: PushAction)
        requires
            old(self).plan_wf(),
        ensures
            final(self).wf(),
            entered(*old(self), report, from as nat, *final(self), r),
    {
        self.report = report;
        let ghost before = *old(self);
        if from <= 0 && self.creation.len() > 0 {
            let frames = metadata_frames(MetadataOperation::CreateDirectory, &self.creation);
            let ghost f = frames@;
            let r = self.send_all(frames, PushPhase::CreateDirectories);
            assert(sent_all(before, *self, r, f, PushPhase::CreateDirectories));
            return r;
        }
        if from <= 1 && self.symlinks.len() > 0 {
            let frames = symlink_frames(&self.symlinks, &self.targets);
            let ghost f = frames@;
            let r = self.send_all(frames, PushPhase::Symlinks);
            assert(sent_all(before, *self, r, f, PushPhase::Symlinks));
            return r;
        }
        if from <= 2 && self.batches.len() > 0 {
            return self.load(0);
        }
        if from <= 3 && self.rest.len() > 0 {
            return self.start_file(0);
        }
        if from <= 4 && self.delete && self.report.failed_entries == 0 && self.deletions.len() > 0 {
            let frame = delete_frame(&self.deletions[0]);
            self.cursor = 0;
            return self.send_one(frame, PushPhase::Deleting);
        }
        if from <= 5 && self.repairs.len() > 0 {
            let frames = metadata_frames(MetadataOperation::SetFile, &self.repairs);
            let ghost f = frames@;
            let r = self.send_all(frames, PushPhase::Repairs);
            assert(sent_all(before, *self, r, f, PushPhase::Repairs));
            return r;
        }
        if from <= 6 && self.finishing.len() > 0 {
            let frames = metadata_frames(MetadataOperation::SetDirectory, &self.finishing);
            let ghost f = frames@;
            let r = self.send_all(frames, PushPhase::FinishDirectories);
            assert(sent_all(before, *self, r, f, PushPhase::FinishDirectories));
            return r;
        }
        if from <= 7 {
            if let Some((mode, mtime_ns)) = self.root {
                let frame = Message::Metadata {
                    operation: MetadataOperation::SetDirectory,
                    path: Vec::new(),
                    target: Vec::new(),
                    mode,
                    mtime_ns,
                };
                return self.send_one(frame, PushPhase::Root);
            }
        }
        let report = self.report;
        let stats = Message::Stats {
            files: report.transferred_files,
            bytes: report.transferred_bytes,
            skipped: report.skipped_files,
            warnings: report.warnings,
            failed: report.failed_entries,
        };
        self.send_one(stats, PushPhase::Stats)
    }

    fn drain(&mut self, m: Message) -> (r: PushAction)
        requires
            old(self).wf(),
            draining(old(self).phase()),
        ensures
            final(self).wf(),
            drain_step(*old(self), m, *final(self), r),
    {
        match m {
            Message::Ack { .. } => {
                if self.pending == 1 {
                    if self.phase == PushPhase::BatchAcks {
                        return self.next_batch(self.report);
                    }
                    let stage: u8 = match self.phase {
                        PushPhase::CreateDirectories => 1,
                        PushPhase::Symlinks => 2,
                        PushPhase::Repairs => 6,
                        _ => 7,
                    };
                    self.enter(stage, self.report)
                } else {
                    self.pending = self.pending - 1;
                    PushAction::Receive
                }
            },
            Message::Error { code, message, .. } => self.fail(ServerError::RemoteError { code, message }),
            other => {
                let e = unexpected_frame("expected Ack while draining pipelined writes, got ", &other);
                self.fail(e)
            },
        }
    }

    fn send_batch(&mut self, loaded: Vec<Option<Vec<u8>>>) -> (r: PushAction)
        requires
            old(self).wf(),
            old(self).accepts(&PushEvent::Loaded(loaded)),
        ensures
            final(self).wf(),
            push_step(*old(self), PushEvent::Loaded(loaded), *final(self), r),
    {
        let start = self.batches[self.batch].start;
        let end = self.batches[self.batch].end;
        let mut positions: Vec<usize> = Vec::new();
        let mut k = start;
        while k < end
            invariant
                self.wf(),
                self.phase == PushPhase::Loading,
                start == self.batches@[self.batch as int].start,
                end == self.batches@[self.batch as int].end,
                start <= k <= end,
                end <= self.small@.len(),
                positions@ == self.small@.subrange(start as int, k as int),
            decreases end - k,
        {
            positions.push(self.small[k]);
            k = k + 1;
            assert(positions@ =~= self.small@.subrange(start as int, k as int));
        }
        let ghost given = loaded@;
        let batch = small_batch_frames(&self.files, positions.as_slice(), loaded, self.next_id);
        let report = PushReport {
            transferred_files: self.report.transferred_files.saturating_add(batch.sent_files),
            transferred_bytes: self.report.transferred_bytes.saturating_add(batch.sent_bytes),
            failed_entries: self.report.failed_entries.saturating_add(batch.failed),
            ..self.report
        };
        assert(small_batch_of(
            old(self).files(),
            batch_indices(*old(self), old(self).batch() as int),
            given,
            old(self).next_id(),
            batch.frames@,
            batch.sent_files,
            batch.sent_bytes,
            batch.failed,
        ));
        if batch.frames.len() == 0 {
            self.next_batch(report)
        } else {
            self.report = report;
            self.send_all(batch.frames, PushPhase::BatchAcks)
        }
    }

    fn next_batch(&mut self, report: PushReport) -> (r: PushAction)
        requires
            old(self).wf(),
            old(self).batch < old(self).batches@.len(),
        ensures
            final(self).wf(),
            batch_done(*old(self), report, *final(self), r),
    {
        let count = self.batches.len();
        let next = self.batch + 1;
        if next < count {
            self.report = report;
            self.load(next)
        } else {
            self.enter(3, report)
        }
    }

    fn next_file(&mut self, report: PushReport) -> (r: PushAction)
        requires
            old(self).wf(),
            old(self).cursor < old(self).rest@.len(),
        ensures
            final(self).wf(),
            file_done(*old(self), report, *final(self), r),
    {
        let count = self.rest.len();
        let next = self.cursor + 1;
        if next < count {
            self.report = report;
            self.start_file(next)
        } else {
            self.enter(4, report)
        }
    }

    fn answer_deletion(&mut self, m: Message) -> (r: PushAction)
        requires
            old(self).wf(),
            old(self).phase() == PushPhase::Deleting,
        ensures
            final(self).wf(),
            deletion_step(*old(self), m, *final(self), r),
    {
        let cursor = self.cursor;
        let count = self.deletions.len();
        assert(cursor < count);
        let mut report = self.report;
        match expect_ack_or_delete_warning(m) {
            Ok(None) => {
                report.deleted_entries = report.deleted_entries.saturating_add(1);
            },
            Ok(Some(_warning)) => {
                report.failed_entries = report.failed_entries.saturating_add(1);
                report.warnings = report.warnings.saturating_add(1);
            },
            Err(e) => {
                return self.fail(e);
            },
        }
        let next = cursor + 1;
        if next < count {
            let frame = delete_frame(&self.deletions[next]);
            self.cursor = next;
            self.report = report;
            self.send_one(frame, PushPhase::Deleting)
        } else {
            self.enter(5, report)
        }
    }

    /// Takes one event and says what to do next; see `push_step` for what
    /// each phase does with each event.
    pub fn on_event(&mut self, event: PushEvent) -> (r: PushAction)
        requires
            old(self).wf(),
            old(self).accepts(&event),
        ensures
            final(self).wf(),
            push_step(*old(self), event, *final(self), r),
    {
        match event {
            PushEvent::Start => {
                if self.dry_run {
                    self.enter(8, self.report)
                } else {
                    self.enter(0, self.report)
                }
            },
            PushEvent::Loaded(loaded) => self.send_batch(loaded),
            PushEvent::Read(data) => match data {
                None => {
                    let report = PushReport {
                        failed_entries: self.report.failed_entries.saturating_add(1),
                        ..self.report
                    };
                    self.next_file(report)
                },
                Some(d) => {
                    let index = self.rest[self.cursor];
                    let mut entries: Vec<EntryRecord> = Vec::new();
                    entries.push(entry_record_from_file_entry(&self.files[index]));
                    self.held = d;
                    self.held_batch = self.next_id;
                    self.send_one(Message::FileBatch { batch_id: 1, entries }, PushPhase::MediumBatchAck)
                },
            },
            PushEvent::LargeDone { transferred } => {
                let size = self.files[self.rest[self.cursor]].size;
                let report = if transferred {
                    PushReport {
                        transferred_files: self.report.transferred_files.saturating_add(1),
                        transferred_bytes: self.report.transferred_bytes.saturating_add(size),
                        ..self.report
                    }
                } else {
                    PushReport { failed_entries: self.report.failed_entries.saturating_add(1), ..self.report }
                };
                self.next_file(report)
            },
            PushEvent::Received(m) => {
                match self.phase {
                    PushPhase::CreateDirectories | PushPhase::Symlinks | PushPhase::BatchAcks
                    | PushPhase::Repairs | PushPhase::FinishDirectories => self.drain(m),
                    PushPhase::Deleting => self.answer_deletion(m),
                    PushPhase::MediumBatchAck => match m {
                        Message::Ack { .. } => {
                            let mut data: Vec<u8> = Vec::new();
                            std::mem::swap(&mut data, &mut self.held);
                            let digest = blake3_digest(data.as_slice());
                            let file_id = (self.held_batch << 16u64) | 0u64;
                            let frame = Message::FileSegment { file_id, offset: 0, digest, data };
                            self.send_one(frame, PushPhase::MediumSegmentAck)
                        },
                        other => {
                            let e = unexpected_frame("expected Ack for FileBatch, got ", &other);
                            self.fail(e)
                        },
                    },
                    PushPhase::MediumSegmentAck => match m {
                        Message::Ack { .. } => {
                            let size = self.files[self.rest[self.cursor]].size;
                            let report = PushReport {
                                transferred_files: self.report.transferred_files.saturating_add(1),
                                transferred_bytes: self.report.transferred_bytes.saturating_add(size),
                                ..self.report
                            };
                            self.next_file(report)
                        },
                        other => {
                            let e = unexpected_frame("expected Ack for FileSegment, got ", &other);
                            self.fail(e)
                        },
                    },
                    PushPhase::Root => match m {
                        Message::Ack { .. } => self.enter(8, self.report),
                        other => {
                            let e = unexpected_frame("expected Ack for root SetDirectory, got ", &other);
                            self.fail(e)
                        },
                    },
                    PushPhase::Stats => match m {
                        Message::Ack { .. } => {
                            self.phase = PushPhase::ServerStats;
                            PushAction::Receive
                        },
                        other => {
                            let e = unexpected_frame("expected Ack for Stats, got ", &other);
                            self.fail(e)
                        },
                    },
                    _ => {
                        self.phase = PushPhase::Done;
                        PushAction::Finish(self.report)
                    },
                }
            },
        }
    }
}

} // verus!
