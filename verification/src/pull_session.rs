//! The client end of a single-stream pull once its plan is known: the links
//! it asks the source for, the small files it requests in batches and the
//! others one by one, the local finishing it hands over, and the statistics
//! it closes with.
//!
//! Every frame the pull sends and every answer it accepts is decided here;
//! the embedding program writes the frames, reads the answers, and does the
//! local work (creating links, writing files, finishing directories and
//! deleting) that the session asks for.

use vstd::prelude::*;
use crate::batching::{file_sizes, greedy_batches, plan_small_file_batches};
use crate::entries::{entry_record_from_file_entry, identity_fingerprint, protocol_kind_of, saturated_nanos};
use crate::error::ServerError;
use crate::protocol::{EntryRecord, Message, MetadataOperation, MAX_DATA_SEGMENT};
use crate::push_session::bump;
use crate::scan::FileEntry;
use crate::sink::listed;
use crate::sink_session::{is_unexpected, ACK_FILE_SEGMENT};
use crate::text::push_str;
use crate::wire_path::{stripped, WirePath};

verus! {

/// The path the source knows an entry by: the destination path with the
/// source's name taken off the front when the pull placed it under that
/// name.
pub open spec fn remote_path(path: Seq<u8>, prefix: Seq<u8>) -> Seq<u8> {
    if prefix.len() == 0 {
        path
    } else {
        match stripped(path, prefix) {
            Some(rest) => rest,
            None => path,
        }
    }
}

/// Whether `rec` describes `entry` under the path `path`.
pub open spec fn record_for(rec: EntryRecord, entry: FileEntry, path: Seq<u8>) -> bool {
    &&& rec.path@ == path
    &&& rec.kind == protocol_kind_of(entry.kind)
    &&& rec.size == entry.size
    &&& rec.mode == entry.mode
    &&& rec.mtime_ns == saturated_nanos(entry.mtime as int)
    &&& rec.fingerprint@ == identity_fingerprint(entry.fingerprint.identity)
}

/// Whether `m` asks the source for the target of the link `entry`.
pub open spec fn requests_link(m: Message, entry: FileEntry, prefix: Seq<u8>) -> bool {
    m matches Message::Metadata { operation, path, target, mode, mtime_ns } && operation
        == MetadataOperation::CreateSymlink && path@ == remote_path(entry.path@, prefix) && target@.len() == 0
        && mode == entry.mode && mtime_ns == saturated_nanos(entry.mtime as int)
}

/// Whether `m` asks the source for the contents of `entries`, in order.
pub open spec fn requests_files(m: Message, entries: Seq<FileEntry>, prefix: Seq<u8>) -> bool {
    m matches Message::FileBatch { batch_id, entries: recs } && batch_id == 1 && recs@.len() == entries.len()
        && forall|k: int|
        0 <= k < entries.len() ==> record_for(#[trigger] recs@[k], entries[k], remote_path(entries[k].path@, prefix))
}

/// Whether `order` lists, in increasing order, exactly the indices of the
/// files `keep` holds of.
pub open spec fn indices_where(files: Seq<FileEntry>, order: Seq<usize>, keep: spec_fn(FileEntry) -> bool) -> bool {
    &&& forall|a: int| 0 <= a < order.len() ==> #[trigger] order[a] < files.len() && keep(files[order[a] as int])
    &&& forall|a: int, b: int| 0 <= a < b < order.len() ==> #[trigger] order[a] < #[trigger] order[b]
    &&& forall|j: int| 0 <= j < files.len() && keep(#[trigger] files[j]) ==> listed(order, j)
}

/// The knobs of a push's or pull's small-file batches.
#[derive(Debug, Clone, Copy)]
pub struct TransferLimits {
    /// Files of at most this many bytes are requested in batches.
    pub small_file_limit: u64,
    /// The most files one batch asks for.
    pub max_batch_files: usize,
    /// The bytes one batch aims at.
    pub batch_target: u64,
}

/// What the planner decided for a pull, as the session asks for it.
pub struct PullPlan {
    /// The links to create: the new ones, then the changed ones.
    pub symlinks: Vec<FileEntry>,
    /// The files to fetch: the new ones, then the changed ones.
    pub files: Vec<FileEntry>,
    /// How many files needed nothing.
    pub skipped: u64,
    /// How many entries were already refused while planning.
    pub failed_entries: u64,
}

/// The counts a pull ends with.
#[derive(Debug, Clone, Copy, PartialEq, Eq, Structural)]
pub struct PullReport {
    pub transferred_files: u64,
    pub transferred_bytes: u64,
    pub skipped_files: u64,
    pub warnings: u64,
    pub failed_entries: u64,
    pub deleted_entries: u64,
    pub metadata_repaired: u64,
}

/// Where a pull stands after planning.
#[derive(Debug, Clone, Copy, PartialEq, Eq, Structural)]
pub enum PullPhase {
    /// Nothing sent yet.
    Start,
    /// A link's target was asked for; the answer is awaited.
    LinkReply,
    /// A link is being created locally.
    Linking,
    /// A batch was asked for; the next file's segment is awaited.
    BatchSegment,
    /// A batched file is being written locally.
    BatchWriting,
    /// Every file of a batch was written; the batch's acknowledgement is awaited.
    BatchAck,
    /// A single file was asked for; its segment is awaited.
    SingleSegment,
    /// A single file is being written locally.
    SingleWriting,
    /// A single file was written; its batch's acknowledgement is awaited.
    SingleAck,
    /// A large file is being transferred.
    Large,
    /// Directories, repairs, the root and deletions are being done locally.
    Local,
    /// The statistics were sent; their acknowledgement is awaited.
    Stats,
    /// The server's own statistics are awaited.
    ServerStats,
    /// The pull is over.
    Done,
    /// The pull failed.
    Failed,
}

/// What the embedding program hands the session.
pub enum PullEvent {
    /// Begin.
    Start,
    /// The server's next frame.
    Received { message_id: u64, message: Message },
    /// The local work the session asked for is done.
    Applied,
    /// The large file the session handed over was transferred.
    LargeDone,
    /// The local finishing is done, with these counts.
    LocalDone { metadata_repaired: u64, deleted_entries: u64, failed_entries: u64, warnings: u64 },
}

/// What the session asks the embedding program to do next.
pub enum PullAction {
    /// Write these frames, numbered from `first_id` on, then hand back the
    /// server's next frame.
    Send { first_id: u64, frames: Vec<Message> },
    /// Hand back the server's next frame.
    Receive,
    /// Create planned link `index` pointing at `target`, then hand back `Applied`.
    CreateLink { index: usize, target: Vec<u8> },
    /// Write planned file `index` from `data`, checked against `digest`, and
    /// when `verify_readback` read the committed file back and check it
    /// again; then hand back `Applied`.
    Write { index: usize, data: Vec<u8>, digest: [u8; 32], verify_readback: bool },
    /// Transfer planned file `index` in ranges, then hand back `LargeDone`.
    TransferLarge { index: usize },
    /// Finish directories, repair metadata and the root, and delete
    /// extraneous entries when `delete`, then hand back the counts.
    FinishLocal { delete: bool },
    /// The pull is over, with this report.
    Finish(PullReport),
    /// End the pull with this error.
    Fail(ServerError),
}

/// The single-stream pull from its plan to its statistics.
pub struct PullSession {
    phase: PullPhase,
    next_id: u64,
    dry_run: bool,
    delete: bool,
    paranoid: bool,
    prefix: WirePath,
    links: Vec<FileEntry>,
    files: Vec<FileEntry>,
    small: Vec<usize>,
    batches: Vec<std::ops::Range<usize>>,
    rest: Vec<usize>,
    cursor: usize,
    batch: usize,
    segment_id: u64,
    report: PullReport,
}

/// `a + b`, saturating at the largest.
pub open spec fn sat_add(a: u64, b: u64) -> u64 {
    if a + b > u64::MAX {
        u64::MAX
    } else {
        (a + b) as u64
    }
}

/// The statistics frame a pull closes with.
pub open spec fn pull_stats(report: PullReport) -> Message {
    Message::Stats {
        files: report.transferred_files,
        bytes: report.transferred_bytes,
        skipped: report.skipped_files,
        warnings: report.warnings,
        failed: report.failed_entries,
    }
}

/// The acknowledgement of the segment that arrived as message `id`.
pub open spec fn segment_ack(id: u64) -> Message {
    Message::Ack { acknowledged_id: id, acknowledged_type: ACK_FILE_SEGMENT }
}

/// The counts after file `entry` was written.
pub open spec fn after_file(report: PullReport, entry: FileEntry) -> PullReport {
    PullReport {
        transferred_files: bump(report.transferred_files),
        transferred_bytes: sat_add(report.transferred_bytes, entry.size),
        ..report
    }
}

impl PullSession {
    /// Where the pull stands.
    pub closed spec fn phase(&self) -> PullPhase {
        self.phase
    }

    /// The next free message number.
    pub closed spec fn next_id(&self) -> u64 {
        self.next_id
    }

    /// Whether the pull only reports what it would do.
    pub closed spec fn dry_run(&self) -> bool {
        self.dry_run
    }

    /// Whether extraneous local entries are deleted.
    pub closed spec fn delete_enabled(&self) -> bool {
        self.delete
    }

    /// Whether written files are read back and checked.
    pub closed spec fn paranoid(&self) -> bool {
        self.paranoid
    }

    /// The source's name the destination paths were placed under, or nothing.
    pub closed spec fn prefix(&self) -> Seq<u8> {
        self.prefix@
    }

    /// The links to create.
    pub closed spec fn links(&self) -> Seq<FileEntry> {
        self.links@
    }

    /// The files to fetch.
    pub closed spec fn files(&self) -> Seq<FileEntry> {
        self.files@
    }

    /// The indices of the small files, in order.
    pub closed spec fn small(&self) -> Seq<usize> {
        self.small@
    }

    /// The batches, as ranges of positions among the small files.
    pub closed spec fn batches(&self) -> Seq<std::ops::Range<usize>> {
        self.batches@
    }

    /// The indices of the other files, in order.
    pub closed spec fn rest(&self) -> Seq<usize> {
        self.rest@
    }

    /// The link, small-file position or other-file position in hand.
    pub closed spec fn cursor(&self) -> nat {
        self.cursor as nat
    }

    /// The batch in hand.
    pub closed spec fn batch(&self) -> nat {
        self.batch as nat
    }

    /// The message number of the last segment received.
    pub closed spec fn segment_id(&self) -> u64 {
        self.segment_id
    }

    /// The counts so far.
    pub closed spec fn report(&self) -> PullReport {
        self.report
    }

    /// The files batch `b` asks for.
    pub open spec fn batch_files(&self, b: int) -> Seq<FileEntry> {
        let range = self.batches()[b];
        Seq::new(
            (range.end - range.start) as nat,
            |k: int| self.files()[self.small()[range.start + k] as int],
        )
    }

    /// The plan the session carries is consistent.
    pub closed spec fn plan_wf(&self) -> bool {
        let n = self.small@.len() as int;
        &&& forall|a: int| 0 <= a < self.small@.len() ==> #[trigger] self.small@[a] < self.files@.len()
        &&& forall|a: int| 0 <= a < self.rest@.len() ==> #[trigger] self.rest@[a] < self.files@.len()
        &&& self.batches@.len() > 0 ==> self.batches@.last().end == n
        &&& forall|k: int|
            0 <= k < self.batches@.len() ==> (#[trigger] self.batches@[k]).start < self.batches@[k].end <= n
    }

    /// The session is consistent.
    pub closed spec fn wf(&self) -> bool {
        &&& self.plan_wf()
        &&& (self.phase == PullPhase::LinkReply || self.phase == PullPhase::Linking) ==> self.cursor
            < self.links@.len()
        &&& (self.phase == PullPhase::BatchSegment || self.phase == PullPhase::BatchWriting
            || self.phase == PullPhase::BatchAck) ==> self.batch < self.batches@.len()
        &&& (self.phase == PullPhase::BatchSegment || self.phase == PullPhase::BatchWriting) ==> self.batches@[self.batch as int].start <= self.cursor
            < self.batches@[self.batch as int].end
        &&& (self.phase == PullPhase::SingleSegment || self.phase == PullPhase::SingleWriting
            || self.phase == PullPhase::SingleAck || self.phase == PullPhase::Large) ==> self.cursor
            < self.rest@.len()
    }

    /// Whether the session takes `event` where it stands.
    pub open spec fn accepts(&self, event: &PullEvent) -> bool {
        match *event {
            PullEvent::Start => self.phase() == PullPhase::Start,
            PullEvent::Applied => self.phase() == PullPhase::Linking || self.phase() == PullPhase::BatchWriting
                || self.phase() == PullPhase::SingleWriting,
            PullEvent::LargeDone => self.phase() == PullPhase::Large,
            PullEvent::LocalDone { .. } => self.phase() == PullPhase::Local,
            PullEvent::Received { .. } => self.phase() == PullPhase::LinkReply || self.phase()
                == PullPhase::BatchSegment || self.phase() == PullPhase::BatchAck || self.phase()
                == PullPhase::SingleSegment || self.phase() == PullPhase::SingleAck || self.phase()
                == PullPhase::Stats || self.phase() == PullPhase::ServerStats,
        }
    }
}

/// Whether two sessions carry the same plan.
pub open spec fn same_pull(a: PullSession, b: PullSession) -> bool {
    &&& a.delete_enabled() == b.delete_enabled()
    &&& a.paranoid() == b.paranoid()
    &&& a.prefix() == b.prefix()
    &&& a.links() == b.links()
    &&& a.files() == b.files()
    &&& a.small() == b.small()
    &&& a.batches() == b.batches()
    &&& a.rest() == b.rest()
}

/// Whether the session sent the single frame `m` and awaits the answer in
/// `phase`.
pub open spec fn asked(before: PullSession, after: PullSession, r: PullAction, m: spec_fn(Message) -> bool, phase: PullPhase) -> bool {
    &&& r matches PullAction::Send { first_id, frames } && first_id == before.next_id() && frames@.len() == 1
        && m(frames@[0])
    &&& after.phase() == phase
    &&& after.next_id() == bump(before.next_id())
}

/// The first stage at or after `from` with work to do: the links (0), the
/// batches of small files (1), the other files (2), the local finishing (3)
/// and the statistics (4).
pub open spec fn pull_stage(s: PullSession, from: nat) -> nat {
    if from <= 0 && s.links().len() > 0 {
        0
    } else if from <= 1 && s.batches().len() > 0 {
        1
    } else if from <= 2 && s.rest().len() > 0 {
        2
    } else if from <= 3 {
        3
    } else {
        4
    }
}

/// What the session does on starting other file `i`: a file that fits in
/// one segment is asked for as a batch of one, a larger one is handed over.
pub open spec fn started_rest(before: PullSession, i: int, after: PullSession, r: PullAction) -> bool {
    let index = before.rest()[i];
    let file = before.files()[index as int];
    &&& after.cursor() == i
    &&& if file.size <= MAX_DATA_SEGMENT {
        asked(
            before,
            after,
            r,
            |m: Message| requests_files(m, seq![file], before.prefix()),
            PullPhase::SingleSegment,
        )
    } else {
        r == PullAction::TransferLarge { index } && after.phase() == PullPhase::Large && after.next_id()
            == before.next_id()
    }
}

/// What the session does on entering the first stage at or after `from`
/// with `report` as its counts.
pub open spec fn pull_entered(before: PullSession, report: PullReport, from: nat, after: PullSession, r: PullAction) -> bool {
    let stage = pull_stage(before, from);
    &&& same_pull(before, after)
    &&& after.report() == report
    &&& stage == 0 ==> asked(
        before,
        after,
        r,
        |m: Message| requests_link(m, before.links()[0], before.prefix()),
        PullPhase::LinkReply,
    ) && after.cursor() == 0
    &&& stage == 1 ==> asked(
        before,
        after,
        r,
        |m: Message| requests_files(m, before.batch_files(0), before.prefix()),
        PullPhase::BatchSegment,
    ) && after.batch() == 0 && after.cursor() == before.batches()[0].start
    &&& stage == 2 ==> started_rest(before, 0, after, r)
    &&& stage == 3 ==> r == PullAction::FinishLocal {
        delete: before.delete_enabled() && report.failed_entries == 0,
    } && after.phase() == PullPhase::Local && after.next_id() == before.next_id()
    &&& stage == 4 ==> asked(before, after, r, |m: Message| m == pull_stats(report), PullPhase::Stats)
}

/// Local deletion is asked for only when it was enabled and no entry has
/// failed.
pub proof fn lemma_failure_keeps_everything(before: PullSession, report: PullReport, from: nat, after: PullSession, r: PullAction)
    requires
        pull_entered(before, report, from, after, r),
        r is FinishLocal,
    ensures
        r == (PullAction::FinishLocal { delete: before.delete_enabled() && report.failed_entries == 0 }),
{
}

/// Whether the pull failed with the unexpected-message error `text`.
pub open spec fn pull_refused(after: PullSession, r: PullAction, text: Seq<char>) -> bool {
    after.phase() == PullPhase::Failed && (r matches PullAction::Fail(e) && is_unexpected(e, text))
}

/// What the session does once link `cursor` is dealt with: ask for the
/// next link's target, or move on to the files.
pub open spec fn link_done(before: PullSession, after: PullSession, r: PullAction) -> bool {
    let next = before.cursor() + 1;
    if next < before.links().len() {
        &&& asked(
            before,
            after,
            r,
            |m: Message| requests_link(m, before.links()[next as int], before.prefix()),
            PullPhase::LinkReply,
        )
        &&& after.cursor() == next && after.report() == before.report() && same_pull(before, after)
    } else {
        pull_entered(before, before.report(), 1, after, r)
    }
}

/// What the session does once other file `cursor` is done, with `report`
/// as its counts.
pub open spec fn rest_done(before: PullSession, report: PullReport, after: PullSession, r: PullAction) -> bool {
    let next = before.cursor() + 1;
    if next < before.rest().len() {
        started_rest(before, next as int, after, r) && after.report() == report && same_pull(before, after)
    } else {
        pull_entered(before, report, 3, after, r)
    }
}

/// What the session does once a file was written: count it, acknowledge
/// its segment, and await what comes next in `phase`.
pub open spec fn acked_segment(before: PullSession, entry: FileEntry, after: PullSession, r: PullAction, phase: PullPhase) -> bool {
    &&& r matches PullAction::Send { first_id, frames } && first_id == before.next_id() && frames@ == seq![
        segment_ack(before.segment_id()),
    ]
    &&& after.next_id() == bump(before.next_id())
    &&& after.report() == after_file(before.report(), entry)
    &&& after.phase() == phase
    &&& same_pull(before, after)
}

/// What the session does with one event.
pub open spec fn pull_step(before: PullSession, event: PullEvent, after: PullSession, r: PullAction) -> bool {
    let phase = before.phase();
    match event {
        PullEvent::Start => pull_entered(before, before.report(), if before.dry_run() { 4 } else { 0 }, after, r),
        PullEvent::Applied => if phase == PullPhase::Linking {
            link_done(before, after, r)
        } else if phase == PullPhase::BatchWriting {
            let entry = before.files()[before.small()[before.cursor() as int] as int];
            let end = before.batches()[before.batch() as int].end;
            if before.cursor() + 1 < end {
                acked_segment(before, entry, after, r, PullPhase::BatchSegment) && after.cursor()
                    == before.cursor() + 1 && after.batch() == before.batch()
            } else {
                acked_segment(before, entry, after, r, PullPhase::BatchAck) && after.batch() == before.batch()
            }
        } else {
            let entry = before.files()[before.rest()[before.cursor() as int] as int];
            acked_segment(before, entry, after, r, PullPhase::SingleAck) && after.cursor() == before.cursor()
        },
        PullEvent::LargeDone => rest_done(
            before,
            after_file(before.report(), before.files()[before.rest()[before.cursor() as int] as int]),
            after,
            r,
        ),
        PullEvent::LocalDone { metadata_repaired, deleted_entries, failed_entries, warnings } => pull_entered(
            before,
            PullReport {
                metadata_repaired,
                deleted_entries,
                failed_entries: sat_add(before.report().failed_entries, failed_entries),
                warnings: sat_add(before.report().warnings, warnings),
                ..before.report()
            },
            4,
            after,
            r,
        ),
        PullEvent::Received { message_id, message } => if phase == PullPhase::LinkReply {
            match message {
                Message::Metadata { target, .. } => (r matches PullAction::CreateLink { index, target: t }
                    && index == before.cursor() && t@ == target@) && after.phase() == PullPhase::Linking
                    && after.cursor() == before.cursor() && after.next_id() == before.next_id() && after.report()
                    == before.report() && same_pull(before, after),
                _ => link_done(before, after, r),
            }
        } else if phase == PullPhase::BatchSegment || phase == PullPhase::SingleSegment {
            let index = if phase == PullPhase::BatchSegment {
                before.small()[before.cursor() as int]
            } else {
                before.rest()[before.cursor() as int]
            };
            match message {
                Message::FileSegment { data, digest, .. } => (r matches PullAction::Write {
                    index: i,
                    data: d,
                    digest: g,
                    verify_readback: v,
                } && i == index && d@ == data@ && g == digest && v == before.paranoid()) && after.phase() == (if phase
                    == PullPhase::BatchSegment {
                    PullPhase::BatchWriting
                } else {
                    PullPhase::SingleWriting
                }) && after.segment_id() == message_id && after.cursor() == before.cursor() && after.batch()
                    == before.batch() && after.next_id() == before.next_id() && after.report() == before.report()
                    && same_pull(before, after),
                _ => pull_refused(after, r, "expected FileSegment, got "@ + message.spec_name()),
            }
        } else if phase == PullPhase::BatchAck {
            if message is Ack {
                let next = before.batch() + 1;
                if next < before.batches().len() {
                    &&& asked(
                        before,
                        after,
                        r,
                        |m: Message| requests_files(m, before.batch_files(next as int), before.prefix()),
                        PullPhase::BatchSegment,
                    )
                    &&& after.batch() == next && after.cursor() == before.batches()[next as int].start
                    &&& after.report() == before.report() && same_pull(before, after)
                } else {
                    pull_entered(before, before.report(), 2, after, r)
                }
            } else {
                pull_refused(after, r, "expected Ack for FileBatch, got "@ + message.spec_name())
            }
        } else if phase == PullPhase::SingleAck {
            if message is Ack {
                rest_done(before, before.report(), after, r)
            } else {
                pull_refused(after, r, "expected Ack for FileBatch, got "@ + message.spec_name())
            }
        } else if phase == PullPhase::Stats {
            if message is Ack {
                r is Receive && after.phase() == PullPhase::ServerStats && after.report() == before.report()
            } else {
                pull_refused(after, r, "expected Ack for Stats, got "@ + message.spec_name())
            }
        } else {
            after.phase() == PullPhase::Done && r == PullAction::Finish(before.report())
        },
    }
}

/// Each batch of a greedy split is a non-empty run of the files.
pub(crate) proof fn lemma_batches_within(sizes: Seq<u64>, batches: Seq<std::ops::Range<usize>>, max_files: usize, target: u64, k: int)
    requires
        greedy_batches(sizes, batches, max_files, target),
        0 <= k < batches.len(),
    ensures
        batches[k].start < batches[k].end <= sizes.len(),
        batches[k].end - batches[k].start <= crate::batching::batch_capacity(max_files),
    decreases batches.len() - k,
{
    assert(crate::batching::batch_fits(sizes, batches[k].start as int, batches[k].end as int, max_files, target));
    if k + 1 < batches.len() {
        lemma_batches_within(sizes, batches, max_files, target, k + 1);
    }
}

pub(crate) fn size_indices(files: &Vec<FileEntry>, limit: u64, small: bool) -> (r: Vec<usize>)
    ensures
        indices_where(files@, r@, |f: FileEntry| (f.size <= limit) == small),
{
    let ghost keep = |f: FileEntry| (f.size <= limit) == small;
    let mut out: Vec<usize> = Vec::new();
    for k in 0..files.len()
        invariant
            keep == (|f: FileEntry| (f.size <= limit) == small),
            forall|a: int| 0 <= a < out@.len() ==> #[trigger] out@[a] < k && keep(files@[out@[a] as int]),
            forall|a: int, b: int| 0 <= a < b < out@.len() ==> #[trigger] out@[a] < #[trigger] out@[b],
            forall|j: int| 0 <= j < k && keep(#[trigger] files@[j]) ==> listed(out@, j),
    {
        if (files[k].size <= limit) == small {
            let ghost before = out@;
            out.push(k);
            proof {
                assert forall|j: int| 0 <= j < k + 1 && keep(#[trigger] files@[j]) implies listed(out@, j) by {
                    if j == k {
                        assert(out@[out@.len() - 1] == k);
                    } else {
                        let b = choose|b: int| 0 <= b < before.len() && before[b] == j;
                        assert(out@[b] == before[b]);
                    }
                }
            }
        }
    }
    out
}

fn unexpected_frame(prefix: &str, m: &Message) -> (e: ServerError)
    ensures
        is_unexpected(e, prefix@ + m.spec_name()),
{
    let mut text = String::new();
    push_str(&mut text, prefix);
    push_str(&mut text, m.name());
    ServerError::UnexpectedMessage(text)
}

impl PullSession {
    /// The pull of `plan` once planning is done, numbering its frames from
    /// `next_id`: files of at most `limits.small_file_limit` bytes are asked
    /// for in greedy batches, the others one by one in plan order, and
    /// paths are sent as the source knows them, without `prefix`. A dry run
    /// sends nothing but its statistics.
    pub fn new(plan: PullPlan, limits: TransferLimits, prefix: WirePath, dry_run: bool, delete: bool, paranoid: bool, next_id: u64) -> (r: PullSession)
        ensures
            r.wf(),
            r.phase() == PullPhase::Start,
            r.next_id() == next_id,
            r.dry_run() == dry_run,
            r.delete_enabled() == delete,
            r.paranoid() == paranoid,
            r.prefix() == prefix@,
            r.links() == plan.symlinks@,
            r.files() == plan.files@,
            indices_where(plan.files@, r.small(), |f: FileEntry| (f.size <= limits.small_file_limit) == true),
            indices_where(plan.files@, r.rest(), |f: FileEntry| (f.size <= limits.small_file_limit) == false),
            greedy_batches(
                r.small().map_values(|i: usize| plan.files@[i as int].size),
                r.batches(),
                limits.max_batch_files,
                limits.batch_target,
            ),
            r.report() == (PullReport {
                transferred_files: 0,
                transferred_bytes: 0,
                skipped_files: plan.skipped,
                warnings: 0,
                failed_entries: plan.failed_entries,
                deleted_entries: 0,
                metadata_repaired: 0,
            }),
    {
        let small = size_indices(&plan.files, limits.small_file_limit, true);
        let rest = size_indices(&plan.files, limits.small_file_limit, false);
        let mut small_files: Vec<FileEntry> = Vec::new();
        for k in 0..small.len()
            invariant
                forall|a: int| 0 <= a < small@.len() ==> #[trigger] small@[a] < plan.files@.len(),
                small_files@.len() == k,
                forall|m: int| 0 <= m < k ==> (#[trigger] small_files@[m]).size == plan.files@[small@[m] as int].size,
        {
            small_files.push(plan.files[small[k]].clone());
        }
        let batches = plan_small_file_batches(small_files.as_slice(), limits.max_batch_files, limits.batch_target);
        let ghost sizes = small@.map_values(|i: usize| plan.files@[i as int].size);
        proof {
            assert(file_sizes(small_files@) =~= sizes);
            assert forall|k: int| 0 <= k < batches@.len() implies (#[trigger] batches@[k]).start < batches@[k].end
                <= small@.len() by {
                lemma_batches_within(sizes, batches@, limits.max_batch_files, limits.batch_target, k);
            }
        }
        PullSession {
            phase: PullPhase::Start,
            next_id,
            dry_run,
            delete,
            paranoid,
            prefix,
            links: plan.symlinks,
            files: plan.files,
            small,
            batches,
            rest,
            cursor: 0,
            batch: 0,
            segment_id: 0,
            report: PullReport {
                transferred_files: 0,
                transferred_bytes: 0,
                skipped_files: plan.skipped,
                warnings: 0,
                failed_entries: plan.failed_entries,
                deleted_entries: 0,
                metadata_repaired: 0,
            },
        }
    }

    /// Where the pull stands.
    pub fn stage(&self) -> (r: PullPhase)
        ensures
            r == self.phase(),
    {
        self.phase
    }

    /// The next free message number.
    pub fn next_message_id(&self) -> (r: u64)
        ensures
            r == self.next_id(),
    {
        self.next_id
    }

    fn remote(&self, entry: &FileEntry) -> (r: Vec<u8>)
        ensures
            r@ == remote_path(entry.path@, self.prefix@),
    {
        if self.prefix.is_empty() {
            return crate::text::copy_bytes(entry.path.as_bytes());
        }
        match entry.path.strip_dir_prefix(&self.prefix) {
            Some(rest) => crate::text::copy_bytes(rest.as_bytes()),
            None => crate::text::copy_bytes(entry.path.as_bytes()),
        }
    }

    fn record(&self, entry: &FileEntry) -> (r: EntryRecord)
        ensures
            record_for(r, *entry, remote_path(entry.path@, self.prefix@)),
    {
        let mut rec = entry_record_from_file_entry(entry);
        rec.path = self.remote(entry);
        rec
    }

    fn request_link(&self, entry: &FileEntry) -> (r: Message)
        ensures
            requests_link(r, *entry, self.prefix@),
    {
        Message::Metadata {
            operation: MetadataOperation::CreateSymlink,
            path: self.remote(entry),
            target: Vec::new(),
            mode: entry.mode,
            mtime_ns: if entry.mtime == i64::MIN { -i64::MAX } else { entry.mtime },
        }
    }

    fn request_batch(&self, b: usize) -> (r: Message)
        requires
            self.plan_wf(),
            b < self.batches@.len(),
        ensures
            requests_files(r, self.batch_files(b as int), self.prefix@),
    {
        let start = self.batches[b].start;
        let end = self.batches[b].end;
        let ghost wanted = self.batch_files(b as int);
        let mut records: Vec<EntryRecord> = Vec::new();
        let mut k: usize = start;
        while k < end
            invariant
                self.plan_wf(),
                b < self.batches@.len(),
                start == self.batches@[b as int].start,
                end == self.batches@[b as int].end,
                start <= k <= end,
                end <= self.small@.len(),
                wanted == self.batch_files(b as int),
                records@.len() == k - start,
                forall|m: int|
                    0 <= m < records@.len() ==> record_for(
                        #[trigger] records@[m],
                        wanted[m],
                        remote_path(wanted[m].path@, self.prefix@),
                    ),
            decreases end - k,
        {
            let rec = self.record(&self.files[self.small[k]]);
            records.push(rec);
            k = k + 1;
        }
        Message::FileBatch { batch_id: 1, entries: records }
    }

    fn request_single(&self, index: usize) -> (r: Message)
        requires
            index < self.files@.len(),
        ensures
            requests_files(r, seq![self.files@[index as int]], self.prefix@),
    {
        let mut records: Vec<EntryRecord> = Vec::new();
        records.push(self.record(&self.files[index]));
        Message::FileBatch { batch_id: 1, entries: records }
    }

    fn send_one(&mut self, frame: Message, phase: PullPhase) -> (r: PullAction)
        ensures
            r matches PullAction::Send { first_id, frames } && first_id == old(self).next_id() && frames@
                == seq![frame],
            final(self).phase == phase,
            final(self).next_id == bump(old(self).next_id),
            final(self).report == old(self).report,
            final(self).cursor == old(self).cursor,
            final(self).batch == old(self).batch,
            final(self).segment_id == old(self).segment_id,
            final(self).dry_run == old(self).dry_run,
            final(self).small == old(self).small,
            final(self).rest == old(self).rest,
            final(self).batches == old(self).batches,
            final(self).files == old(self).files,
            final(self).links == old(self).links,
            same_pull(*old(self), *final(self)),
    {
        let first_id = self.next_id;
        self.next_id = self.next_id.saturating_add(1);
        self.phase = phase;
        let mut frames: Vec<Message> = Vec::new();
        frames.push(frame);
        PullAction::Send { first_id, frames }
    }

    fn fail(&mut self, e: ServerError) -> (r: PullAction)
        requires
            old(self).plan_wf(),
        ensures
            r == PullAction::Fail(e),
            final(self).phase == PullPhase::Failed,
            final(self).wf(),
    {
        self.phase = PullPhase::Failed;
        PullAction::Fail(e)
    }

    fn start_rest(&mut self, i: usize, report: PullReport) -> (r: PullAction)
        requires
            old(self).plan_wf(),
            i < old(self).rest@.len(),
        ensures
            final(self).wf(),
            started_rest(*old(self), i as int, *final(self), r),
            final(self).report() == report,
            same_pull(*old(self), *final(self)),
    {
        self.report = report;
        self.cursor = i;
        let index = self.rest[i];
        if self.files[index].size <= MAX_DATA_SEGMENT as u64 {
            let frame = self.request_single(index);
            self.send_one(frame, PullPhase::SingleSegment)
        } else {
            self.phase = PullPhase::Large;
            PullAction::TransferLarge { index }
        }
    }

    fn enter(&mut self, from: u8, report: PullReport) -> (r: PullAction)
        requires
            old(self).plan_wf(),
        ensures
            final(self).wf(),
            pull_entered(*old(self), report, from as nat, *final(self), r),
    {
        self.report = report;
        if from <= 0 && self.links.len() > 0 {
            let frame = self.request_link(&self.links[0]);
            self.cursor = 0;
            return self.send_one(frame, PullPhase::LinkReply);
        }
        if from <= 1 && self.batches.len() > 0 {
            let frame = self.request_batch(0);
            self.batch = 0;
            self.cursor = self.batches[0].start;
            return self.send_one(frame, PullPhase::BatchSegment);
        }
        if from <= 2 && self.rest.len() > 0 {
            return self.start_rest(0, report);
        }
        if from <= 3 {
            self.phase = PullPhase::Local;
            return PullAction::FinishLocal { delete: self.delete && report.failed_entries == 0 };
        }
        let stats = Message::Stats {
            files: report.transferred_files,
            bytes: report.transferred_bytes,
            skipped: report.skipped_files,
            warnings: report.warnings,
            failed: report.failed_entries,
        };
        self.send_one(stats, PullPhase::Stats)
    }

    fn next_link(&mut self) -> (r: PullAction)
        requires
            old(self).wf(),
            old(self).phase() == PullPhase::LinkReply || old(self).phase() == PullPhase::Linking,
        ensures
            final(self).wf(),
            link_done(*old(self), *final(self), r),
    {
        let count = self.links.len();
        let next = self.cursor + 1;
        if next < count {
            let frame = self.request_link(&self.links[next]);
            self.cursor = next;
            self.send_one(frame, PullPhase::LinkReply)
        } else {
            self.enter(1, self.report)
        }
    }

    fn next_rest(&mut self, report: PullReport) -> (r: PullAction)
        requires
            old(self).wf(),
            old(self).cursor < old(self).rest@.len(),
        ensures
            final(self).wf(),
            rest_done(*old(self), report, *final(self), r),
    {
        let count = self.rest.len();
        let next = self.cursor + 1;
        if next < count {
            self.start_rest(next, report)
        } else {
            self.enter(3, report)
        }
    }

    fn written(&mut self, index: usize, phase: PullPhase) -> (r: PullAction)
        requires
            old(self).wf(),
            index < old(self).files@.len(),
        ensures
            r matches PullAction::Send { first_id, frames } && first_id == old(self).next_id() && frames@
                == seq![segment_ack(old(self).segment_id())],
            final(self).next_id() == bump(old(self).next_id()),
            final(self).report() == after_file(old(self).report(), old(self).files()[index as int]),
            final(self).phase() == phase,
            final(self).cursor == old(self).cursor,
            final(self).batch == old(self).batch,
            final(self).plan_wf(),
            same_pull(*old(self), *final(self)),
    {
        let size = self.files[index].size;
        self.report.transferred_files = self.report.transferred_files.saturating_add(1);
        self.report.transferred_bytes = self.report.transferred_bytes.saturating_add(size);
        let ack = Message::Ack { acknowledged_id: self.segment_id, acknowledged_type: ACK_FILE_SEGMENT };
        self.send_one(ack, phase)
    }

    /// Takes one event and says what to do next; see `pull_step` for what
    /// each phase does with each event.
    pub fn on_event(&mut self, event: PullEvent) -> (r: PullAction)
        requires
            old(self).wf(),
            old(self).accepts(&event),
        ensures
            final(self).wf(),
            pull_step(*old(self), event, *final(self), r),
    {
        match event {
            PullEvent::Start => {
                if self.dry_run {
                    self.enter(4, self.report)
                } else {
                    self.enter(0, self.report)
                }
            },
            PullEvent::Applied => {
                match self.phase {
                    PullPhase::Linking => self.next_link(),
                    PullPhase::BatchWriting => {
                        let index = self.small[self.cursor];
                        let end = self.batches[self.batch].end;
                        if self.cursor + 1 < end {
                            let r = self.written(index, PullPhase::BatchSegment);
                            self.cursor = self.cursor + 1;
                            r
                        } else {
                            self.written(index, PullPhase::BatchAck)
                        }
                    },
                    _ => {
                        let index = self.rest[self.cursor];
                        self.written(index, PullPhase::SingleAck)
                    },
                }
            },
            PullEvent::LargeDone => {
                let size = self.files[self.rest[self.cursor]].size;
                let mut report = self.report;
                report.transferred_files = report.transferred_files.saturating_add(1);
                report.transferred_bytes = report.transferred_bytes.saturating_add(size);
                self.next_rest(report)
            },
            PullEvent::LocalDone { metadata_repaired, deleted_entries, failed_entries, warnings } => {
                let report = PullReport {
                    metadata_repaired,
                    deleted_entries,
                    failed_entries: self.report.failed_entries.saturating_add(failed_entries),
                    warnings: self.report.warnings.saturating_add(warnings),
                    ..self.report
                };
                self.enter(4, report)
            },
            PullEvent::Received { message_id, message } => {
                match self.phase {
                    PullPhase::LinkReply => match message {
                        Message::Metadata { target, .. } => {
                            self.phase = PullPhase::Linking;
                            PullAction::CreateLink { index: self.cursor, target }
                        },
                        _ => self.next_link(),
                    },
                    PullPhase::BatchSegment | PullPhase::SingleSegment => {
                        let batched = self.phase == PullPhase::BatchSegment;
                        let index = if batched {
                            self.small[self.cursor]
                        } else {
                            self.rest[self.cursor]
                        };
                        match message {
                            Message::FileSegment { data, digest, .. } => {
                                self.phase =
                                    if batched {
                                        PullPhase::BatchWriting
                                    } else {
                                        PullPhase::SingleWriting
                                    };
                                self.segment_id = message_id;
                                PullAction::Write { index, data, digest, verify_readback: self.paranoid }
                            },
                            other => {
                                let e = unexpected_frame("expected FileSegment, got ", &other);
                                self.fail(e)
                            },
                        }
                    },
                    PullPhase::BatchAck => match message {
                        Message::Ack { .. } => {
                            let count = self.batches.len();
                            let next = self.batch + 1;
                            if next < count {
                                let frame = self.request_batch(next);
                                self.batch = next;
                                self.cursor = self.batches[next].start;
                                self.send_one(frame, PullPhase::BatchSegment)
                            } else {
                                self.enter(2, self.report)
                            }
                        },
                        other => {
                            let e = unexpected_frame("expected Ack for FileBatch, got ", &other);
                            self.fail(e)
                        },
                    },
                    PullPhase::SingleAck => match message {
                        Message::Ack { .. } => self.next_rest(self.report),
                        other => {
                            let e = unexpected_frame("expected Ack for FileBatch, got ", &other);
                            self.fail(e)
                        },
                    },
                    PullPhase::Stats => match message {
                        Message::Ack { .. } => {
                            self.phase = PullPhase::ServerStats;
                            PullAction::Receive
                        },
                        other => {
                            let e = unexpected_frame("expected Ack for Stats, got ", &other);
                            self.fail(e)
                        },
                    },
                    _ => {
                        self.phase = PullPhase::Done;
                        PullAction::Finish(self.report)
                    },
                }
            },
        }
    }
}

} // verus!
