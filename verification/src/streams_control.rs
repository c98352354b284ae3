//! The control session of a multi-stream push once its plan is known: it
//! creates directories and links, prepares each large file and collects
//! what a resume already holds, hands the data to the streams, and after
//! their barrier commits the large files, repairs and restores metadata,
//! deletes, and closes with the statistics.
//!
//! Every frame the control session sends and every answer it accepts is
//! decided here; the embedding program writes the frames, reads the answers
//! and runs the data streams.

use vstd::prelude::*;
use crate::batching::{saturated, size_sum, file_sizes};
use crate::client_session::expect_ack_or_delete_warning;
use crate::data_session::prepares;
use crate::entries::entry_record_from_file_entry;
use crate::error::ServerError;
use crate::protocol::{ByteRange, Message, MetadataOperation, MAX_DATA_SEGMENT};
use crate::push_finish::{barrier_failure, ends_fit, finish_frames, fully_covered, LargeFileRanges};
use crate::pull_session::{indices_where, size_indices};
use crate::push_session::{
    arrange, arranged, bump, delete_frame, deletes, frames_for, link_frames, metadata_frames, sets_root, skip_ids,
    symlink_frames, unexpected_frame, PushPlan, PushReport,
};
use crate::scan::FileEntry;
use crate::sink_session::{is_unexpected, DELETE_FAILED_CODE};
use crate::text::utf8_lossy;

verus! {

/// Where the control session of a multi-stream push stands.
#[derive(Debug, Clone, Copy, PartialEq, Eq, Structural)]
pub enum ControlPhase {
    /// Nothing sent yet.
    Start,
    /// Directory creations were sent; their acknowledgements are awaited.
    CreateDirectories,
    /// Link creations were sent; their acknowledgements are awaited.
    Symlinks,
    /// A large file was prepared; the acknowledgement is awaited.
    PrepareAck,
    /// The prepared file's resume pages are being read.
    ResumePages,
    /// The data streams are running.
    Streams,
    /// A large file's finish was sent; its acknowledgement is awaited.
    Finishing,
    /// Metadata repairs were sent; their acknowledgements are awaited.
    Repairs,
    /// Directory metadata was sent; its acknowledgements are awaited.
    FinishDirectories,
    /// The root's metadata was sent; its acknowledgement is awaited.
    Root,
    /// A deletion was sent; its answer is awaited.
    Deleting,
    /// The statistics were sent; their acknowledgement is awaited.
    Stats,
    /// The server's own statistics are awaited.
    ServerStats,
    /// The push is over.
    Done,
    /// The push failed.
    Failed,
}

/// What the embedding program hands the control session.
pub enum ControlEvent {
    /// Begin.
    Start,
    /// The server's next frame on the control connection.
    Received(Message),
    /// The data streams finished: the ranges each large file was assigned,
    /// in the order the files were prepared, the digest each large file is
    /// finished with, and the small files the streams wrote.
    StreamsDone { assigned: Vec<Vec<ByteRange>>, digests: Vec<[u8; 32]>, small_files: u64, small_bytes: u64 },
}

/// What the control session asks the embedding program to do next.
pub enum ControlAction {
    /// Write these frames, numbered from `first_id` on, then hand back the
    /// server's next frame.
    Send { first_id: u64, frames: Vec<Message> },
    /// Hand back the server's next frame.
    Receive,
    /// Run the data streams for the planned files, with the large files'
    /// ids and resumed ranges as the session holds them, then hand back
    /// what they did.
    RunStreams,
    /// The push is over, with this report.
    Finish(PushReport),
    /// End the push with this error.
    Fail(ServerError),
}

/// The control session of a multi-stream push from its plan to its statistics.
pub struct StreamsControl {
    phase: ControlPhase,
    next_id: u64,
    dry_run: bool,
    delete: bool,
    creation: Vec<FileEntry>,
    symlinks: Vec<FileEntry>,
    targets: Vec<Vec<u8>>,
    files: Vec<FileEntry>,
    large: Vec<usize>,
    file_ids: Vec<u64>,
    verified: Vec<Vec<ByteRange>>,
    digests: Vec<[u8; 32]>,
    repairs: Vec<FileEntry>,
    finishing: Vec<FileEntry>,
    root: Option<(u32, i64)>,
    deletions: Vec<FileEntry>,
    pending: usize,
    cursor: usize,
    report: PushReport,
}

impl StreamsControl {
    /// Where the session stands.
    pub closed spec fn phase(&self) -> ControlPhase {
        self.phase
    }

    /// The next free message number.
    pub closed spec fn next_id(&self) -> u64 {
        self.next_id
    }

    /// Whether the push only reports what it would do.
    pub closed spec fn dry_run(&self) -> bool {
        self.dry_run
    }

    /// Whether extraneous destination entries are deleted.
    pub closed spec fn delete_enabled(&self) -> bool {
        self.delete
    }

    /// The directories to create, in the order they are created.
    pub closed spec fn creation(&self) -> Seq<FileEntry> {
        self.creation@
    }

    /// The links to create.
    pub closed spec fn symlinks(&self) -> Seq<FileEntry> {
        self.symlinks@
    }

    /// The target of each link.
    pub closed spec fn targets(&self) -> Seq<Seq<u8>> {
        self.targets@.map_values(|t: Vec<u8>| t@)
    }

    /// The files to transfer, in plan order.
    pub closed spec fn files(&self) -> Seq<FileEntry> {
        self.files@
    }

    /// The indices of the large files, in plan order.
    pub closed spec fn large_indices(&self) -> Seq<usize> {
        self.large@
    }

    /// The large files, in plan order.
    pub closed spec fn large(&self) -> Seq<FileEntry> {
        self.large@.map_values(|i: usize| self.files@[i as int])
    }

    /// The id each prepared large file was given.
    pub closed spec fn file_ids(&self) -> Seq<u64> {
        self.file_ids@
    }

    /// The ranges a resume found already verified, per prepared large file.
    pub closed spec fn verified(&self) -> Seq<Seq<ByteRange>> {
        self.verified@.map_values(|v: Vec<ByteRange>| v@)
    }

    /// The digest each large file is finished with.
    pub closed spec fn digests(&self) -> Seq<[u8; 32]> {
        self.digests@
    }

    /// The files whose metadata is repaired.
    pub closed spec fn repairs(&self) -> Seq<FileEntry> {
        self.repairs@
    }

    /// The directories whose metadata is set at the end, in that order.
    pub closed spec fn finishing(&self) -> Seq<FileEntry> {
        self.finishing@
    }

    /// The source root's mode and time, when it is a directory.
    pub closed spec fn root(&self) -> Option<(u32, i64)> {
        self.root
    }

    /// The entries to delete, in the order they are deleted.
    pub closed spec fn deletions(&self) -> Seq<FileEntry> {
        self.deletions@
    }

    /// How many acknowledgements are still awaited.
    pub closed spec fn pending(&self) -> nat {
        self.pending as nat
    }

    /// The large file, finish or deletion in hand.
    pub closed spec fn cursor(&self) -> nat {
        self.cursor as nat
    }

    /// The counts so far.
    pub closed spec fn report(&self) -> PushReport {
        self.report
    }

    /// The session is consistent.
    pub closed spec fn wf(&self) -> bool {
        &&& self.targets@.len() == self.symlinks@.len()
        &&& forall|a: int| 0 <= a < self.large@.len() ==> #[trigger] self.large@[a] < self.files@.len()
        &&& self.verified@.len() == self.file_ids@.len()
        &&& self.file_ids@.len() <= self.large@.len()
        &&& (self.phase == ControlPhase::CreateDirectories || self.phase == ControlPhase::Symlinks
            || self.phase == ControlPhase::Repairs || self.phase == ControlPhase::FinishDirectories) ==> self.pending
            > 0
        &&& (self.phase == ControlPhase::PrepareAck || self.phase == ControlPhase::ResumePages) ==> self.cursor
            < self.large@.len() && self.file_ids@.len() == self.cursor + 1
        &&& self.phase == ControlPhase::Streams ==> self.file_ids@.len() == self.large@.len()
        &&& (self.phase == ControlPhase::Start || self.phase == ControlPhase::CreateDirectories || self.phase
            == ControlPhase::Symlinks) ==> self.file_ids@.len() == 0
        &&& (self.phase == ControlPhase::Repairs || self.phase == ControlPhase::FinishDirectories || self.phase
            == ControlPhase::Root || self.phase == ControlPhase::Deleting) ==> self.file_ids@.len()
            == self.large@.len()
        &&& self.phase == ControlPhase::Finishing ==> self.cursor < self.large@.len() && self.file_ids@.len()
            == self.large@.len() && self.digests@.len() == self.large@.len()
        &&& self.phase == ControlPhase::Deleting ==> self.cursor < self.deletions@.len()
    }

    /// Whether the session takes `event` where it stands.
    pub open spec fn accepts(&self, event: &ControlEvent) -> bool {
        match *event {
            ControlEvent::Start => self.phase() == ControlPhase::Start,
            ControlEvent::StreamsDone { assigned, digests, .. } => {
                &&& self.phase() == ControlPhase::Streams
                &&& assigned@.len() == self.large().len() && digests@.len() == self.large().len()
                &&& forall|i: int|
                    0 <= i < assigned@.len() ==> ends_fit(self.verified()[i] + (#[trigger] assigned@[i])@)
            },
            ControlEvent::Received(_) => self.phase() != ControlPhase::Start && self.phase()
                != ControlPhase::Streams && self.phase() != ControlPhase::Done && self.phase()
                != ControlPhase::Failed,
        }
    }
}

/// The first stage at or after `from` with work to do: creating
/// directories (0) and links (1), preparing large files (2), running the
/// streams (3), finishing large files (4), repairing metadata (5),
/// finishing directories (6), the root (7), deleting (8, only when deletion
/// was asked for and no entry failed) and the statistics (9).
pub open spec fn control_stage(s: StreamsControl, failed: u64, from: nat) -> nat {
    if from <= 0 && s.creation().len() > 0 {
        0
    } else if from <= 1 && s.symlinks().len() > 0 {
        1
    } else if from <= 2 && s.large().len() > 0 {
        2
    } else if from <= 3 {
        3
    } else if from <= 4 && s.large().len() > 0 {
        4
    } else if from <= 5 && s.repairs().len() > 0 {
        5
    } else if from <= 6 && s.finishing().len() > 0 {
        6
    } else if from <= 7 && s.root() is Some {
        7
    } else if from <= 8 && s.delete_enabled() && failed == 0 && s.deletions().len() > 0 {
        8
    } else {
        9
    }
}

/// No deletion is asked for once an entry has failed.
pub proof fn lemma_failure_keeps_everything(s: StreamsControl, failed: u64, from: nat)
    requires
        failed > 0,
    ensures
        control_stage(s, failed, from) != 8,
{
}

/// Whether two sessions carry the same plan.
pub open spec fn same_control(a: StreamsControl, b: StreamsControl) -> bool {
    &&& a.delete_enabled() == b.delete_enabled()
    &&& a.creation() == b.creation()
    &&& a.symlinks() == b.symlinks()
    &&& a.targets() == b.targets()
    &&& a.files() == b.files()
    &&& a.large_indices() == b.large_indices()
    &&& a.repairs() == b.repairs()
    &&& a.finishing() == b.finishing()
    &&& a.root() == b.root()
    &&& a.deletions() == b.deletions()
}

/// Whether the session sent `frames` from its next number on and awaits
/// their acknowledgements in `phase`.
pub open spec fn control_sent_all(before: StreamsControl, after: StreamsControl, r: ControlAction, frames: Seq<Message>, phase: ControlPhase) -> bool {
    &&& r matches ControlAction::Send { first_id, frames: f } && first_id == before.next_id() && f@ == frames
    &&& after.phase() == phase
    &&& after.pending() == frames.len()
    &&& after.next_id() == skip_ids(before.next_id(), frames.len())
}

/// Whether the session sent the single frame `m` and awaits the answer in
/// `phase`.
pub open spec fn control_sent(before: StreamsControl, after: StreamsControl, r: ControlAction, m: spec_fn(Message) -> bool, phase: ControlPhase) -> bool {
    &&& r matches ControlAction::Send { first_id, frames } && first_id == before.next_id() && frames@.len() == 1
        && m(frames@[0])
    &&& after.phase() == phase
    &&& after.next_id() == bump(before.next_id())
}

/// What the session does on preparing large file `i`: the file takes the
/// next number as its id, the prepare frame the one after.
pub open spec fn prepared(before: StreamsControl, i: int, after: StreamsControl, r: ControlAction) -> bool {
    let file_id = before.next_id();
    &&& r matches ControlAction::Send { first_id, frames } && first_id == bump(file_id) && frames@.len() == 1
        && prepares(frames@[0], file_id, before.large()[i])
    &&& after.phase() == ControlPhase::PrepareAck
    &&& after.next_id() == bump(bump(file_id))
    &&& after.cursor() == i
    &&& after.file_ids() == before.file_ids().push(file_id)
    &&& after.verified() == before.verified().push(Seq::empty())
}

/// Whether `m` finishes large file `i` with its id and digest.
pub open spec fn finishes(s: StreamsControl, m: Message, i: int) -> bool {
    m == Message::LargeFileFinish { file_id: s.file_ids()[i], digest: s.digests()[i] }
}

/// What the session does on entering the first stage at or after `from`
/// with `report` as its counts and `digests` as the large files' digests.
pub open spec fn control_entered(before: StreamsControl, report: PushReport, digests: Seq<[u8; 32]>, from: nat, after: StreamsControl, r: ControlAction) -> bool {
    let stage = control_stage(before, report.failed_entries, from);
    &&& same_control(before, after)
    &&& after.report() == report
    &&& stage != 2 ==> after.file_ids() == before.file_ids() && after.verified() == before.verified()
    &&& after.digests() == digests
    &&& stage == 0 ==> exists|f: Seq<Message>|
        frames_for(f, MetadataOperation::CreateDirectory, before.creation()) && #[trigger] control_sent_all(
            before,
            after,
            r,
            f,
            ControlPhase::CreateDirectories,
        )
    &&& stage == 1 ==> exists|f: Seq<Message>|
        link_frames(f, before.symlinks(), before.targets()) && #[trigger] control_sent_all(
            before,
            after,
            r,
            f,
            ControlPhase::Symlinks,
        )
    &&& stage == 2 ==> prepared(before, 0, after, r)
    &&& stage == 3 ==> r is RunStreams && after.phase() == ControlPhase::Streams && after.next_id()
        == before.next_id()
    &&& stage == 4 ==> control_sent(
        before,
        after,
        r,
        |m: Message| m == Message::LargeFileFinish { file_id: before.file_ids()[0], digest: digests[0] },
        ControlPhase::Finishing,
    )
        && after.cursor() == 0
    &&& stage == 5 ==> exists|f: Seq<Message>|
        frames_for(f, MetadataOperation::SetFile, before.repairs()) && #[trigger] control_sent_all(
            before,
            after,
            r,
            f,
            ControlPhase::Repairs,
        )
    &&& stage == 6 ==> exists|f: Seq<Message>|
        frames_for(f, MetadataOperation::SetDirectory, before.finishing()) && #[trigger] control_sent_all(
            before,
            after,
            r,
            f,
            ControlPhase::FinishDirectories,
        )
    &&& stage == 7 ==> control_sent(before, after, r, |m: Message| sets_root(m, before.root()->0), ControlPhase::Root)
    &&& stage == 8 ==> control_sent(
        before,
        after,
        r,
        |m: Message| deletes(m, before.deletions()[0]),
        ControlPhase::Deleting,
    ) && after.cursor() == 0
    &&& stage == 9 ==> control_sent(
        before,
        after,
        r,
        |m: Message| m == crate::push_session::stats_message(report),
        ControlPhase::Stats,
    )
}

/// Whether the session failed with the unexpected-message error `text`.
pub open spec fn control_refused(after: StreamsControl, r: ControlAction, text: Seq<char>) -> bool {
    after.phase() == ControlPhase::Failed && (r matches ControlAction::Fail(e) && is_unexpected(e, text))
}

/// The contents of each range list.
pub open spec fn range_views(lists: Seq<Vec<ByteRange>>) -> Seq<Seq<ByteRange>> {
    lists.map_values(|v: Vec<ByteRange>| v@)
}

/// Whether `files` are the large files at the barrier: each with its id,
/// path, size, resumed ranges and the ranges the streams were assigned.
pub open spec fn at_barrier(s: StreamsControl, assigned: Seq<Seq<ByteRange>>, files: Seq<LargeFileRanges>) -> bool {
    &&& files.len() == s.large().len()
    &&& forall|i: int|
        0 <= i < files.len() ==> {
            &&& (#[trigger] files[i]).file_id == s.file_ids()[i]
            &&& files[i].path@ == utf8_lossy(s.large()[i].path@)
            &&& files[i].size == s.large()[i].size
            &&& files[i].verified@ == s.verified()[i]
            &&& files[i].assigned@ == assigned[i]
        }
}

/// Whether every large file is covered by its resumed and assigned ranges.
pub open spec fn all_covered(s: StreamsControl, assigned: Seq<Seq<ByteRange>>) -> bool {
    forall|files: Seq<LargeFileRanges>|
        #[trigger] at_barrier(s, assigned, files) ==> forall|i: int|
            0 <= i < files.len() ==> fully_covered(#[trigger] files[i])
}

/// The counts once the streams are done: their small files, then every
/// large file.
pub open spec fn after_streams(report: PushReport, large: Seq<FileEntry>, small_files: u64, small_bytes: u64) -> PushReport {
    PushReport {
        transferred_files: saturated(small_files + large.len()) as u64,
        transferred_bytes: saturated(small_bytes + size_sum(file_sizes(large), 0, large.len() as int)) as u64,
        ..report
    }
}

/// The stage after the one whose acknowledgements are drained in `phase`.
pub open spec fn control_stage_after(phase: ControlPhase) -> nat {
    match phase {
        ControlPhase::CreateDirectories => 1,
        ControlPhase::Symlinks => 2,
        ControlPhase::Repairs => 6,
        _ => 7,
    }
}

/// What the session does with one event.
pub open spec fn control_step(before: StreamsControl, event: ControlEvent, after: StreamsControl, r: ControlAction) -> bool {
    let phase = before.phase();
    match event {
        ControlEvent::Start => control_entered(before, before.report(), before.digests(), if before.dry_run() { 9 } else { 0 }, after, r),
        ControlEvent::StreamsDone { assigned, digests, small_files, small_bytes } => {
            let ranges = range_views(assigned@);
            if all_covered(before, ranges) {
                control_entered(
                    before,
                    after_streams(before.report(), before.large(), small_files, small_bytes),
                    digests@,
                    4,
                    after,
                    r,
                )
            } else {
                after.phase() == ControlPhase::Failed && (r matches ControlAction::Fail(e) && exists|
                    files: Seq<LargeFileRanges>,
                | #[trigger] at_barrier(before, ranges, files) && barrier_failure(files, e))
            }
        },
        ControlEvent::Received(m) => if phase == ControlPhase::CreateDirectories || phase
            == ControlPhase::Symlinks || phase == ControlPhase::Repairs || phase
            == ControlPhase::FinishDirectories {
            match m {
                Message::Ack { .. } => if before.pending() == 1 {
                    control_entered(before, before.report(), before.digests(), control_stage_after(phase), after, r)
                } else {
                    &&& r is Receive && after.phase() == phase && after.pending() == before.pending() - 1
                    &&& after.next_id() == before.next_id() && after.report() == before.report()
                    &&& same_control(before, after)
                },
                Message::Error { code, message, .. } => after.phase() == ControlPhase::Failed && (r matches ControlAction::Fail(
                    e,
                ) && e matches ServerError::RemoteError { code: c, message: t } && c == code && t@ == message@),
                _ => control_refused(after, r, "expected Ack while draining pipelined writes, got "@ + m.spec_name()),
            }
        } else if phase == ControlPhase::PrepareAck {
            if m is Ack {
                r is Receive && after.phase() == ControlPhase::ResumePages && after.cursor() == before.cursor()
            } else {
                control_refused(after, r, "expected Ack, got "@ + m.spec_name())
            }
        } else if phase == ControlPhase::ResumePages {
            match m {
                Message::ResumePage { final_page, ranges, .. } => {
                    let i = before.cursor() as int;
                    let resumed = before.verified().update(i, before.verified()[i] + ranges@);
                    if !final_page {
                        r is Receive && after.phase() == ControlPhase::ResumePages && after.verified() == resumed
                            && after.cursor() == before.cursor()
                    } else if i + 1 < before.large().len() {
                        exists|mid: StreamsControl|
                            mid.verified() == resumed && mid.file_ids() == before.file_ids() && mid.next_id()
                                == before.next_id() && same_control(before, mid) && #[trigger] prepared(
                                mid,
                                i + 1,
                                after,
                                r,
                            )
                    } else {
                        r is RunStreams && after.phase() == ControlPhase::Streams && after.verified() == resumed
                            && after.file_ids() == before.file_ids()
                    }
                },
                _ => control_refused(after, r, "expected ResumePage, got "@ + m.spec_name()),
            }
        } else if phase == ControlPhase::Finishing {
            if m is Ack {
                let next = before.cursor() + 1;
                if next < before.large().len() {
                    control_sent(before, after, r, |f: Message| finishes(before, f, next as int), ControlPhase::Finishing)
                        && after.cursor() == next
                } else {
                    control_entered(before, before.report(), before.digests(), 5, after, r)
                }
            } else {
                control_refused(after, r, "expected Ack, got "@ + m.spec_name())
            }
        } else if phase == ControlPhase::Root {
            if m is Ack {
                control_entered(before, before.report(), before.digests(), 8, after, r)
            } else {
                control_refused(after, r, "expected Ack, got "@ + m.spec_name())
            }
        } else if phase == ControlPhase::Deleting {
            let next = before.cursor() + 1;
            let outcome = if m is Ack {
                Some(true)
            } else if m matches Message::Error { code, .. } && code == DELETE_FAILED_CODE {
                Some(false)
            } else {
                None
            };
            match outcome {
                Some(deleted) => {
                    let report = crate::push_session::after_deletion(before.report(), deleted);
                    if next < before.deletions().len() {
                        &&& control_sent(
                            before,
                            after,
                            r,
                            |f: Message| deletes(f, before.deletions()[next as int]),
                            ControlPhase::Deleting,
                        )
                        &&& after.cursor() == next && after.report() == report
                    } else {
                        control_entered(before, report, before.digests(), 9, after, r)
                    }
                },
                None => control_refused(after, r, "expected Ack or delete warning, got "@ + m.spec_name()),
            }
        } else if phase == ControlPhase::Stats {
            if m is Ack {
                r is Receive && after.phase() == ControlPhase::ServerStats && after.report() == before.report()
            } else {
                control_refused(after, r, "expected Ack, got "@ + m.spec_name())
            }
        } else {
            after.phase() == ControlPhase::Done && r == ControlAction::Finish(before.report())
        },
    }
}

fn copy_ranges(ranges: &Vec<ByteRange>) -> (r: Vec<ByteRange>)
    ensures
        r@ == ranges@,
{
    let mut out: Vec<ByteRange> = Vec::new();
    for i in 0..ranges.len()
        invariant
            out@ == ranges@.take(i as int),
    {
        out.push(ranges[i]);
        assert(out@ =~= ranges@.take(i as int + 1));
    }
    assert(ranges@.take(ranges@.len() as int) =~= ranges@);
    out
}

impl StreamsControl {
    /// The control session of a multi-stream push of `plan`,
    /// numbering its frames from `next_id`: the files that do not fit in
    /// one data segment are prepared and finished here, the others go to
    /// the streams; directories are created shortest path first, finished
    /// longest path first, and extraneous directories deleted after the
    /// other extraneous entries, longest path first. A dry run sends
    /// nothing but its statistics.
    pub fn new(plan: PushPlan, dry_run: bool, delete: bool, next_id: u64) -> (r: StreamsControl)
        requires
            plan.symlink_targets@.len() == plan.symlinks@.len(),
        ensures
            r.wf(),
            r.phase() == ControlPhase::Start,
            r.next_id() == next_id,
            r.dry_run() == dry_run,
            r.delete_enabled() == delete,
            arranged(r.creation(), plan.directories@, false),
            r.symlinks() == plan.symlinks@,
            r.targets() == plan.symlink_targets@.map_values(|t: Vec<u8>| t@),
            r.files() == plan.files@,
            indices_where(plan.files@, r.large_indices(), |f: FileEntry| (f.size <= MAX_DATA_SEGMENT) == false),
            r.file_ids().len() == 0,
            r.deletions().len() == plan.extraneous@.len() + plan.extraneous_directories@.len(),
            r.deletions().subrange(0, plan.extraneous@.len() as int) == plan.extraneous@,
            arranged(
                r.deletions().subrange(plan.extraneous@.len() as int, r.deletions().len() as int),
                plan.extraneous_directories@,
                true,
            ),
            r.repairs() == plan.repairs@,
            arranged(r.finishing(), plan.finish@, true),
            r.root() == plan.root,
            r.report() == (PushReport {
                transferred_files: 0,
                transferred_bytes: 0,
                skipped_files: plan.skipped,
                warnings: 0,
                failed_entries: 0,
                deleted_entries: 0,
                metadata_repaired: if dry_run {
                    0
                } else if plan.repairs@.len() + plan.drifted_directories > u64::MAX {
                    u64::MAX
                } else {
                    (plan.repairs@.len() + plan.drifted_directories) as u64
                },
            }),
    {
        let creation = arrange(plan.directories.as_slice(), false);
        let finishing = arrange(plan.finish.as_slice(), true);
        let mut doomed_directories = arrange(plan.extraneous_directories.as_slice(), true);
        let ghost doomed = doomed_directories@;
        let mut deletions = plan.extraneous;
        let ghost first = deletions@;
        deletions.append(&mut doomed_directories);
        let repaired = (plan.repairs.len() as u64).saturating_add(plan.drifted_directories);
        proof {
            assert(deletions@.subrange(0, first.len() as int) =~= first);
            assert(deletions@.subrange(first.len() as int, deletions@.len() as int) =~= doomed);
        }
        let large = size_indices(&plan.files, MAX_DATA_SEGMENT as u64, false);
        StreamsControl {
            phase: ControlPhase::Start,
            next_id,
            dry_run,
            delete,
            creation,
            symlinks: plan.symlinks,
            targets: plan.symlink_targets,
            files: plan.files,
            large,
            file_ids: Vec::new(),
            verified: Vec::new(),
            digests: Vec::new(),
            repairs: plan.repairs,
            finishing,
            root: plan.root,
            deletions,
            pending: 0,
            cursor: 0,
            report: PushReport {
                transferred_files: 0,
                transferred_bytes: 0,
                skipped_files: plan.skipped,
                warnings: 0,
                failed_entries: 0,
                deleted_entries: 0,
                metadata_repaired: if dry_run { 0 } else { repaired },
            },
        }
    }

    /// Where the session stands.
    pub fn stage(&self) -> (r: ControlPhase)
        ensures
            r == self.phase(),
    {
        self.phase
    }

    /// The next free message number.
    pub fn next_message_id(&self) -> (r: u64)
        ensures
            r == self.next_id(),
    {
        self.next_id
    }

    /// The large files as the streams need them: index in the plan's files,
    /// the id the file was prepared with, and the ranges a resume found
    /// already verified.
    pub fn prepared_files(&self) -> (r: Vec<(usize, u64, Vec<ByteRange>)>)
        requires
            self.wf(),
        ensures
            r@.len() == self.file_ids().len(),
            forall|i: int|
                0 <= i < r@.len() ==> (#[trigger] r@[i]).0 == self.large_indices()[i] && r@[i].1
                    == self.file_ids()[i] && r@[i].2@ == self.verified()[i],
    {
        let mut out: Vec<(usize, u64, Vec<ByteRange>)> = Vec::new();
        for i in 0..self.file_ids.len()
            invariant
                self.wf(),
                out@.len() == i,
                forall|k: int|
                    0 <= k < i ==> (#[trigger] out@[k]).0 == self.large@[k] && out@[k].1 == self.file_ids@[k]
                        && out@[k].2@ == self.verified@[k]@,
        {
            out.push((self.large[i], self.file_ids[i], copy_ranges(&self.verified[i])));
        }
        out
    }

    fn send_all(&mut self, frames: Vec<Message>, phase: ControlPhase) -> (r: ControlAction)
        ensures
            r matches ControlAction::Send { first_id, frames: f } && first_id == old(self).next_id() && f@
                == frames@,
            final(self).phase == phase,
            final(self).pending == frames@.len(),
            final(self).next_id == skip_ids(old(self).next_id, frames@.len()),
            final(self).report == old(self).report,
            final(self).cursor == old(self).cursor,
            final(self).file_ids == old(self).file_ids,
            final(self).verified == old(self).verified,
            final(self).digests == old(self).digests,
            final(self).targets == old(self).targets,
            final(self).symlinks == old(self).symlinks,
            final(self).deletions == old(self).deletions,
            final(self).files == old(self).files,
            final(self).large == old(self).large,
            same_control(*old(self), *final(self)),
    {
        let first_id = self.next_id;
        self.next_id = self.next_id.saturating_add(frames.len() as u64);
        self.pending = frames.len();
        self.phase = phase;
        ControlAction::Send { first_id, frames }
    }

    fn send_one(&mut self, frame: Message, phase: ControlPhase) -> (r: ControlAction)
        ensures
            r matches ControlAction::Send { first_id, frames } && first_id == old(self).next_id()
                && frames@ == seq![frame],
            final(self).phase == phase,
            final(self).next_id == bump(old(self).next_id),
            final(self).report == old(self).report,
            final(self).pending == old(self).pending,
            final(self).cursor == old(self).cursor,
            final(self).file_ids == old(self).file_ids,
            final(self).verified == old(self).verified,
            final(self).digests == old(self).digests,
            final(self).targets == old(self).targets,
            final(self).symlinks == old(self).symlinks,
            final(self).deletions == old(self).deletions,
            final(self).files == old(self).files,
            final(self).large == old(self).large,
            same_control(*old(self), *final(self)),
    {
        let first_id = self.next_id;
        self.next_id = self.next_id.saturating_add(1);
        self.phase = phase;
        let mut frames: Vec<Message> = Vec::new();
        frames.push(frame);
        ControlAction::Send { first_id, frames }
    }

    fn fail(&mut self, e: ServerError) -> (r: ControlAction)
        requires
            old(self).wf(),
        ensures
            r == ControlAction::Fail(e),
            final(self).phase == ControlPhase::Failed,
            final(self).wf(),
    {
        self.phase = ControlPhase::Failed;
        ControlAction::Fail(e)
    }

    fn prepare(&mut self, i: usize) -> (r: ControlAction)
        requires
            old(self).wf(),
            i < old(self).large@.len(),
            old(self).file_ids@.len() == i,
        ensures
            final(self).wf(),
            prepared(*old(self), i as int, *final(self), r),
            final(self).report == old(self).report,
            final(self).digests == old(self).digests,
            same_control(*old(self), *final(self)),
    {
        let file_id = self.next_id;
        self.next_id = self.next_id.saturating_add(1);
        let record = entry_record_from_file_entry(&self.files[self.large[i]]);
        let message = Message::LargeFilePrepare {
            file_id,
            path: record.path,
            size: record.size,
            mtime_ns: record.mtime_ns,
            mode: record.mode,
            fingerprint: record.fingerprint,
        };
        self.file_ids.push(file_id);
        self.verified.push(Vec::new());
        self.cursor = i;
        proof {
            assert(self.verified@.map_values(|v: Vec<ByteRange>| v@) =~= old(self).verified@.map_values(
                |v: Vec<ByteRange>| v@,
            ).push(Seq::empty()));
        }
        self.send_one(message, ControlPhase::PrepareAck)
    }

    fn enter(&mut self, from: u8, report: PushReport, digests: Option<Vec<[u8; 32]>>) -> (r: ControlAction)
        requires
            old(self).wf(),
            3 <= from <= 8 ==> old(self).file_ids@.len() == old(self).large@.len(),
            from == 4 ==> (digests matches Some(d) && d@.len() == old(self).large@.len()),
            from <= 2 ==> old(self).file_ids@.len() == 0,
        ensures
            final(self).wf(),
            control_entered(
                *old(self),
                report,
                match digests {
                    Some(d) => d@,
                    None => old(self).digests(),
                },
                from as nat,
                *final(self),
                r,
            ),
    {
        self.report = report;
        if let Some(d) = digests {
            self.digests = d;
        }
        let ghost before = *old(self);
        if from <= 0 && self.creation.len() > 0 {
            let frames = metadata_frames(MetadataOperation::CreateDirectory, &self.creation);
            let ghost f = frames@;
            let r = self.send_all(frames, ControlPhase::CreateDirectories);
            assert(control_sent_all(before, *self, r, f, ControlPhase::CreateDirectories));
            return r;
        }
        if from <= 1 && self.symlinks.len() > 0 {
            let frames = symlink_frames(&self.symlinks, &self.targets);
            let ghost f = frames@;
            let r = self.send_all(frames, ControlPhase::Symlinks);
            assert(control_sent_all(before, *self, r, f, ControlPhase::Symlinks));
            return r;
        }
        if from <= 2 && self.large.len() > 0 {
            return self.prepare(0);
        }
        if from <= 3 {
            self.phase = ControlPhase::Streams;
            return ControlAction::RunStreams;
        }
        if from <= 4 && self.large.len() > 0 {
            let frame = Message::LargeFileFinish { file_id: self.file_ids[0], digest: self.digests[0] };
            self.cursor = 0;
            return self.send_one(frame, ControlPhase::Finishing);
        }
        if from <= 5 && self.repairs.len() > 0 {
            let frames = metadata_frames(MetadataOperation::SetFile, &self.repairs);
            let ghost f = frames@;
            let r = self.send_all(frames, ControlPhase::Repairs);
            assert(control_sent_all(before, *self, r, f, ControlPhase::Repairs));
            return r;
        }
        if from <= 6 && self.finishing.len() > 0 {
            let frames = metadata_frames(MetadataOperation::SetDirectory, &self.finishing);
            let ghost f = frames@;
            let r = self.send_all(frames, ControlPhase::FinishDirectories);
            assert(control_sent_all(before, *self, r, f, ControlPhase::FinishDirectories));
            return r;
        }
        if from <= 7 {
            if let Some((mode, mtime_ns)) = self.root {
                let frame = Message::Metadata {
                    operation: MetadataOperation::SetDirectory,
                    path: Vec::new(),
                    target: Vec::new(),
                    mode,
                    mtime_ns,
                };
                return self.send_one(frame, ControlPhase::Root);
            }
        }
        if from <= 8 && self.delete && report.failed_entries == 0 && self.deletions.len() > 0 {
            let frame = delete_frame(&self.deletions[0]);
            self.cursor = 0;
            return self.send_one(frame, ControlPhase::Deleting);
        }
        let stats = Message::Stats {
            files: report.transferred_files,
            bytes: report.transferred_bytes,
            skipped: report.skipped_files,
            warnings: report.warnings,
            failed: report.failed_entries,
        };
        self.send_one(stats, ControlPhase::Stats)
    }

    fn drain(&mut self, m: Message) -> (r: ControlAction)
        requires
            old(self).wf(),
            old(self).phase == ControlPhase::CreateDirectories || old(self).phase == ControlPhase::Symlinks
                || old(self).phase == ControlPhase::Repairs || old(self).phase == ControlPhase::FinishDirectories,
            old(self).phase == ControlPhase::Repairs || old(self).phase == ControlPhase::FinishDirectories
                ==> old(self).file_ids@.len() == old(self).large@.len(),
            old(self).phase == ControlPhase::CreateDirectories || old(self).phase == ControlPhase::Symlinks
                ==> old(self).file_ids@.len() == 0,
        ensures
            final(self).wf(),
            control_step(*old(self), ControlEvent::Received(m), *final(self), r),
    {
        match m {
            Message::Ack { .. } => {
                if self.pending == 1 {
                    let stage: u8 = match self.phase {
                        ControlPhase::CreateDirectories => 1,
                        ControlPhase::Symlinks => 2,
                        ControlPhase::Repairs => 6,
                        _ => 7,
                    };
                    self.enter(stage, self.report, None)
                } else {
                    self.pending = self.pending - 1;
                    ControlAction::Receive
                }
            },
            Message::Error { code, message, .. } => self.fail(ServerError::RemoteError { code, message }),
            other => {
                let e = unexpected_frame("expected Ack while draining pipelined writes, got ", &other);
                self.fail(e)
            },
        }
    }

    fn resume_page(&mut self, final_page: bool, ranges: Vec<ByteRange>) -> (r: ControlAction)
        requires
            old(self).wf(),
            old(self).phase == ControlPhase::ResumePages,
        ensures
            final(self).wf(),
            control_step(
                *old(self),
                ControlEvent::Received(Message::ResumePage { file_id: 0, page: 0, final_page, ranges }),
                *final(self),
                r,
            ),
    {
        let i = self.cursor;
        let ghost resumed = old(self).verified().update(i as int, old(self).verified()[i as int] + ranges@);
        let mut merged = copy_ranges(&self.verified[i]);
        let mut more = ranges;
        merged.append(&mut more);
        self.verified.set(i, merged);
        proof {
            assert(self.verified@.map_values(|v: Vec<ByteRange>| v@) =~= resumed);
        }
        if !final_page {
            return ControlAction::Receive;
        }
        let count = self.large.len();
        if i + 1 < count {
            let ghost mid = *self;
            let r = self.prepare(i + 1);
            assert(prepared(mid, i + 1, *self, r));
            r
        } else {
            self.phase = ControlPhase::Streams;
            ControlAction::RunStreams
        }
    }

    fn streams_done(&mut self, assigned: Vec<Vec<ByteRange>>, digests: Vec<[u8; 32]>, small_files: u64, small_bytes: u64) -> (r: ControlAction)
        requires
            old(self).wf(),
            old(self).accepts(&ControlEvent::StreamsDone { assigned, digests, small_files, small_bytes }),
        ensures
            final(self).wf(),
            control_step(
                *old(self),
                ControlEvent::StreamsDone { assigned, digests, small_files, small_bytes },
                *final(self),
                r,
            ),
    {
        let ghost ranges = range_views(assigned@);
        let n = self.large.len();
        let mut files: Vec<LargeFileRanges> = Vec::new();
        for i in 0..n
            invariant
                self.wf(),
                self.phase == ControlPhase::Streams,
                n == self.large@.len(),
                assigned@.len() == n,
                ranges == range_views(assigned@),
                files@.len() == i,
                forall|k: int|
                    0 <= k < i ==> {
                        &&& (#[trigger] files@[k]).file_id == self.file_ids()[k]
                        &&& files@[k].path@ == utf8_lossy(self.large()[k].path@)
                        &&& files@[k].size == self.large()[k].size
                        &&& files@[k].verified@ == self.verified()[k]
                        &&& files@[k].assigned@ == ranges[k]
                    },
        {
            let entry = &self.files[self.large[i]];
            files.push(
                LargeFileRanges {
                    file_id: self.file_ids[i],
                    path: entry.path.to_string(),
                    size: entry.size,
                    verified: copy_ranges(&self.verified[i]),
                    assigned: copy_ranges(&assigned[i]),
                },
            );
        }
        assert(at_barrier(*self, ranges, files@));
        match finish_frames(files.as_slice(), digests.as_slice()) {
            Err(e) => {
                assert(exists|all: Seq<LargeFileRanges>|
                    #[trigger] at_barrier(*old(self), ranges, all) && barrier_failure(all, e));
                self.fail(e)
            },
            Ok(_) => {
                proof {
                    assert forall|all: Seq<LargeFileRanges>| #[trigger]
                        at_barrier(*old(self), ranges, all) implies forall|i: int|
                        0 <= i < all.len() ==> fully_covered(#[trigger] all[i]) by {
                        assert forall|i: int| 0 <= i < all.len() implies fully_covered(#[trigger] all[i]) by {
                            assert(fully_covered(files@[i]));
                            assert(crate::push_finish::recorded(all[i]) =~= crate::push_finish::recorded(files@[i]));
                        }
                    }
                }
                let ghost sizes = file_sizes(self.large());
                let mut bytes = small_bytes;
                for i in 0..n
                    invariant
                        self.wf(),
                        n == self.large@.len(),
                        sizes == file_sizes(self.large()),
                        bytes as int == saturated(small_bytes + size_sum(sizes, 0, i as int)),
                {
                    bytes = bytes.saturating_add(self.files[self.large[i]].size);
                }
                let report = PushReport {
                    transferred_files: small_files.saturating_add(n as u64),
                    transferred_bytes: bytes,
                    ..self.report
                };
                self.enter(4, report, Some(digests))
            },
        }
    }

    fn answer_deletion(&mut self, m: Message) -> (r: ControlAction)
        requires
            old(self).wf(),
            old(self).phase == ControlPhase::Deleting,
        ensures
            final(self).wf(),
            control_step(*old(self), ControlEvent::Received(m), *final(self), r),
    {
        let cursor = self.cursor;
        let count = self.deletions.len();
        let mut report = self.report;
        match expect_ack_or_delete_warning(m) {
            Ok(None) => {
                report.deleted_entries = report.deleted_entries.saturating_add(1);
            },
            Ok(Some(_warning)) => {
                report.failed_entries = report.failed_entries.saturating_add(1);
                report.warnings = report.warnings.saturating_add(1);
            },
            Err(e) => {
                return self.fail(e);
            },
        }
        let next = cursor + 1;
        if next < count {
            let frame = delete_frame(&self.deletions[next]);
            self.cursor = next;
            self.report = report;
            self.send_one(frame, ControlPhase::Deleting)
        } else {
            self.enter(9, report, None)
        }
    }

    /// Takes one event and says what to do next; see `control_step` for
    /// what each phase does with each event.
    pub fn on_event(&mut self, event: ControlEvent) -> (r: ControlAction)
        requires
            old(self).wf(),
            old(self).accepts(&event),
        ensures
            final(self).wf(),
            control_step(*old(self), event, *final(self), r),
    {
        match event {
            ControlEvent::Start => {
                if self.dry_run {
                    self.enter(9, self.report, None)
                } else {
                    self.enter(0, self.report, None)
                }
            },
            ControlEvent::StreamsDone { assigned, digests, small_files, small_bytes } => {
                self.streams_done(assigned, digests, small_files, small_bytes)
            },
            ControlEvent::Received(m) => {
                match self.phase {
                    ControlPhase::CreateDirectories | ControlPhase::Symlinks | ControlPhase::Repairs
                    | ControlPhase::FinishDirectories => self.drain(m),
                    ControlPhase::PrepareAck => match m {
                        Message::Ack { .. } => {
                            self.phase = ControlPhase::ResumePages;
                            ControlAction::Receive
                        },
                        other => {
                            let e = unexpected_frame("expected Ack, got ", &other);
                            self.fail(e)
                        },
                    },
                    ControlPhase::ResumePages => match m {
                        Message::ResumePage { final_page, ranges, .. } => self.resume_page(final_page, ranges),
                        other => {
                            let e = unexpected_frame("expected ResumePage, got ", &other);
                            self.fail(e)
                        },
                    },
                    ControlPhase::Finishing => match m {
                        Message::Ack { .. } => {
                            let count = self.large.len();
                            let next = self.cursor + 1;
                            if next < count {
                                let frame = Message::LargeFileFinish {
                                    file_id: self.file_ids[next],
                                    digest: self.digests[next],
                                };
                                self.cursor = next;
                                self.send_one(frame, ControlPhase::Finishing)
                            } else {
                                self.enter(5, self.report, None)
                            }
                        },
                        other => {
                            let e = unexpected_frame("expected Ack, got ", &other);
                            self.fail(e)
                        },
                    },
                    ControlPhase::Root => match m {
                        Message::Ack { .. } => self.enter(8, self.report, None),
                        other => {
                            let e = unexpected_frame("expected Ack, got ", &other);
                            self.fail(e)
                        },
                    },
                    ControlPhase::Deleting => self.answer_deletion(m),
                    ControlPhase::Stats => match m {
                        Message::Ack { .. } => {
                            self.phase = ControlPhase::ServerStats;
                            ControlAction::Receive
                        },
                        other => {
                            let e = unexpected_frame("expected Ack, got ", &other);
                            self.fail(e)
                        },
                    },
                    _ => {
                        self.phase = ControlPhase::Done;
                        ControlAction::Finish(self.report)
                    },
                }
            },
        }
    }
}

} // verus!
