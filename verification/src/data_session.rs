//! The client end of one data-only session of a multi-stream push.
//!
//! A data session opens with its own handshake and session settings, sends
//! its share of the small files, then writes the ranges of large files it
//! was given: each file is prepared once, and each range is requested,
//! read from the source and sent as one verified segment. This module decides
//! every frame and judges every answer; the embedding program moves the
//! frames, reads the source, and sends the small-file batches.

use vstd::prelude::*;
use crate::client_session::expect_ack;
use crate::digest::{blake3_digest, blake3_hash};
use crate::entries::{entry_record_from_file_entry, identity_fingerprint, saturated_nanos};
use crate::error::ServerError;
use crate::protocol::{
    ByteRange, CompressionMode, Message, Role, CAP_DATA_ONLY, CAP_ZSTD, DEFAULT_UNACKNOWLEDGED_WINDOW,
    MAX_COMPLETE_PAYLOAD, MAX_DATA_SEGMENT,
};
use crate::scan::FileEntry;
use crate::sink_session::is_unexpected;
use crate::text::push_str;

verus! {

/// The handshake a data-only session opens with.
pub open spec fn data_handshake(job_id: [u8; 16], compress: bool, compression_level: i32) -> Message {
    Message::Handshake {
        role: Role::Source,
        capabilities: CAP_DATA_ONLY | CAP_ZSTD,
        max_payload: MAX_COMPLETE_PAYLOAD,
        max_segment: MAX_DATA_SEGMENT,
        window: DEFAULT_UNACKNOWLEDGED_WINDOW,
        job_id,
        compression: if compress {
            CompressionMode::Zstd
        } else {
            CompressionMode::Uncompressed
        },
        compression_level,
    }
}

/// Whether `m` is the settings a data-only session asks for: one stream,
/// 32 MiB batches, 16 MiB chunks, no deletes, checks or filters.
pub open spec fn is_data_config(m: Message) -> bool {
    m matches Message::SessionConfig {
        streams,
        batch_bytes,
        chunk_bytes,
        window,
        delete,
        checksum,
        paranoid,
        dry_run,
        exclude_patterns,
        filter_rules,
    } && streams == 1 && batch_bytes == 32 * 1024 * 1024 && chunk_bytes == 16 * 1024 * 1024 && window
        == DEFAULT_UNACKNOWLEDGED_WINDOW && !delete && !checksum && !paranoid && !dry_run
        && exclude_patterns@.len() == 0 && filter_rules@.len() == 0
}

/// The number after `id`, saturating at the largest.
pub open spec fn id_after(id: u64) -> u64 {
    if id == u64::MAX {
        id
    } else {
        (id + 1) as u64
    }
}

/// Whether `m` prepares `entry` as large file `file_id`.
pub open spec fn prepares(m: Message, file_id: u64, entry: FileEntry) -> bool {
    m matches Message::LargeFilePrepare { file_id: f, path, size, mtime_ns, mode, fingerprint } && f == file_id
        && path@ == entry.path@ && size == entry.size && mtime_ns == saturated_nanos(entry.mtime as int)
        && mode == entry.mode && fingerprint@ == identity_fingerprint(entry.fingerprint.identity)
}

/// Whether `m` is the segment carrying `data` at `offset` of `file_id`,
/// with the BLAKE3 digest of `data`.
pub open spec fn segment_of(m: Message, file_id: u64, offset: u64, data: Seq<u8>) -> bool {
    m matches Message::FileSegment { file_id: f, offset: o, digest, data: d } && f == file_id && o == offset
        && d@ == data && digest@ == blake3_hash(data)
}

/// After the session moves on to large file `next` of `work` with `from_id`
/// the next free number: past the last file it is done; otherwise the file
/// is prepared under number `from_id` in a frame numbered after it.
pub open spec fn starts_file(
    work: Seq<(FileEntry, Vec<ByteRange>)>,
    from_id: u64,
    after: DataSender,
    r: DataAction,
    next: int,
) -> bool {
    &&& next == work.len() ==> r is Done && after.phase() == DataPhase::Finished && after.next_id() == from_id
    &&& next < work.len() ==> {
        &&& after.phase() == (DataPhase::AwaitPrepareAck { file: next as usize, file_id: from_id })
        &&& after.next_id() == id_after(id_after(from_id))
        &&& r matches DataAction::Send { id, message } && id == id_after(from_id) && prepares(
            message,
            from_id,
            work[next].0,
        )
    }
}

/// Where a data session stands.
#[derive(Debug, Clone, Copy, PartialEq, Eq, Structural)]
pub enum DataPhase {
    /// Nothing sent yet.
    Opening,
    /// The handshake was sent; the peer's handshake is awaited.
    AwaitHandshake,
    /// The peer's handshake arrived; its acknowledgement is awaited.
    AwaitHandshakeAck,
    /// The settings were sent; their acknowledgement is awaited.
    AwaitConfigAck,
    /// The small files are being sent by the embedding program.
    SmallFiles,
    /// Large file `file` was prepared as `file_id`; the acknowledgement is awaited.
    AwaitPrepareAck { file: usize, file_id: u64 },
    /// Range `range` of file `file` was requested; its acknowledgement is awaited.
    AwaitRangeAck { file: usize, range: usize, file_id: u64 },
    /// The bytes of that range are being read from the source.
    AwaitData { file: usize, range: usize, file_id: u64 },
    /// The range's segment was sent; its acknowledgement is awaited.
    AwaitSegmentAck { file: usize, range: usize, file_id: u64 },
    /// Every range was written.
    Finished,
    /// The session failed.
    Failed,
}

/// What the embedding program hands the session.
pub enum DataEvent {
    /// Begin the session.
    Start,
    /// The next frame the peer sent.
    Received(Message),
    /// The small files were sent; `next_id` is the next free message number.
    SmallFilesSent { next_id: u64 },
    /// The bytes of the range the session asked to read.
    RangeRead(Vec<u8>),
}

/// What the session asks the embedding program to do next.
pub enum DataAction {
    /// Write this frame, then hand back the peer's next frame.
    Send { id: u64, message: Message },
    /// Hand back the peer's next frame.
    Receive,
    /// Authentication is over: release the connection slot, send this
    /// session's small files numbering frames from `next_id`, then report
    /// `SmallFilesSent`.
    SendSmallFiles { next_id: u64 },
    /// Read `length` bytes at `offset` of large file `file`, and hand them back.
    ReadRange { file: usize, offset: u64, length: u64 },
    /// Every range was written: close the session.
    Done,
    /// End the session with this error.
    Fail(ServerError),
}

fn unexpected(text: &str) -> (e: ServerError)
    ensures
        is_unexpected(e, text@),
{
    let mut m = String::new();
    push_str(&mut m, text);
    assert(m@ =~= text@);
    ServerError::UnexpectedMessage(m)
}

/// The client end of one data-only session.
pub struct DataSender {
    job_id: [u8; 16],
    compress: bool,
    compression_level: i32,
    work: Vec<(FileEntry, Vec<ByteRange>)>,
    phase: DataPhase,
    next_id: u64,
    written: Vec<(usize, ByteRange)>,
}

impl DataSender {
    /// Where the session stands.
    pub closed spec fn phase(&self) -> DataPhase {
        self.phase
    }

    /// The next free message number.
    pub closed spec fn next_id(&self) -> u64 {
        self.next_id
    }

    /// The large files and the ranges of each this session writes.
    pub closed spec fn work(&self) -> Seq<(FileEntry, Vec<ByteRange>)> {
        self.work@
    }

    /// The ranges written and acknowledged so far, by file.
    pub closed spec fn written(&self) -> Seq<(usize, ByteRange)> {
        self.written@
    }

    /// The session's settings.
    pub closed spec fn settings(&self) -> ([u8; 16], bool, i32) {
        (self.job_id, self.compress, self.compression_level)
    }

    /// The range `range` of file `file` of the work.
    pub open spec fn range_of(&self, file: int, range: int) -> ByteRange {
        self.work()[file].1@[range]
    }

    /// Phases that point into the work point at a file and range it holds.
    pub closed spec fn wf(&self) -> bool {
        match self.phase {
            DataPhase::AwaitPrepareAck { file, .. } => file < self.work@.len(),
            DataPhase::AwaitRangeAck { file, range, .. } | DataPhase::AwaitData { file, range, .. }
            | DataPhase::AwaitSegmentAck { file, range, .. } => file < self.work@.len() && range
                < self.work@[file as int].1@.len(),
            _ => true,
        }
    }

    /// A session that will write `work` after its share of the small files.
    pub fn new(job_id: [u8; 16], compress: bool, compression_level: i32, work: Vec<(FileEntry, Vec<ByteRange>)>) -> (r: DataSender)
        ensures
            r.wf(),
            r.phase() == DataPhase::Opening,
            r.next_id() == 1,
            r.work() == work@,
            r.written().len() == 0,
            r.settings() == (job_id, compress, compression_level),
    {
        DataSender { job_id, compress, compression_level, work, phase: DataPhase::Opening, next_id: 1, written: Vec::new() }
    }

    /// The ranges written and acknowledged, by file, once the session is done.
    pub fn written_ranges(&self) -> (r: Vec<(usize, ByteRange)>)
        ensures
            r@ == self.written(),
    {
        let mut out: Vec<(usize, ByteRange)> = Vec::new();
        for i in 0..self.written.len()
            invariant
                out@ == self.written@.take(i as int),
        {
            out.push(self.written[i]);
            assert(out@ =~= self.written@.take(i as int + 1));
        }
        assert(self.written@.take(self.written@.len() as int) =~= self.written@);
        out
    }

    fn take_id(&mut self) -> (id: u64)
        ensures
            id == old(self).next_id,
            final(self).next_id == id_after(id),
            final(self).phase == old(self).phase,
            final(self).work == old(self).work,
            final(self).written == old(self).written,
            final(self).job_id == old(self).job_id,
            final(self).compress == old(self).compress,
            final(self).compression_level == old(self).compression_level,
    {
        let id = self.next_id;
        self.next_id = if id == u64::MAX { id } else { id + 1 };
        id
    }

    /// Prepare large file `file`, or finish when every file was written.
    fn start_file(&mut self, file: usize) -> (r: DataAction)
        requires
            file <= old(self).work@.len(),
        ensures
            final(self).wf(),
            final(self).work == old(self).work,
            final(self).written == old(self).written,
            final(self).settings() == old(self).settings(),
            starts_file(old(self).work@, old(self).next_id, *final(self), r, file as int),
    {
        if file == self.work.len() {
            self.phase = DataPhase::Finished;
            return DataAction::Done;
        }
        let file_id = self.take_id();
        let frame_id = self.take_id();
        let record = entry_record_from_file_entry(&self.work[file].0);
        let message = Message::LargeFilePrepare {
            file_id,
            path: record.path,
            size: record.size,
            mtime_ns: record.mtime_ns,
            mode: record.mode,
            fingerprint: record.fingerprint,
        };
        self.phase = DataPhase::AwaitPrepareAck { file, file_id };
        DataAction::Send { id: frame_id, message }
    }

    /// Request range `range` of file `file`, or move to the next file when
    /// that file has no more.
    fn next_range(&mut self, file: usize, range: usize, file_id: u64) -> (r: DataAction)
        requires
            file < old(self).work@.len(),
            range <= old(self).work@[file as int].1@.len(),
        ensures
            final(self).wf(),
            final(self).work == old(self).work,
            final(self).written == old(self).written,
            final(self).settings() == old(self).settings(),
            range == old(self).work@[file as int].1@.len() ==> starts_file(
                old(self).work@,
                old(self).next_id,
                *final(self),
                r,
                file + 1,
            ),
            range < old(self).work@[file as int].1@.len() ==> {
                &&& final(self).phase == (DataPhase::AwaitRangeAck { file, range, file_id })
                &&& final(self).next_id == id_after(old(self).next_id)
                &&& r == (DataAction::Send {
                    id: old(self).next_id,
                    message: Message::LargeFileRange { file_id, range: old(self).work@[file as int].1@[range as int] },
                })
            },
    {
        let files = self.work.len();
        if range == self.work[file].1.len() {
            return self.start_file(file + 1);
        }
        let id = self.take_id();
        let wanted = self.work[file].1[range];
        self.phase = DataPhase::AwaitRangeAck { file, range, file_id };
        DataAction::Send { id, message: Message::LargeFileRange { file_id, range: wanted } }
    }

    fn fail(&mut self, error: ServerError) -> (r: DataAction)
        ensures
            r == DataAction::Fail(error),
            final(self).phase == DataPhase::Failed,
            final(self).next_id == old(self).next_id,
            final(self).work == old(self).work,
            final(self).written == old(self).written,
            final(self).settings() == old(self).settings(),
            final(self).wf(),
    {
        self.phase = DataPhase::Failed;
        DataAction::Fail(error)
    }

    /// Decide what follows one event.
    ///
    /// The session sends its handshake; the peer's answer must be a
    /// handshake, then an acknowledgement; the settings follow and must be
    /// acknowledged; then the small files are sent. Each large file is then
    /// prepared (a new file number, then the frame's own number) and must be
    /// acknowledged; each of its ranges is requested and must be
    /// acknowledged, read, and sent as a segment carrying its digest, which
    /// must be acknowledged before the range counts as written. Any other
    /// answer ends the session with an error; an event the phase does not
    /// expect ends it too.
    pub fn on_event(&mut self, event: DataEvent) -> (r: DataAction)
        requires
            old(self).wf(),
        ensures
            final(self).wf(),
            final(self).work() == old(self).work(),
            final(self).settings() == old(self).settings(),
            r is Fail ==> final(self).phase() == DataPhase::Failed && final(self).written() == old(self).written(),
            match (old(self).phase(), event) {
                (DataPhase::Opening, DataEvent::Start) => {
                    let (job_id, compress, level) = old(self).settings();
                    &&& r == (DataAction::Send { id: old(self).next_id(), message: data_handshake(job_id, compress, level) })
                    &&& final(self).phase() == DataPhase::AwaitHandshake
                    &&& final(self).next_id() == id_after(old(self).next_id())
                },
                (DataPhase::AwaitHandshake, DataEvent::Received(m)) => if m is Handshake {
                    &&& r is Receive
                    &&& final(self).phase() == DataPhase::AwaitHandshakeAck
                    &&& final(self).next_id() == old(self).next_id()
                } else {
                    r matches DataAction::Fail(e) && is_unexpected(e, "data handshake"@)
                },
                (DataPhase::AwaitHandshakeAck, DataEvent::Received(m)) => if m is Ack {
                    &&& r matches DataAction::Send { id, message } && id == old(self).next_id() && is_data_config(message)
                    &&& final(self).phase() == DataPhase::AwaitConfigAck
                    &&& final(self).next_id() == id_after(old(self).next_id())
                } else {
                    r matches DataAction::Fail(e) && is_unexpected(e, "expected Ack, got "@ + m.spec_name())
                },
                (DataPhase::AwaitConfigAck, DataEvent::Received(m)) => if m is Ack {
                    &&& r == (DataAction::SendSmallFiles { next_id: old(self).next_id() })
                    &&& final(self).phase() == DataPhase::SmallFiles
                } else {
                    r matches DataAction::Fail(e) && is_unexpected(e, "expected Ack, got "@ + m.spec_name())
                },
                (DataPhase::SmallFiles, DataEvent::SmallFilesSent { next_id }) => {
                    &&& final(self).written() == old(self).written()
                    &&& starts_file(old(self).work(), next_id, *final(self), r, 0)
                },
                (DataPhase::AwaitPrepareAck { file, file_id }, DataEvent::Received(m)) => if m is Ack {
                    &&& final(self).written() == old(self).written()
                    &&& old(self).work()[file as int].1@.len() > 0 ==> {
                        &&& final(self).phase() == (DataPhase::AwaitRangeAck { file, range: 0, file_id })
                        &&& final(self).next_id() == id_after(old(self).next_id())
                        &&& r == (DataAction::Send {
                            id: old(self).next_id(),
                            message: Message::LargeFileRange { file_id, range: old(self).range_of(file as int, 0) },
                        })
                    }
                    &&& old(self).work()[file as int].1@.len() == 0 ==> starts_file(
                        old(self).work(),
                        old(self).next_id(),
                        *final(self),
                        r,
                        file + 1,
                    )
                } else {
                    r matches DataAction::Fail(e) && is_unexpected(e, "expected Ack, got "@ + m.spec_name())
                },
                (DataPhase::AwaitRangeAck { file, range, file_id }, DataEvent::Received(m)) => if m is Ack {
                    let wanted = old(self).range_of(file as int, range as int);
                    &&& r == (DataAction::ReadRange { file, offset: wanted.offset, length: wanted.length })
                    &&& final(self).phase() == (DataPhase::AwaitData { file, range, file_id })
                    &&& final(self).next_id() == old(self).next_id()
                    &&& final(self).written() == old(self).written()
                } else {
                    r matches DataAction::Fail(e) && is_unexpected(e, "data range ack"@)
                },
                (DataPhase::AwaitData { file, range, file_id }, DataEvent::RangeRead(data)) => {
                    let wanted = old(self).range_of(file as int, range as int);
                    &&& r matches DataAction::Send { id, message } && id == old(self).next_id() && segment_of(
                        message,
                        file_id,
                        wanted.offset,
                        data@,
                    )
                    &&& final(self).phase() == (DataPhase::AwaitSegmentAck { file, range, file_id })
                    &&& final(self).next_id() == id_after(old(self).next_id())
                    &&& final(self).written() == old(self).written()
                },
                (DataPhase::AwaitSegmentAck { file, range, file_id }, DataEvent::Received(m)) => if m is Ack {
                    let done = old(self).written().push((file, old(self).range_of(file as int, range as int)));
                    &&& final(self).written() == done
                    &&& range + 1 < old(self).work()[file as int].1@.len() ==> {
                        &&& final(self).phase() == (DataPhase::AwaitRangeAck { file, range: (range + 1) as usize, file_id })
                        &&& final(self).next_id() == id_after(old(self).next_id())
                        &&& r == (DataAction::Send {
                            id: old(self).next_id(),
                            message: Message::LargeFileRange {
                                file_id,
                                range: old(self).range_of(file as int, range + 1),
                            },
                        })
                    }
                    &&& range + 1 == old(self).work()[file as int].1@.len() ==> starts_file(
                        old(self).work(),
                        old(self).next_id(),
                        *final(self),
                        r,
                        file + 1,
                    )
                } else {
                    r matches DataAction::Fail(e) && is_unexpected(e, "expected Ack, got "@ + m.spec_name())
                },
                _ => r matches DataAction::Fail(e) && is_unexpected(e, "data session received an event out of order"@),
            },
    {
        match (self.phase, event) {
            (DataPhase::Opening, DataEvent::Start) => {
                let id = self.take_id();
                let message = Message::Handshake {
                    role: Role::Source,
                    capabilities: CAP_DATA_ONLY | CAP_ZSTD,
                    max_payload: MAX_COMPLETE_PAYLOAD,
                    max_segment: MAX_DATA_SEGMENT,
                    window: DEFAULT_UNACKNOWLEDGED_WINDOW,
                    job_id: self.job_id,
                    compression: if self.compress {
                        CompressionMode::Zstd
                    } else {
                        CompressionMode::Uncompressed
                    },
                    compression_level: self.compression_level,
                };
                self.phase = DataPhase::AwaitHandshake;
                DataAction::Send { id, message }
            },
            (DataPhase::AwaitHandshake, DataEvent::Received(m)) => {
                if let Message::Handshake { .. } = m {
                    self.phase = DataPhase::AwaitHandshakeAck;
                    DataAction::Receive
                } else {
                    self.fail(unexpected("data handshake"))
                }
            },
            (DataPhase::AwaitHandshakeAck, DataEvent::Received(m)) => {
                if let Err(e) = expect_ack(&m) {
                    return self.fail(e);
                }
                let id = self.take_id();
                self.phase = DataPhase::AwaitConfigAck;
                DataAction::Send {
                    id,
                    message: Message::SessionConfig {
                        streams: 1,
                        batch_bytes: 32 * 1024 * 1024,
                        chunk_bytes: 16 * 1024 * 1024,
                        window: DEFAULT_UNACKNOWLEDGED_WINDOW,
                        delete: false,
                        checksum: false,
                        paranoid: false,
                        dry_run: false,
                        exclude_patterns: Vec::new(),
                        filter_rules: Vec::new(),
                    },
                }
            },
            (DataPhase::AwaitConfigAck, DataEvent::Received(m)) => {
                if let Err(e) = expect_ack(&m) {
                    return self.fail(e);
                }
                self.phase = DataPhase::SmallFiles;
                DataAction::SendSmallFiles { next_id: self.next_id }
            },
            (DataPhase::SmallFiles, DataEvent::SmallFilesSent { next_id }) => {
                self.next_id = next_id;
                self.start_file(0)
            },
            (DataPhase::AwaitPrepareAck { file, file_id }, DataEvent::Received(m)) => {
                if let Err(e) = expect_ack(&m) {
                    return self.fail(e);
                }
                self.next_range(file, 0, file_id)
            },
            (DataPhase::AwaitRangeAck { file, range, file_id }, DataEvent::Received(m)) => {
                if let Message::Ack { .. } = m {
                    let wanted = self.work[file].1[range];
                    self.phase = DataPhase::AwaitData { file, range, file_id };
                    DataAction::ReadRange { file, offset: wanted.offset, length: wanted.length }
                } else {
                    self.fail(unexpected("data range ack"))
                }
            },
            (DataPhase::AwaitData { file, range, file_id }, DataEvent::RangeRead(data)) => {
                let id = self.take_id();
                let offset = self.work[file].1[range].offset;
                let digest = blake3_digest(data.as_slice());
                self.phase = DataPhase::AwaitSegmentAck { file, range, file_id };
                DataAction::Send { id, message: Message::FileSegment { file_id, offset, digest, data } }
            },
            (DataPhase::AwaitSegmentAck { file, range, file_id }, DataEvent::Received(m)) => {
                if let Err(e) = expect_ack(&m) {
                    return self.fail(e);
                }
                let done = self.work[file].1[range];
                let count = self.work[file].1.len();
                self.written.push((file, done));
                self.next_range(file, range + 1, file_id)
            },
            _ => {
                self.fail(unexpected("data session received an event out of order"))
            },
        }
    }
}

} // verus!
