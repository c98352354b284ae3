//! The wire vocabulary the session logic speaks: capability bits, version
//! negotiation, and the message shapes of the v1 opening handshake, the v2
//! browse session and the v3 filesystem session.

use vstd::prelude::*;

verus! {

/// The peer can compress frame payloads with zstd.
pub const CAP_ZSTD: u32 = 0x1;
/// The peer takes part in protocol version selection.
pub const CAP_VERSION_NEGOTIATION: u32 = 0x2;
/// The peer speaks the v2 browse grammar.
pub const CAP_BROWSE_V2: u32 = 0x4;
/// The peer understands ordered include/exclude filter rules.
pub const CAP_FILTER_RULES: u32 = 0x8;
/// The peer reports real Unix permission bits.
pub const CAP_UNIX_MODES: u32 = 0x10;
/// The peer answers chmod, mtime and readlink browse verbs.
pub const CAP_BROWSE_META: u32 = 0x20;
/// The peer speaks the v3 filesystem grammar.
pub const CAP_FS_V3: u32 = 0x40;
/// Announced by a client whose session only carries file data for another,
/// controlling session of the same transfer; it is not negotiated.
pub const CAP_DATA_ONLY: u32 = 0x100;
/// Every capability bit this build knows.
pub const KNOWN_CAPABILITIES: u32 = 0x7f;

/// Largest payload of one complete frame.
pub const MAX_COMPLETE_PAYLOAD: u32 = 16 * 1024 * 1024;
/// Largest data segment carried by one frame.
pub const MAX_DATA_SEGMENT: u32 = 1024 * 1024;
/// Frames a sender may have unacknowledged at once.
pub const DEFAULT_UNACKNOWLEDGED_WINDOW: u32 = 64;

/// Known capabilities both endpoints advertise.
pub open spec fn spec_common_capabilities(local: u32, remote: u32) -> u32 {
    local & remote & KNOWN_CAPABILITIES
}

/// Known capabilities both endpoints advertise.
pub fn common_capabilities(local: u32, remote: u32) -> (r: u32)
    ensures
        r == spec_common_capabilities(local, remote),
{
    local & remote & KNOWN_CAPABILITIES
}

/// The wire version two endpoints settle on: the v3 filesystem grammar when
/// both offer it, the v2 browse grammar when both offer that, and v1 otherwise
/// (which is also what a peer that does not negotiate gets).
pub open spec fn spec_negotiated_version(local: u32, remote: u32) -> u32 {
    let common = local & remote;
    if common & CAP_VERSION_NEGOTIATION == 0 {
        1
    } else if common & CAP_FS_V3 != 0 {
        3
    } else if common & CAP_BROWSE_V2 != 0 {
        2
    } else {
        1
    }
}

/// Select the wire version for a pair of capability sets.
pub fn negotiate_protocol_version(local: u32, remote: u32) -> (r: u32)
    ensures
        r == spec_negotiated_version(local, remote),
        1 <= r <= 3,
{
    let common = local & remote;
    if common & CAP_VERSION_NEGOTIATION == 0 {
        1
    } else if common & CAP_FS_V3 != 0 {
        3
    } else if common & CAP_BROWSE_V2 != 0 {
        2
    } else {
        1
    }
}

/// The role an endpoint announces in its opening handshake.
#[derive(Debug, Clone, Copy, PartialEq, Eq, Structural)]
pub enum Role {
    Source,
    Sink,
    Session,
}

/// Payload compression of a session.
#[derive(Debug, Clone, Copy, PartialEq, Eq, Structural)]
pub enum CompressionMode {
    Uncompressed,
    Zstd,
}

/// The kind of an entry as carried on the wire.
#[derive(Debug, Clone, Copy, PartialEq, Eq, Structural)]
pub enum EntryKind {
    File,
    Directory,
    Symlink,
    Other,
}

/// One scanned entry as carried on the wire.
#[derive(Debug, Clone, PartialEq, Eq)]
pub struct EntryRecord {
    /// Relative path bytes, `/`-separated.
    pub path: Vec<u8>,
    pub kind: EntryKind,
    pub size: u64,
    /// Modification time in signed nanoseconds since the Unix epoch.
    pub mtime_ns: i64,
    pub mode: u32,
    /// Content or identity fingerprint; the first sixteen bytes carry two
    /// little-endian `u64` identity words.
    pub fingerprint: [u8; 32],
}

/// A half-open byte range `[offset, offset + length)` of one file.
#[derive(Debug, Clone, Copy, PartialEq, Eq, Structural)]
pub struct ByteRange {
    pub offset: u64,
    pub length: u64,
}

/// What a metadata message asks the receiving side to do at its path.
#[derive(Debug, Clone, Copy, PartialEq, Eq, Structural)]
pub enum MetadataOperation {
    CreateDirectory,
    CreateSymlink,
    SetFile,
    SetDirectory,
    Delete,
}

/// The messages of the v1 framing: the opening handshake every session
/// starts with, and the transfer stream of a push or pull.
#[derive(Debug, Clone, PartialEq, Eq)]
pub enum Message {
    Handshake {
        role: Role,
        capabilities: u32,
        max_payload: u32,
        max_segment: u32,
        window: u32,
        job_id: [u8; 16],
        compression: CompressionMode,
        compression_level: i32,
    },
    Ack {
        acknowledged_id: u64,
        acknowledged_type: u8,
    },
    Error {
        code: u16,
        related_id: u64,
        message: String,
    },
    /// How the client wants a push or pull run.
    SessionConfig {
        streams: u8,
        batch_bytes: u64,
        chunk_bytes: u64,
        window: u32,
        delete: bool,
        checksum: bool,
        paranoid: bool,
        dry_run: bool,
        exclude_patterns: Vec<Vec<u8>>,
        filter_rules: Vec<Vec<u8>>,
    },
    /// One page of a side's scan of its tree.
    Scan {
        scan_id: u64,
        final_page: bool,
        entries: Vec<EntryRecord>,
    },
    /// A directory, symlink or metadata-only change, or a deletion.
    Metadata {
        operation: MetadataOperation,
        path: Vec<u8>,
        target: Vec<u8>,
        mode: u32,
        mtime_ns: i64,
    },
    /// Files whose complete contents follow, one segment each.
    FileBatch {
        batch_id: u64,
        entries: Vec<EntryRecord>,
    },
    /// Bytes of a file starting at `offset`, with their BLAKE3 digest.
    FileSegment {
        file_id: u64,
        offset: u64,
        digest: [u8; 32],
        data: Vec<u8>,
    },
    /// A large file about to be sent in ranges.
    LargeFilePrepare {
        file_id: u64,
        path: Vec<u8>,
        size: u64,
        mtime_ns: i64,
        mode: u32,
        fingerprint: [u8; 32],
    },
    /// A request for one range of a large file.
    LargeFileRange {
        file_id: u64,
        range: ByteRange,
    },
    /// The end of a large file, with the digest of its whole contents.
    LargeFileFinish {
        file_id: u64,
        digest: [u8; 32],
    },
    /// One page of the ranges of a large file the receiver already holds.
    ResumePage {
        file_id: u64,
        page: u32,
        final_page: bool,
        ranges: Vec<ByteRange>,
    },
    /// The closing counts of a transfer.
    Stats {
        files: u64,
        bytes: u64,
        skipped: u64,
        warnings: u64,
        failed: u64,
    },
}

impl Message {
    /// The name of the message's variant, for diagnostics.
    pub open spec fn spec_name(&self) -> Seq<char> {
        match self {
            Message::Handshake { .. } => "Handshake"@,
            Message::Ack { .. } => "Ack"@,
            Message::Error { .. } => "Error"@,
            Message::SessionConfig { .. } => "SessionConfig"@,
            Message::Scan { .. } => "Scan"@,
            Message::Metadata { .. } => "Metadata"@,
            Message::FileBatch { .. } => "FileBatch"@,
            Message::FileSegment { .. } => "FileSegment"@,
            Message::LargeFilePrepare { .. } => "LargeFilePrepare"@,
            Message::LargeFileRange { .. } => "LargeFileRange"@,
            Message::LargeFileFinish { .. } => "LargeFileFinish"@,
            Message::ResumePage { .. } => "ResumePage"@,
            Message::Stats { .. } => "Stats"@,
        }
    }

    /// The name of the message's variant, for diagnostics.
    pub fn name(&self) -> (r: &'static str)
        ensures
            r@ == self.spec_name(),
    {
        match self {
            Message::Handshake { .. } => "Handshake",
            Message::Ack { .. } => "Ack",
            Message::Error { .. } => "Error",
            Message::SessionConfig { .. } => "SessionConfig",
            Message::Scan { .. } => "Scan",
            Message::Metadata { .. } => "Metadata",
            Message::FileBatch { .. } => "FileBatch",
            Message::FileSegment { .. } => "FileSegment",
            Message::LargeFilePrepare { .. } => "LargeFilePrepare",
            Message::LargeFileRange { .. } => "LargeFileRange",
            Message::LargeFileFinish { .. } => "LargeFileFinish",
            Message::ResumePage { .. } => "ResumePage",
            Message::Stats { .. } => "Stats",
        }
    }
}

/// A decoded v1 frame.
#[derive(Debug, Clone, PartialEq, Eq)]
pub struct Frame {
    pub message_id: u64,
    pub message: Message,
}

/// One directory entry of a browse listing.
#[derive(Debug, Clone, PartialEq, Eq)]
pub struct BrowseEntry {
    pub name: Vec<u8>,
    /// 1 file, 2 directory, 3 symlink, 4 other.
    pub kind: u8,
    pub size: u64,
    pub mtime_ns: i64,
    pub mode: u32,
    pub symlink_target: Vec<u8>,
}

/// Outcome of a browse mutation.
#[derive(Debug, Clone, Copy, PartialEq, Eq, Structural)]
pub enum MutationStatus {
    Done,
    AlreadyExists,
    ParentMissing,
    PermissionDenied,
    CrossDevice,
    Error,
}

impl MutationStatus {
    /// The status number carried on the wire.
    pub open spec fn spec_code(self) -> u16 {
        match self {
            MutationStatus::Done => 0,
            MutationStatus::AlreadyExists => 1,
            MutationStatus::ParentMissing => 2,
            MutationStatus::PermissionDenied => 3,
            MutationStatus::CrossDevice => 4,
            MutationStatus::Error => 5,
        }
    }

    /// The status number carried on the wire.
    pub fn code(self) -> (r: u16)
        ensures
            r == self.spec_code(),
    {
        match self {
            MutationStatus::Done => 0,
            MutationStatus::AlreadyExists => 1,
            MutationStatus::ParentMissing => 2,
            MutationStatus::PermissionDenied => 3,
            MutationStatus::CrossDevice => 4,
            MutationStatus::Error => 5,
        }
    }
}

/// Outcome of a browse stat or readlink.
#[derive(Debug, Clone, Copy, PartialEq, Eq, Structural)]
pub enum StatStatus {
    Found,
    Missing,
    Error,
}

impl StatStatus {
    /// The status number carried on the wire.
    pub open spec fn spec_code(self) -> u16 {
        match self {
            StatStatus::Found => 0,
            StatStatus::Missing => 1,
            StatStatus::Error => 2,
        }
    }

    /// The status number carried on the wire.
    pub fn code(self) -> (r: u16)
        ensures
            r == self.spec_code(),
    {
        match self {
            StatStatus::Found => 0,
            StatStatus::Missing => 1,
            StatStatus::Error => 2,
        }
    }
}

/// Outcome of publishing an edited file.
#[derive(Debug, Clone, Copy, PartialEq, Eq, Structural)]
pub enum PublishStatus {
    Published,
    Changed,
    Error,
}

/// Outcome of a recursive delete.
#[derive(Debug, Clone, Copy, PartialEq, Eq, Structural)]
pub enum DeleteStatus {
    Complete,
    Partial,
    Cancelled,
}

/// One item a recursive delete could not remove.
#[derive(Debug, Clone, PartialEq, Eq)]
pub struct DeleteFailure {
    pub path: Vec<u8>,
    pub errno: i32,
}

/// Messages of the v2 browse session.
#[derive(Debug, Clone, PartialEq, Eq)]
pub enum V2Message {
    ListRequest { path: Vec<u8>, page_token: u64, page_size: u32 },
    ListPage { related_id: u64, page_token: u64, final_page: bool, entries: Vec<BrowseEntry> },
    StatRequest { path: Vec<u8>, include_digest: bool },
    StatResponse {
        related_id: u64,
        status: StatStatus,
        entry: Option<BrowseEntry>,
        digest: Option<[u8; 32]>,
        error: Vec<u8>,
    },
    CancelRequest { related_id: u64 },
    BrowseError { related_id: u64, code: u16, message: Vec<u8> },
    Keepalive { nonce: u64 },
    KeepaliveAck { nonce: u64 },
    RenameRequest { source: Vec<u8>, destination: Vec<u8> },
    RenameResponse { related_id: u64, status: MutationStatus, error: Vec<u8> },
    CreateDirectoryRequest { path: Vec<u8> },
    CreateDirectoryResponse { related_id: u64, status: MutationStatus, error: Vec<u8> },
    SetPermissionsRequest { path: Vec<u8>, mode: u32 },
    SetPermissionsResponse { related_id: u64, status: MutationStatus, error: Vec<u8> },
    SetMtimeRequest { path: Vec<u8>, mtime_ns: i64 },
    SetMtimeResponse { related_id: u64, status: MutationStatus, error: Vec<u8> },
    ReadLinkRequest { path: Vec<u8> },
    ReadLinkResponse { related_id: u64, status: StatStatus, target: Vec<u8>, error: Vec<u8> },
    DeleteRequest { path: Vec<u8> },
    DeleteProgress { related_id: u64, path: Vec<u8>, removed: bool, error: Vec<u8> },
    DeleteResponse {
        related_id: u64,
        status: DeleteStatus,
        removed_count: u64,
        failures: Vec<DeleteFailure>,
        irreversible: bool,
    },
    FetchRequest { path: Vec<u8> },
    FetchStart { related_id: u64, size: u64, mtime_ns: i64, device: u64, file: u64, digest: [u8; 32] },
    FetchChunk { related_id: u64, offset: u64, data: Vec<u8> },
    PublishRequest {
        path: Vec<u8>,
        size: u64,
        mtime_ns: i64,
        device: u64,
        file: u64,
        content_size: u64,
        digest: [u8; 32],
    },
    PublishReady { related_id: u64 },
    PublishChunk { related_id: u64, offset: u64, data: Vec<u8> },
    PublishResponse {
        related_id: u64,
        status: PublishStatus,
        current_present: bool,
        size: u64,
        mtime_ns: i64,
        device: u64,
        file: u64,
        error: Vec<u8>,
    },
}

/// A decoded v2 frame.
#[derive(Debug, Clone, PartialEq, Eq)]
pub struct V2Frame {
    pub message_id: u64,
    pub message: V2Message,
}

/// The frozen error codes of the v3 filesystem session.
#[derive(Debug, Clone, Copy, PartialEq, Eq, Structural)]
pub enum FsErrorCode {
    NoEntry,
    Access,
    Exists,
    IsDirectory,
    NotDirectory,
    Loop,
    ReadOnly,
    NoSpace,
    Quota,
    NameTooLong,
    NotEmpty,
    Limit,
    Io,
    Invalid,
    BadHandle,
    Integrity,
    Cancelled,
    NotSupported,
}

/// The access an export or a mount request names.
#[derive(Debug, Clone, Copy, PartialEq, Eq, Structural)]
pub enum Access {
    ReadOnly,
    ReadWrite,
}

/// What a v3 `Stat` describes: a path below the export or an open handle.
#[derive(Debug, Clone, PartialEq, Eq)]
pub enum StatTarget {
    Path(Vec<u8>),
    Handle(u64),
}

/// Open the file for reading.
pub const OPEN_READ: u32 = 0x1;
/// Open the file for writing.
pub const OPEN_WRITE: u32 = 0x2;
/// Create the file when it is missing.
pub const OPEN_CREATE: u32 = 0x4;
/// Fail when the file already exists.
pub const OPEN_EXCL: u32 = 0x8;
/// Truncate the file on open.
pub const OPEN_TRUNC: u32 = 0x10;
/// Every write lands at the end of the file.
pub const OPEN_APPEND: u32 = 0x20;
/// Refuse a final symbolic link.
pub const OPEN_NOFOLLOW: u32 = 0x40;
/// Open a directory for listing.
pub const OPEN_DIRECTORY: u32 = 0x80;

/// The export can hold symbolic links.
pub const SUPPORTS_SYMLINKS: u64 = 0x1;
/// Names differing only in case name the same entry.
pub const SUPPORTS_CASE_INSENSITIVE: u64 = 0x2;
/// Names differing only in Unicode normalization name the same entry.
pub const SUPPORTS_NORMALIZATION_INSENSITIVE: u64 = 0x4;

/// An attribute request asks for the access time.
pub const ATTR_ATIME: u32 = 0x1;
/// An attribute request asks for the creation time.
pub const ATTR_BTIME: u32 = 0x2;
/// An attribute request asks for a symlink's target.
pub const ATTR_SYMLINK_TARGET: u32 = 0x4;
/// An attribute request asks for the owning user and group numbers.
pub const ATTR_OWNER: u32 = 0x8;
/// An attribute request asks for the link count.
pub const ATTR_NLINK: u32 = 0x10;
/// An attribute request asks for the status-change time.
pub const ATTR_CTIME: u32 = 0x20;
/// An attribute request asks for the device and inode numbers.
pub const ATTR_IDENTITY: u32 = 0x40;
/// An attribute request asks for a device file's device number.
pub const ATTR_RDEV: u32 = 0x80;
/// An attribute request asks for the space allocated on disk.
pub const ATTR_ALLOCATED_SIZE: u32 = 0x100;

/// The attributes of a filesystem entry a v3 reply carries: a fixed part,
/// and optional blocks present when asked for and available.
#[derive(Debug, Clone, PartialEq, Eq)]
pub struct Attrs {
    /// 1 file, 2 directory, 3 symlink, 4 other.
    pub kind: u8,
    pub mode: u32,
    pub size: u64,
    pub mtime_ns: i64,
    /// An opaque value that changes whenever the entry does.
    pub change_cookie: [u8; 16],
    pub atime_ns: Option<i64>,
    pub btime_ns: Option<i64>,
    pub symlink_target: Option<Vec<u8>>,
    pub owner: Option<(u32, u32)>,
    pub nlink: Option<u32>,
    pub ctime_ns: Option<i64>,
    pub identity: Option<(u64, u64)>,
    pub rdev: Option<u64>,
    pub allocated_size: Option<u64>,
}

/// Messages of the v3 filesystem session that the session logic examines.
#[derive(Debug, Clone, PartialEq, Eq)]
pub enum V3Message {
    Features { features: u64 },
    FeaturesAck { features: u64 },
    Keepalive { nonce: u64 },
    KeepaliveAck { nonce: u64 },
    Cancel { related_id: u64 },
    Mount { export: Vec<u8>, access: Access },
    Open { path: Vec<u8>, flags: u32, mode: u32, attr_mask: u32 },
    Close { handle: u64 },
    Read { handle: u64, offset: u64, length: u32, want_digest: bool },
    Write { handle: u64, offset: u64, digest: Option<[u8; 32]>, data: Vec<u8> },
    Flush { handle: u64 },
    Stat { target: StatTarget, follow: bool, attr_mask: u32 },
    ReadDir { handle: u64, cursor: u64, max_entries: u32, attr_mask: u32 },
    MountInfo {
        related_id: u64,
        export: Vec<u8>,
        /// What the export grants.
        access: Access,
        /// Whether this mount may write, and why not when it may not.
        effective_writable: bool,
        reason: Vec<u8>,
        options: Vec<u8>,
        case_sensitive: bool,
        /// How the filesystem normalizes names: always 0, as given.
        normalization: u8,
        max_name_len: u32,
        max_path_len: u32,
        /// `SUPPORTS_*` bits.
        supports: u64,
        max_read: u32,
        max_write: u32,
        attr_cache_ms: u32,
        dir_cache_ms: u32,
    },
    Done { related_id: u64 },
    Error { related_id: u64, code: FsErrorCode, platform_errno: i32, message: Vec<u8> },
}

/// A decoded v3 frame.
#[derive(Debug, Clone, PartialEq, Eq)]
pub struct V3Frame {
    pub message_id: u64,
    pub message: V3Message,
}

impl V2Message {
    /// The name of the message's variant, for diagnostics.
    pub open spec fn spec_name(&self) -> Seq<char> {
        match self {
            V2Message::ListRequest { .. } => "ListRequest"@,
            V2Message::ListPage { .. } => "ListPage"@,
            V2Message::StatRequest { .. } => "StatRequest"@,
            V2Message::StatResponse { .. } => "StatResponse"@,
            V2Message::CancelRequest { .. } => "CancelRequest"@,
            V2Message::BrowseError { .. } => "BrowseError"@,
            V2Message::Keepalive { .. } => "Keepalive"@,
            V2Message::KeepaliveAck { .. } => "KeepaliveAck"@,
            V2Message::RenameRequest { .. } => "RenameRequest"@,
            V2Message::RenameResponse { .. } => "RenameResponse"@,
            V2Message::CreateDirectoryRequest { .. } => "CreateDirectoryRequest"@,
            V2Message::CreateDirectoryResponse { .. } => "CreateDirectoryResponse"@,
            V2Message::SetPermissionsRequest { .. } => "SetPermissionsRequest"@,
            V2Message::SetPermissionsResponse { .. } => "SetPermissionsResponse"@,
            V2Message::SetMtimeRequest { .. } => "SetMtimeRequest"@,
            V2Message::SetMtimeResponse { .. } => "SetMtimeResponse"@,
            V2Message::ReadLinkRequest { .. } => "ReadLinkRequest"@,
            V2Message::ReadLinkResponse { .. } => "ReadLinkResponse"@,
            V2Message::DeleteRequest { .. } => "DeleteRequest"@,
            V2Message::DeleteProgress { .. } => "DeleteProgress"@,
            V2Message::DeleteResponse { .. } => "DeleteResponse"@,
            V2Message::FetchRequest { .. } => "FetchRequest"@,
            V2Message::FetchStart { .. } => "FetchStart"@,
            V2Message::FetchChunk { .. } => "FetchChunk"@,
            V2Message::PublishRequest { .. } => "PublishRequest"@,
            V2Message::PublishReady { .. } => "PublishReady"@,
            V2Message::PublishChunk { .. } => "PublishChunk"@,
            V2Message::PublishResponse { .. } => "PublishResponse"@,
        }
    }

    /// The name of the message's variant, for diagnostics.
    pub fn name(&self) -> (r: &'static str)
        ensures
            r@ == self.spec_name(),
    {
        match self {
            V2Message::ListRequest { .. } => "ListRequest",
            V2Message::ListPage { .. } => "ListPage",
            V2Message::StatRequest { .. } => "StatRequest",
            V2Message::StatResponse { .. } => "StatResponse",
            V2Message::CancelRequest { .. } => "CancelRequest",
            V2Message::BrowseError { .. } => "BrowseError",
            V2Message::Keepalive { .. } => "Keepalive",
            V2Message::KeepaliveAck { .. } => "KeepaliveAck",
            V2Message::RenameRequest { .. } => "RenameRequest",
            V2Message::RenameResponse { .. } => "RenameResponse",
            V2Message::CreateDirectoryRequest { .. } => "CreateDirectoryRequest",
            V2Message::CreateDirectoryResponse { .. } => "CreateDirectoryResponse",
            V2Message::SetPermissionsRequest { .. } => "SetPermissionsRequest",
            V2Message::SetPermissionsResponse { .. } => "SetPermissionsResponse",
            V2Message::SetMtimeRequest { .. } => "SetMtimeRequest",
            V2Message::SetMtimeResponse { .. } => "SetMtimeResponse",
            V2Message::ReadLinkRequest { .. } => "ReadLinkRequest",
            V2Message::ReadLinkResponse { .. } => "ReadLinkResponse",
            V2Message::DeleteRequest { .. } => "DeleteRequest",
            V2Message::DeleteProgress { .. } => "DeleteProgress",
            V2Message::DeleteResponse { .. } => "DeleteResponse",
            V2Message::FetchRequest { .. } => "FetchRequest",
            V2Message::FetchStart { .. } => "FetchStart",
            V2Message::FetchChunk { .. } => "FetchChunk",
            V2Message::PublishRequest { .. } => "PublishRequest",
            V2Message::PublishReady { .. } => "PublishReady",
            V2Message::PublishChunk { .. } => "PublishChunk",
            V2Message::PublishResponse { .. } => "PublishResponse",
        }
    }
}

impl V3Message {
    /// The name of the message's variant, for diagnostics.
    pub open spec fn spec_name(&self) -> Seq<char> {
        match self {
            V3Message::Features { .. } => "Features"@,
            V3Message::FeaturesAck { .. } => "FeaturesAck"@,
            V3Message::Keepalive { .. } => "Keepalive"@,
            V3Message::KeepaliveAck { .. } => "KeepaliveAck"@,
            V3Message::Cancel { .. } => "Cancel"@,
            V3Message::Mount { .. } => "Mount"@,
            V3Message::Open { .. } => "Open"@,
            V3Message::Close { .. } => "Close"@,
            V3Message::Read { .. } => "Read"@,
            V3Message::Write { .. } => "Write"@,
            V3Message::Flush { .. } => "Flush"@,
            V3Message::Stat { .. } => "Stat"@,
            V3Message::ReadDir { .. } => "ReadDir"@,
            V3Message::MountInfo { .. } => "MountInfo"@,
            V3Message::Done { .. } => "Done"@,
            V3Message::Error { .. } => "Error"@,
        }
    }

    /// The name of the message's variant, for diagnostics.
    pub fn name(&self) -> (r: &'static str)
        ensures
            r@ == self.spec_name(),
    {
        match self {
            V3Message::Features { .. } => "Features",
            V3Message::FeaturesAck { .. } => "FeaturesAck",
            V3Message::Keepalive { .. } => "Keepalive",
            V3Message::KeepaliveAck { .. } => "KeepaliveAck",
            V3Message::Cancel { .. } => "Cancel",
            V3Message::Mount { .. } => "Mount",
            V3Message::Open { .. } => "Open",
            V3Message::Close { .. } => "Close",
            V3Message::Read { .. } => "Read",
            V3Message::Write { .. } => "Write",
            V3Message::Flush { .. } => "Flush",
            V3Message::Stat { .. } => "Stat",
            V3Message::ReadDir { .. } => "ReadDir",
            V3Message::MountInfo { .. } => "MountInfo",
            V3Message::Done { .. } => "Done",
            V3Message::Error { .. } => "Error",
        }
    }
}

} // verus!
