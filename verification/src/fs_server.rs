//! The decisions a v3 filesystem server makes for each request: which handle
//! a request names and what it may do with it, how many handles a session may
//! hold, how a directory listing is paged, and what a mount is allowed.
//! The filesystem calls themselves are made by the embedding program.

use vstd::prelude::*;
use std::collections::HashMap;
use crate::digest::{blake3_digest, blake3_hash};
use vstd::bytes::{spec_u64_to_le_bytes, u64_to_le_bytes};
use crate::entries::fs_error;
use crate::protocol::{
    Access, Attrs, FsErrorCode, V3Message, ATTR_ALLOCATED_SIZE, ATTR_ATIME, ATTR_BTIME, ATTR_CTIME,
    ATTR_IDENTITY, ATTR_NLINK, ATTR_OWNER, ATTR_RDEV, ATTR_SYMLINK_TARGET, SUPPORTS_CASE_INSENSITIVE,
    SUPPORTS_NORMALIZATION_INSENSITIVE, SUPPORTS_SYMLINKS, OPEN_APPEND, OPEN_CREATE, OPEN_DIRECTORY, OPEN_EXCL,
    OPEN_NOFOLLOW, OPEN_READ, OPEN_TRUNC, OPEN_WRITE,
};
use crate::text::{push_str, string_bytes};

verus! {

/// The largest read or write a mount advertises.
pub const DEFAULT_FS_MAX_TRANSFER: u32 = 1048576;

/// Handles a session may hold open at once unless configured otherwise.
pub const DEFAULT_FS_MAX_HANDLES: usize = 1024;

/// Requests a session works on at once unless configured otherwise.
pub const DEFAULT_FS_MAX_IN_FLIGHT: usize = 64;

/// Worker threads of a session unless configured otherwise.
pub const DEFAULT_FS_WORKERS: usize = 8;

/// What the server remembers of one open handle.
#[derive(Debug, Clone, Copy, PartialEq, Eq, Structural)]
pub struct HandleInfo {
    /// The flags it was opened with.
    pub flags: u32,
    /// Whether it is a directory handle (no file descriptor).
    pub directory: bool,
}

/// The open handles of one session and the slots reserved for opens in
/// progress.
pub struct HandleTable {
    handles: HashMap<u64, HandleInfo>,
    next_handle: u64,
    reserved: u64,
    max_handles: u64,
}

impl HandleTable {
    /// The open handles by number.
    pub closed spec fn open_handles(&self) -> Map<u64, HandleInfo> {
        self.handles@
    }

    /// Slots taken by open handles and by opens in progress.
    pub closed spec fn reserved_slots(&self) -> u64 {
        self.reserved
    }

    /// The most slots the session may take.
    pub closed spec fn limit(&self) -> u64 {
        self.max_handles
    }

    /// The number the next committed open receives.
    pub closed spec fn next_number(&self) -> u64 {
        self.next_handle
    }

    /// The table's invariant: every open handle holds a slot, the slots
    /// never exceed the limit, and every number handed out is non-zero and
    /// below the next one.
    pub closed spec fn wf(&self) -> bool {
        &&& self.handles@.dom().finite()
        &&& self.handles@.dom().len() <= self.reserved <= self.max_handles
        &&& self.next_handle >= 1
        &&& forall|id: u64| #[trigger] self.handles@.contains_key(id) ==> 1 <= id < self.next_handle
    }

    /// An empty table allowing `max_handles` open handles.
    pub fn new(max_handles: u64) -> (r: HandleTable)
        ensures
            r.wf(),
            r.open_handles() == Map::<u64, HandleInfo>::empty(),
            r.reserved_slots() == 0,
            r.limit() == max_handles,
            r.next_number() == 1,
    {
        let r = HandleTable { handles: HashMap::new(), next_handle: 1, reserved: 0, max_handles };
        assert(r.handles@ =~= Map::<u64, HandleInfo>::empty());
        r
    }

    /// Reserves a slot before an open starts; `false`, changing nothing, when
    /// the session is at its limit.
    pub fn reserve(&mut self) -> (r: bool)
        requires
            old(self).wf(),
        ensures
            final(self).wf(),
            r <==> old(self).reserved_slots() < old(self).limit(),
            r ==> final(self).reserved_slots() == old(self).reserved_slots() + 1,
            !r ==> final(self).reserved_slots() == old(self).reserved_slots(),
            final(self).open_handles() == old(self).open_handles(),
            final(self).limit() == old(self).limit(),
            final(self).next_number() == old(self).next_number(),
    {
        if self.reserved >= self.max_handles {
            return false;
        }
        self.reserved = self.reserved + 1;
        true
    }

    /// Gives back the slot of an open that failed.
    pub fn release_reserved(&mut self)
        requires
            old(self).wf(),
            old(self).open_handles().dom().len() < old(self).reserved_slots(),
        ensures
            final(self).wf(),
            final(self).reserved_slots() == old(self).reserved_slots() - 1,
            final(self).open_handles() == old(self).open_handles(),
            final(self).limit() == old(self).limit(),
            final(self).next_number() == old(self).next_number(),
    {
        self.reserved = self.reserved - 1;
    }

    /// Commits an open into its reserved slot, numbering the handle. Numbers
    /// are never zero and never reused within a session.
    pub fn commit(&mut self, info: HandleInfo) -> (r: Option<u64>)
        requires
            old(self).wf(),
            old(self).open_handles().dom().len() < old(self).reserved_slots(),
        ensures
            final(self).wf(),
            final(self).limit() == old(self).limit(),
            final(self).reserved_slots() == old(self).reserved_slots(),
            r is None <==> old(self).next_number() == u64::MAX,
            r is None ==> final(self).open_handles() == old(self).open_handles(),
            r matches Some(id) ==> {
                &&& id == old(self).next_number()
                &&& !old(self).open_handles().contains_key(id)
                &&& final(self).open_handles() == old(self).open_handles().insert(id, info)
                &&& final(self).next_number() == id + 1
            },
    {
        broadcast use vstd::std_specs::hash::group_hash_axioms;
        if self.next_handle == u64::MAX {
            return None;
        }
        let id = self.next_handle;
        let ghost before = self.handles@;
        self.handles.insert(id, info);
        self.next_handle = id + 1;
        proof {
            assert(!before.contains_key(id));
            assert(self.handles@.dom() =~= before.dom().insert(id));
        }
        Some(id)
    }

    /// The handle a request names, if it is open.
    pub fn get(&self, id: u64) -> (r: Option<HandleInfo>)
        requires
            self.wf(),
        ensures
            r == (if self.open_handles().contains_key(id) {
                Some(self.open_handles()[id])
            } else {
                None
            }),
    {
        broadcast use vstd::std_specs::hash::group_hash_axioms;
        match self.handles.get(&id) {
            Some(info) => Some(*info),
            None => None,
        }
    }

    /// Closes a handle and gives back its slot; `false`, changing nothing,
    /// when no such handle is open.
    pub fn close(&mut self, id: u64) -> (r: bool)
        requires
            old(self).wf(),
        ensures
            final(self).wf(),
            r <==> old(self).open_handles().contains_key(id),
            final(self).open_handles() == old(self).open_handles().remove(id),
            r ==> final(self).reserved_slots() == old(self).reserved_slots() - 1,
            !r ==> final(self).reserved_slots() == old(self).reserved_slots(),
            final(self).limit() == old(self).limit(),
            final(self).next_number() == old(self).next_number(),
    {
        broadcast use vstd::std_specs::hash::group_hash_axioms;
        let ghost before = self.handles@;
        match self.handles.remove(&id) {
            Some(_) => {
                proof {
                    assert(self.handles@.dom() =~= before.dom().remove(id));
                }
                self.reserved = self.reserved - 1;
                true
            },
            None => {
                assert(self.handles@ =~= before.remove(id));
                false
            },
        }
    }
}

/// However opens, failures and closes interleave, a session never holds more
/// handles than its limit: each step keeps the table's invariant, which bounds
/// the open handles by the reserved slots and those by the limit.
pub proof fn lemma_handles_within_limit(table: HandleTable)
    requires
        table.wf(),
    ensures
        table.open_handles().dom().len() <= table.reserved_slots() <= table.limit(),
        !table.open_handles().contains_key(0),
{
}

/// The refusal a request naming no open handle gets.
pub open spec fn is_fs_error(r: V3Message, related_id: u64, code: FsErrorCode, text: Seq<char>) -> bool {
    r matches V3Message::Error { related_id: i, code: c, platform_errno, message } && i
        == related_id && c == code && platform_errno == 0 && message@ == vstd::utf8::encode_utf8(
        text,
    )
}

/// Checks a read against the handle it names: it must be an open file handle
/// opened for reading, and the length within the mount's `max_read`.
pub fn check_read(related_id: u64, handle: Option<HandleInfo>, length: u32) -> (r: Option<V3Message>)
    ensures
        match handle {
            None => r matches Some(m) && is_fs_error(m, related_id, FsErrorCode::BadHandle, "no such handle"@),
            Some(h) => if h.directory {
                r matches Some(m) && is_fs_error(m, related_id, FsErrorCode::IsDirectory, "handle is a directory; use ReadDir"@)
            } else if h.flags & OPEN_READ == 0 {
                r matches Some(m) && is_fs_error(m, related_id, FsErrorCode::Access, "handle was not opened for reading"@)
            } else if length > DEFAULT_FS_MAX_TRANSFER {
                r matches Some(m) && is_fs_error(m, related_id, FsErrorCode::Invalid, "read length exceeds the mount's max_read"@)
            } else {
                r is None
            },
        },
{
    match handle {
        None => Some(fs_error(related_id, FsErrorCode::BadHandle, "no such handle")),
        Some(h) => {
            if h.directory {
                Some(fs_error(related_id, FsErrorCode::IsDirectory, "handle is a directory; use ReadDir"))
            } else if h.flags & OPEN_READ == 0 {
                Some(fs_error(related_id, FsErrorCode::Access, "handle was not opened for reading"))
            } else if length > DEFAULT_FS_MAX_TRANSFER {
                Some(fs_error(related_id, FsErrorCode::Invalid, "read length exceeds the mount's max_read"))
            } else {
                None
            }
        },
    }
}

/// Checks a write against the handle it names, before any byte reaches the
/// file: an open file handle opened for writing, a payload within the mount's
/// `max_write`, and, when a digest came with it, a payload that hashes to it.
pub fn check_write(related_id: u64, handle: Option<HandleInfo>, digest: Option<[u8; 32]>, data: &[u8]) -> (r: Option<V3Message>)
    ensures
        match handle {
            None => r matches Some(m) && is_fs_error(m, related_id, FsErrorCode::BadHandle, "no such handle"@),
            Some(h) => if h.directory {
                r matches Some(m) && is_fs_error(m, related_id, FsErrorCode::IsDirectory, "handle is a directory and cannot be written"@)
            } else if h.flags & OPEN_WRITE == 0 {
                r matches Some(m) && is_fs_error(m, related_id, FsErrorCode::Access, "handle was not opened for writing"@)
            } else if data@.len() > DEFAULT_FS_MAX_TRANSFER {
                r matches Some(m) && is_fs_error(m, related_id, FsErrorCode::Invalid, "write length exceeds the mount's max_write"@)
            } else if digest matches Some(d) && blake3_hash(data@) != d@ {
                r matches Some(m) && is_fs_error(m, related_id, FsErrorCode::Integrity, "write payload does not match its digest; nothing was written"@)
            } else {
                r is None
            },
        },
{
    match handle {
        None => Some(fs_error(related_id, FsErrorCode::BadHandle, "no such handle")),
        Some(h) => {
            if h.directory {
                return Some(fs_error(related_id, FsErrorCode::IsDirectory, "handle is a directory and cannot be written"));
            }
            if h.flags & OPEN_WRITE == 0 {
                return Some(fs_error(related_id, FsErrorCode::Access, "handle was not opened for writing"));
            }
            if data.len() > DEFAULT_FS_MAX_TRANSFER as usize {
                return Some(fs_error(related_id, FsErrorCode::Invalid, "write length exceeds the mount's max_write"));
            }
            match digest {
                Some(expected) => {
                    let actual = blake3_digest(data);
                    let mut i: usize = 0;
                    while i < 32
                        invariant
                            i <= 32,
                            actual@.len() == 32,
                            expected@.len() == 32,
                            actual@ == blake3_hash(data@),
                            handle == Some(h),
                            !h.directory,
                            h.flags & OPEN_WRITE != 0,
                            data@.len() <= DEFAULT_FS_MAX_TRANSFER,
                            digest == Some(expected),
                            forall|k: int| 0 <= k < i ==> actual@[k] == expected@[k],
                        decreases 32 - i,
                    {
                        if actual[i] != expected[i] {
                            assert(actual@[i as int] != expected@[i as int]);
                            return Some(fs_error(related_id, FsErrorCode::Integrity, "write payload does not match its digest; nothing was written"));
                        }
                        i = i + 1;
                    }
                    assert(actual@ =~= expected@);
                    None
                },
                None => None,
            }
        },
    }
}

/// Whether a write handle ignores its offset and appends.
pub fn appends(info: HandleInfo) -> (r: bool)
    ensures
        r <==> info.flags & OPEN_APPEND != 0,
{
    info.flags & OPEN_APPEND != 0
}

/// Checks a flush or a listing request against the handle it names.
pub fn check_flush(related_id: u64, handle: Option<HandleInfo>) -> (r: Option<V3Message>)
    ensures
        match handle {
            None => r matches Some(m) && is_fs_error(m, related_id, FsErrorCode::BadHandle, "no such handle"@),
            Some(h) => if h.directory {
                r matches Some(m) && is_fs_error(m, related_id, FsErrorCode::IsDirectory, "handle is a directory and buffers nothing"@)
            } else {
                r is None
            },
        },
{
    match handle {
        None => Some(fs_error(related_id, FsErrorCode::BadHandle, "no such handle")),
        Some(h) => if h.directory {
            Some(fs_error(related_id, FsErrorCode::IsDirectory, "handle is a directory and buffers nothing"))
        } else {
            None
        },
    }
}

/// One page of a directory listing: the names `[start, end)` of the
/// captured listing, and whether it is the last.
#[derive(Debug, Clone, Copy, PartialEq, Eq, Structural)]
pub struct DirPageRange {
    pub start: usize,
    pub end: usize,
    pub final_page: bool,
}

/// The page a listing request selects from a captured listing of `count`
/// names: from `cursor`, at most `max_entries` names. A cursor past the end
/// is refused; the next page starts where this one ends.
pub fn dir_page(related_id: u64, handle: Option<HandleInfo>, count: usize, cursor: u64, max_entries: u32) -> (r: Result<DirPageRange, V3Message>)
    ensures
        match handle {
            None => r matches Err(m) && is_fs_error(m, related_id, FsErrorCode::BadHandle, "no such handle"@),
            Some(h) => if !h.directory {
                r matches Err(m) && is_fs_error(m, related_id, FsErrorCode::NotDirectory, "handle is a file; open it with DIRECTORY to list it"@)
            } else if cursor > usize::MAX {
                r matches Err(m) && is_fs_error(m, related_id, FsErrorCode::Invalid, "cursor is out of range"@)
            } else if cursor > count {
                r matches Err(m) && is_fs_error(m, related_id, FsErrorCode::Invalid, "cursor is past the end of this listing"@)
            } else {
                r matches Ok(p) && p.start == cursor && p.end == (if cursor + max_entries < count {
                    cursor + max_entries
                } else {
                    count as int
                }) && p.final_page == (p.end >= count)
            },
        },
{
    match handle {
        None => Err(fs_error(related_id, FsErrorCode::BadHandle, "no such handle")),
        Some(h) => {
            if !h.directory {
                return Err(fs_error(related_id, FsErrorCode::NotDirectory, "handle is a file; open it with DIRECTORY to list it"));
            }
            if cursor > usize::MAX as u64 {
                return Err(fs_error(related_id, FsErrorCode::Invalid, "cursor is out of range"));
            }
            let start = cursor as usize;
            if start > count {
                return Err(fs_error(related_id, FsErrorCode::Invalid, "cursor is past the end of this listing"));
            }
            let room = count - start;
            let take = if (max_entries as usize) < room { max_entries as usize } else { room };
            let end = start + take;
            Ok(DirPageRange { start, end, final_page: end >= count })
        },
    }
}

/// Paging a listing from cursor zero, each request starting where the last
/// page ended, visits every name once and in order: pages are adjacent, make
/// progress while any name is left when at least one name is asked for, and
/// only the page that reaches the end is final.
pub proof fn lemma_pages_tile(count: usize, cursor: u64, max_entries: u32, page: DirPageRange)
    requires
        cursor <= count,
        page.start == cursor,
        page.end == (if cursor + max_entries < count { cursor + max_entries } else { count as int }),
        page.final_page == (page.end >= count),
    ensures
        page.start <= page.end <= count,
        max_entries > 0 && cursor < count ==> page.end > page.start,
        page.final_page <==> page.end == count,
{
}

/// Why a session may not write, from a probe of the export root.
#[derive(Debug, Clone, Copy, PartialEq, Eq, Structural)]
pub enum WriteProbe {
    /// A probe file could be created.
    Writable,
    /// The filesystem is mounted read-only.
    ReadOnlyFilesystem,
    /// The user may not write there.
    PermissionDenied,
    /// The probe failed for another reason.
    Failed,
}

/// The reason a session may not write, if any: a read-only export first,
/// then what the probe of its root found.
pub fn write_barrier(read_only_export: bool, probe: WriteProbe) -> (r: Option<&'static str>)
    ensures
        read_only_export ==> (r matches Some(t) && t@ == "export is read-only"@),
        !read_only_export ==> match probe {
            WriteProbe::Writable => r is None,
            WriteProbe::ReadOnlyFilesystem => r matches Some(t) && t@ == "filesystem is mounted read-only"@,
            WriteProbe::PermissionDenied => r matches Some(t) && t@ == "no write permission on the export root"@,
            WriteProbe::Failed => r matches Some(t) && t@ == "the export root does not accept writes"@,
        },
{
    if read_only_export {
        return Some("export is read-only");
    }
    match probe {
        WriteProbe::Writable => None,
        WriteProbe::ReadOnlyFilesystem => Some("filesystem is mounted read-only"),
        WriteProbe::PermissionDenied => Some("no write permission on the export root"),
        WriteProbe::Failed => Some("the export root does not accept writes"),
    }
}

/// What a mount is granted.
#[derive(Debug, Clone, PartialEq, Eq)]
pub struct MountAccess {
    /// The export's own access.
    pub access: Access,
    /// Whether this mount may write.
    pub effective_writable: bool,
    /// Why it may not, empty when it may.
    pub reason: Vec<u8>,
}

/// The access a mount is granted. The client's request can only narrow what
/// the export allows; the reason names the barrier when there is one, and the
/// client's own request otherwise.
pub fn mount_access(read_only_export: bool, requested: Access, barrier: Option<&str>) -> (r: MountAccess)
    ensures
        r.access == (if read_only_export { Access::ReadOnly } else { Access::ReadWrite }),
        r.effective_writable <==> !read_only_export && requested != Access::ReadOnly && barrier is None,
        r.effective_writable ==> r.reason@.len() == 0,
        !r.effective_writable ==> r.reason@ == match barrier {
            Some(b) => vstd::utf8::encode_utf8(b@),
            None => vstd::utf8::encode_utf8("mounted read-only at the client's request"@),
        },
{
    let read_only = read_only_export || requested == Access::ReadOnly || barrier.is_some();
    let access = if read_only_export { Access::ReadOnly } else { Access::ReadWrite };
    let effective_writable = !read_only;
    let reason = if effective_writable {
        Vec::new()
    } else {
        match barrier {
            Some(b) => string_bytes(b),
            None => string_bytes("mounted read-only at the client's request"),
        }
    };
    MountAccess { access, effective_writable, reason }
}

/// Refuses a mount of a named export: this server has one unnamed export.
pub fn check_export_name(related_id: u64, export: &[u8]) -> (r: Option<V3Message>)
    ensures
        export@.len() == 0 <==> r is None,
        r matches Some(m) ==> is_fs_error(m, related_id, FsErrorCode::NoEntry, "this server has one unnamed export; send an empty export name"@),
{
    if export.len() != 0 {
        return Some(fs_error(related_id, FsErrorCode::NoEntry, "this server has one unnamed export; send an empty export name"));
    }
    None
}

/// Conventional name and path limits for the export root: 255-byte names,
/// and 260-byte paths on Windows or 4096 elsewhere.
pub fn name_and_path_limits(windows: bool) -> (r: (u32, u32))
    ensures
        r == (if windows { (255u32, 260u32) } else { (255u32, 4096u32) }),
{
    if windows {
        (255, 260)
    } else {
        (255, 4096)
    }
}

/// The reply to a request whose filesystem call failed: the failure's code
/// and OS error number, and the operation named before the error's text.
pub fn fs_io_error(related_id: u64, code: FsErrorCode, platform_errno: i32, context: &str, error: &str) -> (r: V3Message)
    ensures
        r matches V3Message::Error { related_id: i, code: c, platform_errno: e, message } && i
            == related_id && c == code && e == platform_errno && message@ == vstd::utf8::encode_utf8(
            context@ + ": "@ + error@,
        ),
{
    let mut text = String::new();
    push_str(&mut text, context);
    push_str(&mut text, ": ");
    push_str(&mut text, error);
    proof {
        reveal_strlit(": ");
    }
    V3Message::Error { related_id, code, platform_errno, message: string_bytes(text.as_str()) }
}

/// How an `Open` is carried out.
#[derive(Debug, Clone, Copy, PartialEq, Eq, Structural)]
pub struct OpenPlan {
    /// Open a directory handle (no file descriptor).
    pub directory: bool,
    pub read: bool,
    /// Write at explicit offsets.
    pub write: bool,
    /// Write at the end, ignoring offsets.
    pub append: bool,
    pub truncate: bool,
    /// Create the file when it is missing.
    pub create: bool,
    /// Create the file, failing when it exists.
    pub create_new: bool,
}

/// What is at an `Open`'s path before it is opened, as `symlink_metadata`
/// sees it.
#[derive(Debug, Clone, Copy, PartialEq, Eq, Structural)]
pub struct Existing {
    pub symlink: bool,
    pub directory: bool,
}

/// Decides an `Open` from its flags and what is at its path. With
/// `NOFOLLOW` a symlink is refused; without `DIRECTORY` a directory is
/// refused, since no read or write could use the handle. The options follow
/// the flags: `APPEND` writes at the end instead of at offsets, and `EXCL`
/// creates only a new file.
pub fn plan_open(related_id: u64, flags: u32, existing: Option<Existing>) -> (r: Result<OpenPlan, V3Message>)
    ensures
        (existing matches Some(e) && e.symlink && flags & OPEN_NOFOLLOW != 0) ==> (r matches Err(m) && is_fs_error(m,
            related_id, FsErrorCode::Loop, "path is a symbolic link and NOFOLLOW was requested"@)),
        !(existing matches Some(e) && e.symlink && flags & OPEN_NOFOLLOW != 0) ==> {
            if flags & OPEN_DIRECTORY != 0 {
                r == Ok::<OpenPlan, V3Message>(OpenPlan {
                    directory: true,
                    read: false,
                    write: false,
                    append: false,
                    truncate: false,
                    create: false,
                    create_new: false,
                })
            } else if existing matches Some(e) && e.directory {
                r matches Err(m) && is_fs_error(m, related_id, FsErrorCode::IsDirectory,
                    "path is a directory; open it with the DIRECTORY flag"@)
            } else {
                r == Ok::<OpenPlan, V3Message>(OpenPlan {
                    directory: false,
                    read: flags & OPEN_READ != 0,
                    write: flags & OPEN_WRITE != 0 && flags & OPEN_APPEND == 0,
                    append: flags & OPEN_APPEND != 0,
                    truncate: flags & OPEN_TRUNC != 0,
                    create: flags & OPEN_CREATE != 0 && flags & OPEN_EXCL == 0,
                    create_new: flags & OPEN_EXCL != 0,
                })
            }
        },
{
    match existing {
        Some(e) => {
            if e.symlink && flags & OPEN_NOFOLLOW != 0 {
                return Err(fs_error(related_id, FsErrorCode::Loop, "path is a symbolic link and NOFOLLOW was requested"));
            }
        },
        None => {},
    }
    if flags & OPEN_DIRECTORY != 0 {
        return Ok(OpenPlan {
            directory: true,
            read: false,
            write: false,
            append: false,
            truncate: false,
            create: false,
            create_new: false,
        });
    }
    match existing {
        Some(e) => {
            if e.directory {
                return Err(fs_error(related_id, FsErrorCode::IsDirectory, "path is a directory; open it with the DIRECTORY flag"));
            }
        },
        None => {},
    }
    Ok(OpenPlan {
        directory: false,
        read: flags & OPEN_READ != 0,
        write: flags & OPEN_WRITE != 0 && flags & OPEN_APPEND == 0,
        append: flags & OPEN_APPEND != 0,
        truncate: flags & OPEN_TRUNC != 0,
        create: flags & OPEN_CREATE != 0 && flags & OPEN_EXCL == 0,
        create_new: flags & OPEN_EXCL != 0,
    })
}

/// Refuses a `DIRECTORY` open of a path that, followed, is not a directory.
pub fn check_directory_target(related_id: u64, is_directory: bool) -> (r: Option<V3Message>)
    ensures
        is_directory <==> r is None,
        r matches Some(m) ==> is_fs_error(m, related_id, FsErrorCode::NotDirectory,
            "DIRECTORY was requested but the path is not a directory"@),
{
    if is_directory {
        None
    } else {
        Some(fs_error(related_id, FsErrorCode::NotDirectory, "DIRECTORY was requested but the path is not a directory"))
    }
}

/// What a mount found at the export root.
#[derive(Debug, Clone, Copy, PartialEq, Eq, Structural)]
pub enum ExportRoot {
    /// A directory: the mount may proceed.
    Directory,
    /// Something other than a directory.
    NotDirectory,
    /// Nothing readable, with the OS error number.
    Missing(i32),
}

/// Refuses a mount whose export root is not a usable directory.
pub fn check_export_root(related_id: u64, root: ExportRoot) -> (r: Option<V3Message>)
    ensures
        match root {
            ExportRoot::Directory => r is None,
            ExportRoot::NotDirectory => r matches Some(m) && is_fs_error(m, related_id, FsErrorCode::NotDirectory,
                "export root is not a directory"@),
            ExportRoot::Missing(errno) => r matches Some(V3Message::Error { related_id: i, code, platform_errno, message })
                && i == related_id && code == FsErrorCode::NoEntry && platform_errno == errno
                && message@ == vstd::utf8::encode_utf8("export root does not exist"@),
        },
{
    match root {
        ExportRoot::Directory => None,
        ExportRoot::NotDirectory => Some(fs_error(related_id, FsErrorCode::NotDirectory, "export root is not a directory")),
        ExportRoot::Missing(errno) => Some(
            V3Message::Error {
                related_id,
                code: FsErrorCode::NoEntry,
                platform_errno: errno,
                message: string_bytes("export root does not exist"),
            },
        ),
    }
}

/// The reply to a `Close`: done when the handle was open, a per-request
/// error otherwise.
pub fn close_reply(related_id: u64, closed: bool) -> (r: V3Message)
    ensures
        closed ==> r == (V3Message::Done { related_id }),
        !closed ==> is_fs_error(r, related_id, FsErrorCode::BadHandle, "no such handle"@),
{
    if closed {
        V3Message::Done { related_id }
    } else {
        fs_error(related_id, FsErrorCode::BadHandle, "no such handle")
    }
}

/// What a change cookie digests: the length and modification time, then,
/// where the platform has them, the device, inode and change time in
/// seconds and nanoseconds, each as little-endian eight-byte words.
pub open spec fn cookie_input(size: u64, mtime_ns: i64, unix: Option<(u64, u64, i64, i64)>) -> Seq<u8> {
    spec_u64_to_le_bytes(size) + spec_u64_to_le_bytes(mtime_ns as u64) + match unix {
        Some((device, inode, ctime, ctime_nsec)) => spec_u64_to_le_bytes(device) + spec_u64_to_le_bytes(
            inode,
        ) + spec_u64_to_le_bytes(ctime as u64) + spec_u64_to_le_bytes(ctime_nsec as u64),
        None => Seq::<u8>::empty(),
    }
}

/// An opaque sixteen-byte value that changes whenever the file does: the
/// first half of the BLAKE3 digest of its identity, length and both
/// timestamps, so an edit that keeps the length still changes it.
pub fn change_cookie(size: u64, mtime_ns: i64, unix: Option<(u64, u64, i64, i64)>) -> (r: [u8; 16])
    ensures
        r@ == blake3_hash(cookie_input(size, mtime_ns, unix)).take(16),
{
    let mut input: Vec<u8> = u64_to_le_bytes(size);
    let mut time = u64_to_le_bytes(mtime_ns as u64);
    input.append(&mut time);
    match unix {
        Some((device, inode, ctime, ctime_nsec)) => {
            let mut word = u64_to_le_bytes(device);
            input.append(&mut word);
            let mut word = u64_to_le_bytes(inode);
            input.append(&mut word);
            let mut word = u64_to_le_bytes(ctime as u64);
            input.append(&mut word);
            let mut word = u64_to_le_bytes(ctime_nsec as u64);
            input.append(&mut word);
        },
        None => {},
    }
    assert(input@ =~= cookie_input(size, mtime_ns, unix));
    let digest = blake3_digest(input.as_slice());
    let mut cookie = [0u8; 16];
    for k in 0..16
        invariant
            digest@.len() == 32,
            cookie@.len() == 16,
            forall|m: int| 0 <= m < k ==> cookie@[m] == digest@[m],
    {
        cookie[k] = digest[k];
    }
    assert(cookie@ =~= digest@.take(16));
    cookie
}

/// What a stat reports beyond the portable fields, on Unix.
#[derive(Debug, Clone, Copy, PartialEq, Eq, Structural)]
pub struct UnixStat {
    pub uid: u32,
    pub gid: u32,
    pub nlink: u64,
    /// Status-change time: whole seconds, and the nanoseconds past them.
    pub ctime: i64,
    pub ctime_nsec: i64,
    pub device: u64,
    pub inode: u64,
    pub rdev: u64,
    /// Allocated space in 512-byte blocks.
    pub blocks: u64,
}

/// What a stat of an entry found, as plain values.
#[derive(Debug, Clone, Copy, PartialEq, Eq, Structural)]
pub struct MetadataFacts {
    /// 1 file, 2 directory, 3 symlink, 4 other.
    pub kind: u8,
    pub mode: u32,
    pub size: u64,
    /// The times the platform could report, in signed nanoseconds since the
    /// Unix epoch.
    pub mtime_ns: Option<i64>,
    pub atime_ns: Option<i64>,
    pub btime_ns: Option<i64>,
    pub unix: Option<UnixStat>,
}

/// An integer clamped to the range of `i64`.
pub open spec fn saturated_i64(x: int) -> i64 {
    if x > i64::MAX {
        i64::MAX
    } else if x < i64::MIN {
        i64::MIN
    } else {
        x as i64
    }
}

fn clamp_i64(x: i128) -> (r: i64)
    ensures
        r == saturated_i64(x as int),
{
    if x > i64::MAX as i128 {
        i64::MAX
    } else if x < i64::MIN as i128 {
        i64::MIN
    } else {
        x as i64
    }
}

/// Whether an attribute request wants the block `bit`.
pub open spec fn wants(attr_mask: u32, bit: u32) -> bool {
    attr_mask & bit != 0
}

/// Whether answering an attribute request needs the entry's symlink target
/// read: it asked for it, and the entry is a symlink.
pub fn needs_link_target(kind: u8, attr_mask: u32) -> (r: bool)
    ensures
        r == (wants(attr_mask, ATTR_SYMLINK_TARGET) && kind == 3),
{
    attr_mask & ATTR_SYMLINK_TARGET != 0 && kind == 3
}

/// The attributes a v3 reply carries for an entry: the fixed part always,
/// with a missing modification time as zero and the change cookie over what
/// the platform reports; each optional block only when the request's mask
/// asks for it and the platform has it; a symlink target only for a
/// symlink whose target could be read; a device number only for an entry
/// that is neither file, directory nor symlink. The status-change time
/// and the allocated size saturate rather than wrap.
pub fn attrs_from_facts(facts: &MetadataFacts, link_target: Option<Vec<u8>>, attr_mask: u32) -> (r: Attrs)
    ensures
        r.kind == facts.kind,
        r.mode == facts.mode,
        r.size == facts.size,
        r.mtime_ns == (match facts.mtime_ns { Some(t) => t, None => 0 }),
        r.change_cookie@ == blake3_hash(cookie_input(
            facts.size,
            r.mtime_ns,
            match facts.unix {
                Some(u) => Some((u.device, u.inode, u.ctime, u.ctime_nsec)),
                None => None,
            },
        )).take(16),
        r.atime_ns == (if wants(attr_mask, ATTR_ATIME) { facts.atime_ns } else { None }),
        r.btime_ns == (if wants(attr_mask, ATTR_BTIME) { facts.btime_ns } else { None }),
        wants(attr_mask, ATTR_SYMLINK_TARGET) && facts.kind == 3 ==> match link_target {
            Some(t) => r.symlink_target matches Some(v) && v@ == t@,
            None => r.symlink_target is None,
        },
        !(wants(attr_mask, ATTR_SYMLINK_TARGET) && facts.kind == 3) ==> r.symlink_target is None,
        match facts.unix {
            None => {
                &&& r.owner is None && r.nlink is None && r.ctime_ns is None
                &&& r.identity is None && r.rdev is None && r.allocated_size is None
            },
            Some(u) => {
                &&& r.owner == (if wants(attr_mask, ATTR_OWNER) { Some((u.uid, u.gid)) } else { None })
                &&& r.nlink == (if wants(attr_mask, ATTR_NLINK) && u.nlink <= u32::MAX {
                    Some(u.nlink as u32)
                } else {
                    None
                })
                &&& r.ctime_ns == (if wants(attr_mask, ATTR_CTIME) {
                    Some(saturated_i64(saturated_i64(u.ctime * 1_000_000_000) + u.ctime_nsec))
                } else {
                    None
                })
                &&& r.identity == (if wants(attr_mask, ATTR_IDENTITY) { Some((u.device, u.inode)) } else { None })
                &&& r.rdev == (if wants(attr_mask, ATTR_RDEV) && facts.kind == 4 { Some(u.rdev) } else { None })
                &&& r.allocated_size == (if wants(attr_mask, ATTR_ALLOCATED_SIZE) {
                    Some(if u.blocks * 512 > u64::MAX { u64::MAX } else { (u.blocks * 512) as u64 })
                } else {
                    None
                })
            },
        },
{
    let mtime_ns = match facts.mtime_ns {
        Some(t) => t,
        None => 0,
    };
    let identity = match facts.unix {
        Some(u) => Some((u.device, u.inode, u.ctime, u.ctime_nsec)),
        None => None,
    };
    let cookie = change_cookie(facts.size, mtime_ns, identity);
    let symlink_target = if needs_link_target(facts.kind, attr_mask) {
        match link_target {
            Some(t) => Some(t),
            None => None,
        }
    } else {
        None
    };
    let mut attrs = Attrs {
        kind: facts.kind,
        mode: facts.mode,
        size: facts.size,
        mtime_ns,
        change_cookie: cookie,
        atime_ns: if attr_mask & ATTR_ATIME != 0 { facts.atime_ns } else { None },
        btime_ns: if attr_mask & ATTR_BTIME != 0 { facts.btime_ns } else { None },
        symlink_target,
        owner: None,
        nlink: None,
        ctime_ns: None,
        identity: None,
        rdev: None,
        allocated_size: None,
    };
    if let Some(u) = facts.unix {
        if attr_mask & ATTR_OWNER != 0 {
            attrs.owner = Some((u.uid, u.gid));
        }
        if attr_mask & ATTR_NLINK != 0 && u.nlink <= u32::MAX as u64 {
            attrs.nlink = Some(u.nlink as u32);
        }
        if attr_mask & ATTR_CTIME != 0 {
            let seconds = clamp_i64((u.ctime as i128) * 1_000_000_000);
            attrs.ctime_ns = Some(clamp_i64((seconds as i128) + (u.ctime_nsec as i128)));
        }
        if attr_mask & ATTR_IDENTITY != 0 {
            attrs.identity = Some((u.device, u.inode));
        }
        if attr_mask & ATTR_RDEV != 0 && facts.kind == 4 {
            attrs.rdev = Some(u.rdev);
        }
        if attr_mask & ATTR_ALLOCATED_SIZE != 0 {
            attrs.allocated_size = Some(
                match u.blocks.checked_mul(512) {
                    Some(bytes) => bytes,
                    None => u64::MAX,
                },
            );
        }
    }
    attrs
}

/// What a probe of the export root's filesystem found about names.
#[derive(Debug, Clone, Copy, PartialEq, Eq, Structural)]
pub struct PathSemantics {
    /// Names differing only in case collide.
    pub case_insensitive: bool,
    /// Names differing only in Unicode normalization collide.
    pub normalization_insensitive: bool,
}

/// The `supports` bits a mount reports: symlinks where the platform has
/// them, and the name collisions the probe found.
pub open spec fn spec_supports(symlinks: bool, semantics: PathSemantics) -> u64 {
    (if symlinks { SUPPORTS_SYMLINKS } else { 0u64 }) | (if semantics.case_insensitive {
        SUPPORTS_CASE_INSENSITIVE
    } else {
        0u64
    }) | (if semantics.normalization_insensitive { SUPPORTS_NORMALIZATION_INSENSITIVE } else { 0u64 })
}

/// Why a mount that may not write may not: the barrier to writing, or
/// else the client's own request.
pub open spec fn mount_reason(read_only_export: bool, probe: WriteProbe) -> Seq<char> {
    if read_only_export {
        "export is read-only"@
    } else {
        match probe {
            WriteProbe::Writable => "mounted read-only at the client's request"@,
            WriteProbe::ReadOnlyFilesystem => "filesystem is mounted read-only"@,
            WriteProbe::PermissionDenied => "no write permission on the export root"@,
            WriteProbe::Failed => "the export root does not accept writes"@,
        }
    }
}

/// The answer to a mount: refused for a named export or an unusable root;
/// otherwise what the export grants, what this mount may do and why not,
/// and the limits and name semantics of the filesystem. `probe` is what an
/// attempt to write at the root found, `unix` whether the platform has
/// symlinks, `windows` whether it has Windows path limits.
pub fn mount_info(
    related_id: u64,
    export: &[u8],
    requested: Access,
    read_only_export: bool,
    root: ExportRoot,
    probe: WriteProbe,
    semantics: PathSemantics,
    unix: bool,
    windows: bool,
) -> (r: V3Message)
    ensures
        export@.len() > 0 ==> is_fs_error(r, related_id, FsErrorCode::NoEntry,
            "this server has one unnamed export; send an empty export name"@),
        export@.len() == 0 ==> match root {
            ExportRoot::NotDirectory => is_fs_error(r, related_id, FsErrorCode::NotDirectory,
                "export root is not a directory"@),
            ExportRoot::Missing(errno) => r matches V3Message::Error { related_id: i, code, platform_errno, message }
                && i == related_id && code == FsErrorCode::NoEntry && platform_errno == errno
                && message@ == vstd::utf8::encode_utf8("export root does not exist"@),
            ExportRoot::Directory => {
                &&& r matches V3Message::MountInfo {
                    related_id: i,
                    export: e,
                    access,
                    effective_writable,
                    reason,
                    options,
                    case_sensitive,
                    normalization,
                    max_name_len,
                    max_path_len,
                    supports,
                    max_read,
                    max_write,
                    attr_cache_ms,
                    dir_cache_ms,
                }
                &&& i == related_id && e@.len() == 0 && options@.len() == 0
                &&& access == (if read_only_export { Access::ReadOnly } else { Access::ReadWrite })
                &&& effective_writable <==> !read_only_export && requested != Access::ReadOnly
                    && probe == WriteProbe::Writable
                &&& effective_writable ==> reason@.len() == 0
                &&& !effective_writable ==> reason@ == vstd::utf8::encode_utf8(
                    mount_reason(read_only_export, probe),
                )
                &&& case_sensitive == !semantics.case_insensitive && normalization == 0
                &&& (max_name_len, max_path_len) == (if windows { (255u32, 260u32) } else { (255u32, 4096u32) })
                &&& supports == spec_supports(unix, semantics)
                &&& max_read == DEFAULT_FS_MAX_TRANSFER && max_write == DEFAULT_FS_MAX_TRANSFER
                &&& attr_cache_ms == 0 && dir_cache_ms == 0
            },
        },
{
    if let Some(refusal) = check_export_name(related_id, export) {
        return refusal;
    }
    if let Some(refusal) = check_export_root(related_id, root) {
        return refusal;
    }
    let barrier = write_barrier(read_only_export, probe);
    let granted = mount_access(read_only_export, requested, barrier);
    let supports: u64 = (if unix { SUPPORTS_SYMLINKS } else { 0u64 }) | (if semantics.case_insensitive {
        SUPPORTS_CASE_INSENSITIVE
    } else {
        0u64
    }) | (if semantics.normalization_insensitive { SUPPORTS_NORMALIZATION_INSENSITIVE } else { 0u64 });
    let (max_name_len, max_path_len) = name_and_path_limits(windows);
    V3Message::MountInfo {
        related_id,
        export: Vec::new(),
        access: granted.access,
        effective_writable: granted.effective_writable,
        reason: granted.reason,
        options: Vec::new(),
        case_sensitive: !semantics.case_insensitive,
        normalization: 0,
        max_name_len,
        max_path_len,
        supports,
        max_read: DEFAULT_FS_MAX_TRANSFER,
        max_write: DEFAULT_FS_MAX_TRANSFER,
        attr_cache_ms: 0,
        dir_cache_ms: 0,
    }
}

} // verus!
