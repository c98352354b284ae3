//! What a scan records about one entry of a tree.

use vstd::prelude::*;
use crate::wire_path::WirePath;

verus! {

/// The kind of a scanned entry.
#[derive(Debug, Clone, Copy, PartialEq, Eq, Structural)]
pub enum EntryKind {
    File,
    Directory,
    Symlink,
    Other,
}

impl EntryKind {
    /// The kind's name as debug output shows it.
    pub open spec fn spec_name(self) -> Seq<char> {
        match self {
            EntryKind::File => "File"@,
            EntryKind::Directory => "Directory"@,
            EntryKind::Symlink => "Symlink"@,
            EntryKind::Other => "Other"@,
        }
    }

    /// The kind's name as debug output shows it.
    pub fn name(self) -> (r: &'static str)
        ensures
            r@ == self.spec_name(),
    {
        match self {
            EntryKind::File => "File",
            EntryKind::Directory => "Directory",
            EntryKind::Symlink => "Symlink",
            EntryKind::Other => "Other",
        }
    }
}

/// The filesystem identity of a file: device and file number.
#[derive(Debug, Clone, Copy, PartialEq, Eq, Structural)]
pub struct FileIdentity {
    pub device: u64,
    pub file: u64,
}

/// The metadata version a scan observed, used to detect a file changing
/// underneath a read.
#[derive(Debug, Clone, Copy, PartialEq, Eq, Structural)]
pub struct SourceFingerprint {
    pub identity: FileIdentity,
    pub kind: EntryKind,
    pub size: u64,
    /// Modification time, in nanoseconds since the Unix epoch.
    pub mtime: i64,
    /// Status-change time, in nanoseconds since the Unix epoch, where the
    /// platform has one.
    pub ctime: Option<i64>,
}

/// One scanned entry.
#[derive(Debug)]
pub struct FileEntry {
    /// Path relative to the scanned root.
    pub path: WirePath,
    pub kind: EntryKind,
    pub size: u64,
    /// Modification time, in nanoseconds since the Unix epoch.
    pub mtime: i64,
    pub mode: u32,
    pub fingerprint: SourceFingerprint,
}

impl Clone for FileEntry {
    fn clone(&self) -> (r: Self)
        ensures
            r.path@ == self.path@,
            r.kind == self.kind,
            r.size == self.size,
            r.mtime == self.mtime,
            r.mode == self.mode,
            r.fingerprint == self.fingerprint,
    {
        FileEntry {
            path: self.path.clone(),
            kind: self.kind,
            size: self.size,
            mtime: self.mtime,
            mode: self.mode,
            fingerprint: self.fingerprint,
        }
    }
}

} // verus!
