//! Stable source reads with scan/open/read/verify mutation detection.
//!
//! A read is retried once when the file changed between the scan and the
//! end of the read; a second change fails the file. This module resolves
//! source paths and decides each step; the embedding program opens, reads
//! and fingerprints the file.

use vstd::prelude::*;
use vstd::string::StringSliceAdditionalSpecFns;
pub use crate::error::SourceReadError;
use crate::scan::{EntryKind, FileEntry, SourceFingerprint};
use crate::digest::{blake3_digest, blake3_hash};
use crate::paths::{join_relative, joined};
use crate::text::utf8_lossy;
use crate::wire_path::{dot_component_at, dotdot_component_at};

verus! {

/// Number of complete source-read attempts, including one retry after change.
pub const MAX_SOURCE_READ_ATTEMPTS: u8 = 2;

/// Whether a relative path may be read under a source root, as
/// `Path::components` sees it: not empty, not absolute, not starting with a
/// `.` component, and with no `..` component. Empty and inner `.` components
/// name nothing and are skipped.
pub open spec fn valid_source_path(s: Seq<u8>) -> bool {
    &&& s.len() > 0
    &&& s[0] != 0x2f
    &&& !dot_component_at(s, 0)
    &&& forall|i: int| 0 <= i < s.len() ==> !#[trigger] dotdot_component_at(s, i)
}

fn check_source_path(s: &[u8]) -> (r: bool)
    ensures
        r == valid_source_path(s@),
{
    let n = s.len();
    if n == 0 || s[0] == 0x2f {
        return false;
    }
    if s[0] == 0x2e && (n == 1 || s[1] == 0x2f) {
        assert(dot_component_at(s@, 0));
        return false;
    }
    let mut i: usize = 0;
    while i < n
        invariant
            n == s@.len(),
            0 <= i <= n,
            forall|j: int| 0 <= j < i ==> !#[trigger] dotdot_component_at(s@, j),
        decreases n - i,
    {
        if (i == 0 || s[i - 1] == 0x2f) && i + 1 < n && s[i] == 0x2e && s[i + 1] == 0x2e && (i + 2
            == n || s[i + 2] == 0x2f) {
            assert(dotdot_component_at(s@, i as int));
            return false;
        }
        i = i + 1;
    }
    true
}

/// Reads source files relative to one root without following symlinks.
/// The root is held as text; paths under it are joined here and opened by
/// the embedding program.
#[derive(Debug)]
pub struct SourceReader {
    root: String,
}

/// What one complete read attempt found.
#[derive(Debug)]
pub enum AttemptResult {
    /// The file read as the version the entry describes.
    Stable,
    /// The file changed between the scan, the open and the end of the read.
    Changed,
    /// The file disappeared.
    Vanished,
    /// Opening, reading or fingerprinting failed.
    Failed(SourceReadError),
}

/// What a refresh of a changed file's metadata found.
#[derive(Debug)]
pub enum RefreshResult {
    /// It is still a regular file, described by this entry.
    File(FileEntry),
    /// It is no longer a regular file; the previous entry is kept.
    Changed,
    /// It disappeared.
    Vanished,
    /// Its metadata could not be read.
    Failed(SourceReadError),
}

/// The next step of a stable read.
#[derive(Debug)]
pub enum ReadStep {
    /// The bytes of this attempt (counted from one) are the result.
    Done(u8),
    /// Refresh the entry's metadata, then make attempt number `next`.
    Refresh { next: u8 },
    /// The read fails.
    Fail(SourceReadError),
}

/// The error a vanished source is reported with.
pub open spec fn is_vanished_error(e: SourceReadError, path: Seq<u8>) -> bool {
    e matches SourceReadError::Vanished { path: p } && p@ == utf8_lossy(path)
}

impl SourceReader {
    /// The source root.
    pub closed spec fn spec_root(&self) -> Seq<char> {
        self.root@
    }

    /// A reader rooted at `root`.
    pub fn new(root: String) -> (r: SourceReader)
        ensures
            r.spec_root() == root@,
    {
        SourceReader { root }
    }

    /// The file a protocol-relative source path names under the root: the
    /// root with each of its normal components pushed in turn (empty and
    /// inner `.` components name nothing); an empty, absolute or climbing
    /// path is refused.
    pub fn source_path(&self, relative: &str) -> (r: Result<String, SourceReadError>)
        ensures
            r is Ok <==> valid_source_path(relative.spec_bytes()),
            r matches Err(e) ==> e matches SourceReadError::InvalidPath { path: p } && p@
                == relative@,
            r matches Ok(p) ==> p@ == joined(self.spec_root(), relative@),
    {
        if !check_source_path(relative.as_bytes()) {
            return Err(SourceReadError::InvalidPath { path: relative.to_owned() });
        }
        Ok(join_relative(self.root.as_str(), relative))
    }

    /// Checks that an entry may be read at all: it must be a regular file.
    pub fn check_readable(entry: &FileEntry) -> (r: Result<(), SourceReadError>)
        ensures
            r is Ok <==> entry.kind == EntryKind::File,
            r matches Err(e) ==> e matches SourceReadError::WrongKind { path: p, kind: k } && p@
                == utf8_lossy(entry.path@) && k == entry.kind,
    {
        if entry.kind != EntryKind::File {
            return Err(SourceReadError::WrongKind { path: entry.path.to_string(), kind: entry.kind });
        }
        Ok(())
    }

    /// The step after attempt `attempt` (counted from one) of reading
    /// `entry`: a stable read is done; a vanished file or a failure ends the
    /// read; a change is refreshed and retried once, and a second change makes
    /// the read unstable.
    pub fn after_attempt(entry: &FileEntry, attempt: u8, result: AttemptResult) -> (r: ReadStep)
        requires
            1 <= attempt <= MAX_SOURCE_READ_ATTEMPTS,
        ensures
            match result {
                AttemptResult::Stable => r == ReadStep::Done(attempt),
                AttemptResult::Vanished => r matches ReadStep::Fail(e) && is_vanished_error(
                    e,
                    entry.path@,
                ),
                AttemptResult::Failed(e) => r == ReadStep::Fail(e),
                AttemptResult::Changed => if attempt == MAX_SOURCE_READ_ATTEMPTS {
                    r matches ReadStep::Fail(e) && e matches SourceReadError::Unstable {
                        path: p,
                        attempts: n,
                    } && p@ == utf8_lossy(entry.path@) && n == attempt
                } else {
                    r == ReadStep::Refresh { next: (attempt + 1) as u8 }
                },
            },
    {
        match result {
            AttemptResult::Stable => ReadStep::Done(attempt),
            AttemptResult::Vanished => ReadStep::Fail(
                SourceReadError::Vanished { path: entry.path.to_string() },
            ),
            AttemptResult::Failed(e) => ReadStep::Fail(e),
            AttemptResult::Changed => {
                if attempt == MAX_SOURCE_READ_ATTEMPTS {
                    ReadStep::Fail(
                        SourceReadError::Unstable { path: entry.path.to_string(), attempts: attempt },
                    )
                } else {
                    ReadStep::Refresh { next: attempt + 1 }
                }
            },
        }
    }

    /// The entry the next attempt reads after a refresh: the refreshed entry
    /// when the path is still a regular file, the previous one when it is
    /// not; a vanished file or a failed refresh ends the read.
    pub fn after_refresh(entry: &FileEntry, current: FileEntry, refreshed: RefreshResult) -> (r:
        Result<FileEntry, SourceReadError>)
        ensures
            match refreshed {
                RefreshResult::File(f) => r == Ok::<FileEntry, SourceReadError>(f),
                RefreshResult::Changed => r == Ok::<FileEntry, SourceReadError>(current),
                RefreshResult::Vanished => r matches Err(e) && is_vanished_error(e, entry.path@),
                RefreshResult::Failed(e) => r == Err::<FileEntry, SourceReadError>(e),
            },
    {
        match refreshed {
            RefreshResult::File(f) => Ok(f),
            RefreshResult::Changed => Ok(current),
            RefreshResult::Vanished => Err(SourceReadError::Vanished { path: entry.path.to_string() }),
            RefreshResult::Failed(e) => Err(e),
        }
    }
}

/// The verdict on a read attempt from the fingerprints it took so far: the
/// opened descriptor's before reading, the descriptor's after reading, and
/// the pathname's after that. The attempt is `Changed` as soon as one
/// differs from the version the entry describes (the pathname's from the
/// descriptor's), and `Stable` when all three agree; `None` means the
/// attempt goes on to take the next fingerprint.
pub open spec fn spec_classify_attempt(
    expected: SourceFingerprint,
    opened: SourceFingerprint,
    after_read: Option<SourceFingerprint>,
    pathname: Option<SourceFingerprint>,
) -> Option<AttemptResult> {
    if opened != expected {
        Some(AttemptResult::Changed)
    } else {
        match after_read {
            None => None,
            Some(a) => if a != expected {
                Some(AttemptResult::Changed)
            } else {
                match pathname {
                    None => None,
                    Some(p) => if p == a {
                        Some(AttemptResult::Stable)
                    } else {
                        Some(AttemptResult::Changed)
                    },
                }
            },
        }
    }
}

/// A read attempt is `Stable` exactly when every fingerprint it took — the
/// opened descriptor's, the descriptor's after reading and the pathname's —
/// is the version the scan recorded; any fingerprint that differs from that
/// version, taken at any step, makes it `Changed`, whatever the others say.
pub proof fn lemma_stable_only_when_unchanged(
    expected: SourceFingerprint,
    opened: SourceFingerprint,
    after_read: Option<SourceFingerprint>,
    pathname: Option<SourceFingerprint>,
)
    ensures
        spec_classify_attempt(expected, opened, after_read, pathname) == Some(AttemptResult::Stable) <==> (
        opened == expected && after_read == Some(expected) && pathname == Some(expected)),
        opened != expected ==> spec_classify_attempt(expected, opened, after_read, pathname) == Some(
            AttemptResult::Changed,
        ),
        (after_read matches Some(a) && a != expected) ==> spec_classify_attempt(
            expected,
            opened,
            after_read,
            pathname,
        ) == Some(AttemptResult::Changed),
        (pathname matches Some(p) && p != expected && after_read is Some) ==> spec_classify_attempt(
            expected,
            opened,
            after_read,
            pathname,
        ) == Some(AttemptResult::Changed),
        opened == expected && after_read is None ==> spec_classify_attempt(expected, opened, after_read, pathname)
            is None,
        opened == expected && after_read == Some(expected) && pathname is None ==> spec_classify_attempt(
            expected,
            opened,
            after_read,
            pathname,
        ) is None,
{
}

/// Decide a read attempt from the fingerprints it took so far; see
/// [`spec_classify_attempt`].
pub fn classify_attempt(
    entry: &FileEntry,
    opened: &SourceFingerprint,
    after_read: Option<&SourceFingerprint>,
    pathname: Option<&SourceFingerprint>,
) -> (r: Option<AttemptResult>)
    ensures
        r == spec_classify_attempt(
            entry.fingerprint,
            *opened,
            match after_read {
                Some(a) => Some(*a),
                None => None,
            },
            match pathname {
                Some(p) => Some(*p),
                None => None,
            },
        ),
{
    if *opened != entry.fingerprint {
        return Some(AttemptResult::Changed);
    }
    match after_read {
        None => None,
        Some(a) => {
            if *a != entry.fingerprint {
                return Some(AttemptResult::Changed);
            }
            match pathname {
                None => None,
                Some(p) => if *p == *a {
                    Some(AttemptResult::Stable)
                } else {
                    Some(AttemptResult::Changed)
                },
            }
        },
    }
}

/// The BLAKE3 digest of a stable read's bytes.
pub fn stable_read_digest(bytes: &[u8]) -> (r: [u8; 32])
    ensures
        r@ == blake3_hash(bytes@),
{
    blake3_digest(bytes)
}

} // verus!
