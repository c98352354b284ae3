//! Verified destination writes with deterministic temporary files.
//!
//! Received bytes are written under `.xsync.tmp.<hash-of-relpath>`, verified,
//! assigned their final metadata, and atomically renamed into place. A failed
//! verification is requested once more before becoming a file-level failure.
//! This module decides what may be written where and when a payload is good;
//! the filesystem calls themselves are made by the embedding program.

use vstd::prelude::*;
pub use crate::error::SinkError;
use crate::digest::{blake3_digest, blake3_hash};
use crate::filter::{after_last_slash, last_component_start};
use crate::scan::{EntryKind, FileEntry};
use crate::text::{chars_of, hex_bytes, push_hex_bytes, push_str, string_from_chars, utf8_lossy};
use crate::wire_path::{is_valid_wire_path, valid_wire_path};
use crate::destination::slash_count;
use crate::paths::{join_relative, joined};

verus! {

/// Number of receive attempts allowed after one verification failure.
pub const MAX_VERIFICATION_ATTEMPTS: u8 = 2;

/// Whether a symlink points to a file or directory.
///
/// Unix does not need this distinction. Windows requires it when creating the
/// link, including for links whose targets do not exist yet.
#[derive(Debug, Clone, Copy, PartialEq, Eq, Structural)]
pub enum SymlinkTargetKind {
    /// A file or another symlink.
    File,
    /// A directory.
    Directory,
}

/// Whether one `/`-separated part of a destination path is a plain name:
/// not empty, `.` or `..`.
pub open spec fn plain_part(part: Seq<char>) -> bool {
    part.len() > 0 && part != seq!['.'] && part != seq!['.', '.']
}

/// Whether every part of the rest of a path is plain, `current` being the
/// part read so far.
pub open spec fn parts_plain(current: Seq<char>, rest: Seq<char>) -> bool
    decreases rest.len(),
{
    if rest.len() == 0 {
        plain_part(current)
    } else if rest[0] == '/' {
        plain_part(current) && parts_plain(Seq::empty(), rest.drop_first())
    } else {
        parts_plain(current.push(rest[0]), rest.drop_first())
    }
}

/// Whether a protocol-relative path may be resolved under a destination
/// root: it is not empty, and each `/`-separated part is exactly one plain
/// path component (not empty, `.` or `..`).
pub open spec fn valid_destination(path: Seq<char>) -> bool {
    path.len() > 0 && parts_plain(Seq::empty(), path)
}

fn is_plain_part(part: &Vec<char>) -> (r: bool)
    ensures
        r == plain_part(part@),
{
    let n = part.len();
    if n == 0 {
        return false;
    }
    if n == 1 && part[0] == '.' {
        assert(part@ =~= seq!['.']);
        return false;
    }
    if n == 2 && part[0] == '.' && part[1] == '.' {
        assert(part@ =~= seq!['.', '.']);
        return false;
    }
    assert(seq!['.'].len() == 1 && seq!['.'][0] == '.');
    assert(seq!['.', '.'].len() == 2 && seq!['.', '.'][0] == '.' && seq!['.', '.'][1] == '.');
    assert(part@ != seq!['.']);
    assert(part@ != seq!['.', '.']);
    true
}

/// The name of the deterministic temporary file for a relative path.
pub open spec fn temporary_name(path: Seq<char>) -> Seq<char> {
    ".xsync.tmp."@ + hex_bytes(blake3_hash(vstd::utf8::encode_utf8(path)))
}

/// The relative path of the temporary file for a relative path: beside the
/// final file, in the same directory.
pub open spec fn temporary_relative(path: Seq<char>) -> Seq<char> {
    path.take(after_last_slash(path)) + temporary_name(path)
}

/// The error an unusable relative path is refused with.
pub open spec fn is_invalid_path_error(e: SinkError, path: Seq<char>) -> bool {
    e matches SinkError::InvalidPath { path: p } && p@ == path
}

fn invalid_path(path: &str) -> (r: SinkError)
    ensures
        is_invalid_path_error(r, path@),
{
    SinkError::InvalidPath { path: path.to_owned() }
}

fn check_destination(relative: &str) -> (r: Result<(), SinkError>)
    ensures
        r is Ok <==> valid_destination(relative@),
        r matches Err(e) ==> is_invalid_path_error(e, relative@),
{
    let chars = chars_of(relative);
    if chars.len() == 0 {
        return Err(invalid_path(relative));
    }
    let mut current: Vec<char> = Vec::new();
    let mut ok = true;
    assert(chars@.skip(0) =~= chars@);
    for i in 0..chars.len()
        invariant
            chars@ == relative@,
            parts_plain(Seq::empty(), relative@) == (ok && parts_plain(current@, chars@.skip(i as int))),
    {
        assert(chars@.skip(i as int).drop_first() =~= chars@.skip(i as int + 1));
        if chars[i] == '/' {
            ok = ok && is_plain_part(&current);
            current = Vec::new();
            assert(current@ =~= Seq::<char>::empty());
        } else {
            current.push(chars[i]);
        }
    }
    assert(chars@.skip(chars@.len() as int) =~= Seq::<char>::empty());
    ok = ok && is_plain_part(&current);
    if !ok {
        return Err(invalid_path(relative));
    }
    Ok(())
}

/// The relative path of the temporary file for a protocol-relative path.
pub fn temporary_relative_path(relative: &str) -> (r: Result<String, SinkError>)
    ensures
        r is Ok <==> valid_destination(relative@),
        r matches Err(e) ==> is_invalid_path_error(e, relative@),
        r matches Ok(s) ==> s@ == temporary_relative(relative@),
{
    check_destination(relative)?;
    let chars = chars_of(relative);
    let start = last_component_start(&chars);
    let mut prefix: Vec<char> = Vec::new();
    for i in 0..start
        invariant
            start <= chars@.len(),
            prefix@ == chars@.take(i as int),
    {
        assert(chars@.take(i as int + 1) == chars@.take(i as int).push(chars@[i as int]));
        prefix.push(chars[i]);
    }
    let mut s = string_from_chars(&prefix);
    push_str(&mut s, ".xsync.tmp.");
    let digest = blake3_digest(relative.as_bytes());
    push_hex_bytes(&mut s, digest.as_slice());
    proof {
        reveal_strlit(".xsync.tmp.");
    }
    Ok(s)
}

/// The error an entry of the wrong kind is refused with.
pub open spec fn is_wrong_kind_error(
    e: SinkError,
    entry_path: Seq<u8>,
    expected: Seq<char>,
    actual: EntryKind,
) -> bool {
    e matches SinkError::WrongKind { path: p, expected: x, actual: a } && p@ == utf8_lossy(
        entry_path,
    ) && x@ == expected && a == actual
}

/// Refuses an entry whose kind is not the one an operation needs.
pub fn require_kind(entry: &FileEntry, required: EntryKind, expected: &'static str) -> (r: Result<
    (),
    SinkError,
>)
    ensures
        r is Ok <==> entry.kind == required,
        r matches Err(e) ==> is_wrong_kind_error(e, entry.path@, expected@, entry.kind),
{
    if entry.kind == required {
        Ok(())
    } else {
        Err(SinkError::WrongKind { path: entry.path.to_string(), expected, actual: entry.kind })
    }
}

/// The number of `/` in a relative path, which orders directories deepest
/// first.
pub fn path_depth(path: &[u8]) -> (r: usize)
    ensures
        r == slash_count(path@),
{
    let mut n: usize = 0;
    let mut i: usize = 0;
    while i < path.len()
        invariant
            i <= path@.len(),
            n == slash_count(path@.take(i as int)),
            n <= i,
        decreases path.len() - i,
    {
        assert(path@.take(i as int + 1).drop_last() =~= path@.take(i as int));
        if path[i] == 47u8 {
            n = n + 1;
        }
        i = i + 1;
    }
    assert(path@.take(path@.len() as int) =~= path@);
    n
}

/// Whether a received payload is the expected one: the declared length and
/// the expected BLAKE3 digest.
pub fn payload_verified(expected_size: u64, expected_hash: &[u8; 32], data: &[u8]) -> (r: bool)
    ensures
        r <==> data@.len() == expected_size && blake3_hash(data@) == expected_hash@,
{
    if data.len() as u64 != expected_size {
        return false;
    }
    let digest = blake3_digest(data);
    let mut i: usize = 0;
    while i < 32
        invariant
            i <= 32,
            digest@.len() == 32,
            expected_hash@.len() == 32,
            digest@ == blake3_hash(data@),
            data@.len() == expected_size,
            forall|k: int| 0 <= k < i ==> digest@[k] == expected_hash@[k],
        decreases 32 - i,
    {
        if digest[i] != expected_hash[i] {
            assert(digest@[i as int] != expected_hash@[i as int]);
            return false;
        }
        i = i + 1;
    }
    assert(digest@ =~= expected_hash@);
    true
}

/// What to do after a payload was received and checked.
#[derive(Debug, Clone, Copy, PartialEq, Eq, Structural)]
pub enum AttemptOutcome {
    /// The payload verified: apply metadata and commit it.
    Commit,
    /// Ask the peer for the payload again, as this attempt number.
    RequestAgain(u8),
    /// Two payloads failed verification; the file fails.
    GiveUp,
}

/// The step after receiving attempt `attempt` (counted from one) of a
/// payload: commit a verified payload, request a bad one once more, and give
/// up after [`MAX_VERIFICATION_ATTEMPTS`] bad payloads.
pub fn after_payload(attempt: u8, verified: bool) -> (r: AttemptOutcome)
    requires
        1 <= attempt <= MAX_VERIFICATION_ATTEMPTS,
    ensures
        verified ==> r == AttemptOutcome::Commit,
        !verified && attempt < MAX_VERIFICATION_ATTEMPTS ==> r == AttemptOutcome::RequestAgain(
            (attempt + 1) as u8,
        ),
        !verified && attempt == MAX_VERIFICATION_ATTEMPTS ==> r == AttemptOutcome::GiveUp,
{
    if verified {
        AttemptOutcome::Commit
    } else if attempt < MAX_VERIFICATION_ATTEMPTS {
        AttemptOutcome::RequestAgain(attempt + 1)
    } else {
        AttemptOutcome::GiveUp
    }
}

/// No payload is ever requested a third time: a retry names an attempt
/// within the limit, and a bad payload at the limit ends the file.
pub proof fn lemma_attempts_bounded(attempt: u8, verified: bool, next: AttemptOutcome)
    requires
        1 <= attempt <= MAX_VERIFICATION_ATTEMPTS,
        verified ==> next == AttemptOutcome::Commit,
        !verified && attempt < MAX_VERIFICATION_ATTEMPTS ==> next == AttemptOutcome::RequestAgain(
            (attempt + 1) as u8,
        ),
        !verified && attempt == MAX_VERIFICATION_ATTEMPTS ==> next == AttemptOutcome::GiveUp,
    ensures
        next matches AttemptOutcome::RequestAgain(n) ==> attempt < n <= MAX_VERIFICATION_ATTEMPTS,
        next is GiveUp ==> !verified && attempt == MAX_VERIFICATION_ATTEMPTS,
{
}

/// Whether a chunk lies within its file: its end neither overflows nor
/// passes the file's size.
pub open spec fn chunk_in_file(offset: u64, length: u64, size: u64) -> bool {
    offset + length <= size
}

/// Refuses a chunk that does not lie within its file.
pub fn check_chunk_range(entry: &FileEntry, offset: u64, length: u64) -> (r: Result<(), SinkError>)
    ensures
        r is Ok <==> chunk_in_file(offset, length, entry.size),
        r matches Err(e) ==> e matches SinkError::InvalidChunkRange {
            path: p,
            offset: o,
            length: l,
            size: s,
        } && p@ == utf8_lossy(entry.path@) && o == offset && l == length && s == entry.size,
{
    match offset.checked_add(length) {
        Some(end) => if end <= entry.size {
            return Ok(());
        },
        None => {},
    }
    Err(
        SinkError::InvalidChunkRange {
            path: entry.path.to_string(),
            offset,
            length,
            size: entry.size,
        },
    )
}

/// A chunk accepted for receiving: it lies within its file, so the peer is
/// asked for its payload only after [`ChunkAttempt::begin`] accepted it.
pub struct ChunkAttempt {
    offset: u64,
    length: u64,
    attempt: u8,
}

impl ChunkAttempt {
    /// Where the chunk starts.
    pub closed spec fn spec_offset(&self) -> u64 {
        self.offset
    }

    /// How long the chunk is.
    pub closed spec fn spec_length(&self) -> u64 {
        self.length
    }

    /// The receive attempt under way, counted from one.
    pub closed spec fn spec_attempt(&self) -> u8 {
        self.attempt
    }

    /// The attempt count stays within the verification limit.
    pub closed spec fn wf(&self) -> bool {
        1 <= self.attempt <= MAX_VERIFICATION_ATTEMPTS
    }

    /// Accept a chunk of `entry` for receiving, or refuse it, before any
    /// payload is asked for, when it does not lie within the file.
    pub fn begin(entry: &FileEntry, offset: u64, length: u64) -> (r: Result<ChunkAttempt, SinkError>)
        ensures
            r is Ok <==> chunk_in_file(offset, length, entry.size),
            r matches Err(e) ==> e matches SinkError::InvalidChunkRange {
                path: p,
                offset: o,
                length: l,
                size: s,
            } && p@ == utf8_lossy(entry.path@) && o == offset && l == length && s == entry.size,
            r matches Ok(c) ==> c.wf() && c.spec_offset() == offset && c.spec_length() == length
                && c.spec_attempt() == 1,
    {
        check_chunk_range(entry, offset, length)?;
        Ok(ChunkAttempt { offset, length, attempt: 1 })
    }

    /// The receive attempt under way.
    pub fn attempt(&self) -> (r: u8)
        ensures
            r == self.spec_attempt(),
    {
        self.attempt
    }

    /// Judge one received payload: write a verified one at the chunk's
    /// offset, ask again for a bad one once, and give up after the limit.
    pub fn on_payload(&mut self, expected_hash: &[u8; 32], data: &[u8]) -> (r: AttemptOutcome)
        requires
            old(self).wf(),
        ensures
            final(self).wf(),
            final(self).spec_offset() == old(self).spec_offset(),
            final(self).spec_length() == old(self).spec_length(),
            ({
                let verified = data@.len() == old(self).spec_length() && blake3_hash(data@) == expected_hash@;
                let attempt = old(self).spec_attempt();
                &&& verified ==> r == AttemptOutcome::Commit
                &&& !verified && attempt < MAX_VERIFICATION_ATTEMPTS ==> r == AttemptOutcome::RequestAgain(
                    (attempt + 1) as u8,
                )
                &&& !verified && attempt == MAX_VERIFICATION_ATTEMPTS ==> r == AttemptOutcome::GiveUp
            }),
            r matches AttemptOutcome::RequestAgain(n) ==> final(self).spec_attempt() == n,
            !(r is RequestAgain) ==> final(self).spec_attempt() == old(self).spec_attempt(),
    {
        let verified = payload_verified(self.length, expected_hash, data);
        let outcome = after_payload(self.attempt, verified);
        if let AttemptOutcome::RequestAgain(next) = outcome {
            self.attempt = next;
        }
        outcome
    }
}

/// Whether a stage left by an earlier run or another stream may be kept for
/// a chunked write: it is a regular file, not a symlink, of the declared
/// size. `existing` is the stage's length and whether it is a symlink, when
/// there is one.
pub fn keep_stage(entry: &FileEntry, existing: Option<(u64, bool)>) -> (r: bool)
    ensures
        r == (existing matches Some((len, link)) && len == entry.size && !link),
{
    match existing {
        Some((len, link)) => len == entry.size && !link,
        None => false,
    }
}

/// Refuses to commit a chunked file whose stage is not of the declared size.
pub fn check_staged_size(entry: &FileEntry, actual_size: u64) -> (r: Result<(), SinkError>)
    ensures
        r is Ok <==> actual_size == entry.size,
        r matches Err(e) ==> e matches SinkError::InvalidChunkRange {
            path: p,
            offset: o,
            length: l,
            size: s,
        } && p@ == utf8_lossy(entry.path@) && o == 0 && l == actual_size && s == entry.size,
{
    if actual_size == entry.size {
        return Ok(());
    }
    Err(SinkError::InvalidChunkRange { path: entry.path.to_string(), offset: 0, length: actual_size, size: entry.size })
}

/// Whether directory `i` is finished before directory `j`: deeper first, and
/// among equally deep ones in the order given.
pub open spec fn finishes_before(depths: Seq<nat>, i: int, j: int) -> bool {
    depths[i] > depths[j] || (depths[i] == depths[j] && i < j)
}

/// The depth of each entry's path.
pub open spec fn entry_depths(entries: Seq<FileEntry>) -> Seq<nat> {
    entries.map_values(|e: FileEntry| slash_count(e.path@))
}

/// Whether an index occurs in an order.
pub open spec fn listed(order: Seq<usize>, j: int) -> bool {
    exists|b: int| 0 <= b < order.len() && #[trigger] order[b] == j
}

/// Whether an order lists each index below `n` once, each before every index
/// it finishes before.
pub open spec fn finishing_order(depths: Seq<nat>, order: Seq<usize>) -> bool {
    &&& order.len() == depths.len()
    &&& forall|a: int| 0 <= a < order.len() ==> #[trigger] order[a] < depths.len()
    &&& forall|j: int| 0 <= j < depths.len() ==> #[trigger] listed(order, j)
    &&& forall|a: int, b: int|
        0 <= a < b < order.len() ==> finishes_before(depths, #[trigger] order[a] as int, #[trigger] order[b] as int)
}

/// Whether a directory entry may be finished: it is a directory and its path
/// resolves under the root.
pub open spec fn finishable(entry: FileEntry) -> bool {
    entry.kind == EntryKind::Directory && entry.path@.len() > 0 && valid_wire_path(entry.path@)
}

/// The error a directory entry that may not be finished is refused with.
pub open spec fn is_finish_error(e: SinkError, entry: FileEntry) -> bool {
    if entry.kind != EntryKind::Directory {
        is_wrong_kind_error(e, entry.path@, "directory"@, entry.kind)
    } else {
        e matches SinkError::InvalidPath { path: p } && p@ == utf8_lossy(entry.path@)
    }
}

fn check_finishable(entry: &FileEntry) -> (r: Result<(), SinkError>)
    ensures
        r is Ok <==> finishable(*entry),
        r matches Err(e) ==> is_finish_error(e, *entry),
{
    require_kind(entry, EntryKind::Directory, "directory")?;
    let bytes = entry.path.as_bytes();
    if bytes.len() == 0 || !is_valid_wire_path(bytes) {
        return Err(SinkError::InvalidPath { path: entry.path.to_string() });
    }
    Ok(())
}

fn depth_order(entries: &[FileEntry]) -> (r: Vec<usize>)
    ensures
        finishing_order(entry_depths(entries@), r@),
{
    let ghost depths = entry_depths(entries@);
    let mut depth: Vec<usize> = Vec::new();
    for k in 0..entries.len()
        invariant
            depths == entry_depths(entries@),
            depth@.len() == k,
            forall|m: int| 0 <= m < k ==> #[trigger] depth@[m] == depths[m],
    {
        depth.push(path_depth(entries[k].path.as_bytes()));
    }
    let mut order: Vec<usize> = Vec::new();
    for k in 0..entries.len()
        invariant
            depths == entry_depths(entries@),
            depth@.len() == entries@.len(),
            forall|m: int| 0 <= m < entries@.len() ==> #[trigger] depth@[m] == depths[m],
            order@.len() == k,
            forall|a: int| 0 <= a < order@.len() ==> #[trigger] order@[a] < k,
            forall|j: int| 0 <= j < k ==> #[trigger] listed(order@, j),
            forall|a: int, b: int|
                0 <= a < b < order@.len() ==> finishes_before(
                    depths,
                    #[trigger] order@[a] as int,
                    #[trigger] order@[b] as int,
                ),
    {
        let mut p: usize = order.len();
        while p > 0 && depth[order[p - 1]] < depth[k]
            invariant
                p <= order@.len(),
                depth@.len() == entries@.len(),
                k < entries@.len(),
                forall|a: int| 0 <= a < order@.len() ==> #[trigger] order@[a] < k,
                forall|a: int| p <= a < order@.len() ==> depth@[#[trigger] order@[a] as int]
                    < depth@[k as int],
            decreases p,
        {
            p = p - 1;
        }
        let ghost before = order@;
        order.insert(p, k);
        proof {
            assert(order@ == before.insert(p as int, k));
            assert forall|j: int| 0 <= j < k + 1 implies #[trigger] listed(order@, j) by {
                if j == k as int {
                    assert(order@[p as int] == k);
                } else {
                    assert(listed(before, j));
                    let b = choose|b: int| 0 <= b < before.len() && before[b] == j;
                    if b < p as int {
                        assert(order@[b] == before[b]);
                    } else {
                        assert(order@[b + 1] == before[b]);
                    }
                }
            }
            assert forall|a: int| 0 <= a < order@.len() implies #[trigger] order@[a] < k + 1 by {
                if a < p as int {
                    assert(order@[a] == before[a]);
                } else if a > p as int {
                    assert(order@[a] == before[a - 1]);
                }
            }
            assert forall|a: int, b: int| 0 <= a < b < order@.len() implies finishes_before(
                depths,
                #[trigger] order@[a] as int,
                #[trigger] order@[b] as int,
            ) by {
                if b < p as int {
                    assert(order@[a] == before[a] && order@[b] == before[b]);
                } else if b == p as int {
                    assert(order@[a] == before[a]);
                    assert(before[a] < k);
                    if p > 0 {
                        assert(depth@[before[p - 1] as int] >= depth@[k as int]);
                        if a < p - 1 {
                            assert(finishes_before(depths, before[a] as int, before[p - 1] as int));
                        }
                    }
                } else if a == p as int {
                    assert(order@[b] == before[b - 1]);
                    assert(before[b - 1] < k);
                } else if a < p as int {
                    assert(order@[a] == before[a] && order@[b] == before[b - 1]);
                } else {
                    assert(order@[a] == before[a - 1] && order@[b] == before[b - 1]);
                }
            }
        }
    }
    order
}

/// A directory whose mode and modification time are to be applied.
#[derive(Debug)]
pub struct DirectoryFinish {
    /// The index of the entry in the list given.
    pub index: usize,
    /// The destination directory.
    pub path: String,
}

/// A destination root that applies verified write operations. The root is
/// held as text; paths under it are joined here and opened by the embedding
/// program.
#[derive(Debug)]
pub struct Sink {
    root: String,
}

impl Sink {
    /// The destination root.
    pub closed spec fn spec_root(&self) -> Seq<char> {
        self.root@
    }

    /// A sink writing under an existing destination root.
    pub fn with_root(root: String) -> (r: Sink)
        ensures
            r.spec_root() == root@,
    {
        Sink { root }
    }

    /// This sink's destination root.
    pub fn root(&self) -> (r: &str)
        ensures
            r@ == self.spec_root(),
    {
        self.root.as_str()
    }

    /// Resolves a validated protocol-relative path under this sink: the root
    /// with each component of the path pushed in turn. The filesystem is not
    /// read.
    pub fn path_for(&self, relative_path: &str) -> (r: Result<String, SinkError>)
        ensures
            r is Ok <==> valid_destination(relative_path@),
            r matches Err(e) ==> is_invalid_path_error(e, relative_path@),
            r matches Ok(p) ==> p@ == joined(self.spec_root(), relative_path@),
    {
        check_destination(relative_path)?;
        Ok(join_relative(self.root.as_str(), relative_path))
    }

    /// The deterministic temporary path for a protocol-relative path: the
    /// same directory as its final path, named after the BLAKE3 digest of the
    /// relative path.
    pub fn temporary_path(&self, relative_path: &str) -> (r: Result<String, SinkError>)
        ensures
            r is Ok <==> valid_destination(relative_path@),
            r matches Err(e) ==> is_invalid_path_error(e, relative_path@),
            r matches Ok(p) ==> p@ == joined(self.spec_root(), temporary_relative(relative_path@)),
    {
        let relative = temporary_relative_path(relative_path)?;
        Ok(join_relative(self.root.as_str(), relative.as_str()))
    }

    /// Checks that the root directory's metadata may be applied from `entry`:
    /// it must describe a directory.
    pub fn finish_root_directory(&self, entry: &FileEntry) -> (r: Result<(), SinkError>)
        ensures
            r is Ok <==> entry.kind == EntryKind::Directory,
            r matches Err(e) ==> is_wrong_kind_error(e, entry.path@, "directory"@, entry.kind),
    {
        require_kind(entry, EntryKind::Directory, "directory")
    }

    /// The directories whose mode and modification time are applied after all
    /// writes finish, deepest first and, at one depth, in the order given, so
    /// that finishing a child cannot disturb its parent. The first entry in
    /// that order that is not a directory under the root fails the whole
    /// step.
    pub fn finish_directories(&self, entries: &[FileEntry]) -> (r: Result<
        Vec<DirectoryFinish>,
        SinkError,
    >)
        ensures
            r is Ok <==> forall|i: int| 0 <= i < entries@.len() ==> finishable(#[trigger] entries@[i]),
            r matches Ok(plan) ==> finishing_order(
                entry_depths(entries@),
                plan@.map_values(|d: DirectoryFinish| d.index),
            ),
            r matches Ok(plan) ==> forall|k: int| 0 <= k < plan@.len() ==> (#[trigger] plan@[k]).path@ == joined(
                self.spec_root(),
                utf8_lossy(entries@[plan@[k].index as int].path@),
            ),
            r matches Err(e) ==> exists|i: int|
                0 <= i < entries@.len() && !finishable(#[trigger] entries@[i]) && is_finish_error(
                    e,
                    entries@[i],
                ) && forall|j: int|
                    0 <= j < entries@.len() && j != i && !finishable(#[trigger] entries@[j])
                        ==> finishes_before(entry_depths(entries@), i, j),
    {
        let order = depth_order(entries);
        let ghost depths = entry_depths(entries@);
        let mut plan: Vec<DirectoryFinish> = Vec::new();
        let mut a: usize = 0;
        while a < order.len()
            invariant
                depths == entry_depths(entries@),
                finishing_order(depths, order@),
                a <= order@.len(),
                plan@.len() == a,
                forall|m: int| 0 <= m < a ==> (#[trigger] plan@[m]).index == order@[m],
                forall|m: int| 0 <= m < a ==> finishable(entries@[#[trigger] order@[m] as int]),
                forall|m: int| 0 <= m < a ==> (#[trigger] plan@[m]).path@ == joined(
                    self.root@,
                    utf8_lossy(entries@[plan@[m].index as int].path@),
                ),
            decreases order.len() - a,
        {
            let index = order[a];
            match check_finishable(&entries[index]) {
                Ok(()) => {},
                Err(e) => {
                    proof {
                        assert forall|j: int|
                            0 <= j < entries@.len() && j != index && !finishable(
                                #[trigger] entries@[j],
                            ) implies finishes_before(depths, index as int, j) by {
                            assert(listed(order@, j));
                            let b = choose|b: int| 0 <= b < order@.len() && order@[b] == j;
                            if b < a {
                                assert(finishable(entries@[order@[b] as int]));
                            } else if b == a {
                            } else {
                                assert(finishes_before(depths, order@[a as int] as int, order@[b] as int));
                            }
                        }
                    }
                    return Err(e);
                },
            }
            let name = entries[index].path.to_string();
            let path = join_relative(self.root.as_str(), name.as_str());
            plan.push(DirectoryFinish { index, path });
            a = a + 1;
        }
        proof {
            assert forall|i: int| 0 <= i < entries@.len() implies finishable(#[trigger] entries@[i]) by {
                assert(listed(order@, i));
                let b = choose|b: int| 0 <= b < order@.len() && order@[b] == i;
                assert(finishable(entries@[order@[b] as int]));
            }
            assert(plan@.map_values(|d: DirectoryFinish| d.index) =~= order@);
        }
        Ok(plan)
    }
}

} // verus!
