//! The barrier before a multi-stream push finishes its large files.
//!
//! Every data session runs to completion first; then each large file's
//! resumed and newly written ranges must cover it, byte for byte, before any
//! `LargeFileFinish` commits it. A range lost between streams is a loud
//! failure rather than a silently short file.

use vstd::prelude::*;
use vstd::set_lib::{lemma_int_range, lemma_len_subset, lemma_set_disjoint_lens, lemma_subset_equality, set_int_range};
use crate::error::ServerError;
use crate::protocol::{ByteRange, Message};
use crate::text::{decimal, push_decimal, push_str};
use crate::transfer::{covered_by, in_range, ranges_cover, same_ranges, sort_by_offset, sorted_by_offset};

verus! {

/// The byte positions the first `n` ranges cover.
pub open spec fn covered_positions(ranges: Seq<ByteRange>, n: int) -> Set<int> {
    Set::new(|x: int| covered_by(ranges, n, x))
}

/// How many distinct byte positions the ranges cover.
pub open spec fn covered_count(ranges: Seq<ByteRange>) -> nat {
    covered_positions(ranges, ranges.len() as int).len()
}

/// Every range ends within the `u64` byte positions.
pub open spec fn ends_fit(ranges: Seq<ByteRange>) -> bool {
    forall|i: int| 0 <= i < ranges.len() ==> (#[trigger] ranges[i]).offset + ranges[i].length <= u64::MAX
}

/// Every range lies within a file of `size` bytes.
pub open spec fn within(size: u64, ranges: Seq<ByteRange>) -> bool {
    forall|i: int| 0 <= i < ranges.len() ==> (#[trigger] ranges[i]).offset + ranges[i].length <= size
}

proof fn lemma_same_positions(a: Seq<ByteRange>, b: Seq<ByteRange>)
    requires
        same_ranges(a, b),
    ensures
        covered_positions(a, a.len() as int) == covered_positions(b, b.len() as int),
{
    assert forall|x: int| #[trigger] covered_by(a, a.len() as int, x) <==> covered_by(b, b.len() as int, x) by {
        if covered_by(a, a.len() as int, x) {
            let m = choose|m: int| 0 <= m < a.len() && in_range(#[trigger] a[m], x);
            assert(b.contains(a[m]));
            let j = choose|j: int| 0 <= j < b.len() && b[j] == a[m];
            assert(in_range(b[j], x));
        }
        if covered_by(b, b.len() as int, x) {
            let m = choose|m: int| 0 <= m < b.len() && in_range(#[trigger] b[m], x);
            assert(a.contains(b[m]));
            let j = choose|j: int| 0 <= j < a.len() && a[j] == b[m];
            assert(in_range(a[j], x));
        }
    }
    assert(covered_positions(a, a.len() as int) =~= covered_positions(b, b.len() as int));
}

/// The number of distinct byte positions the ranges cover: overlapping and
/// adjacent ranges count their shared bytes once.
pub fn covered_bytes(ranges: &[ByteRange]) -> (r: u64)
    requires
        ends_fit(ranges@),
    ensures
        r == covered_count(ranges@),
        covered_positions(ranges@, ranges@.len() as int).finite(),
{
    let ordered = sort_by_offset(ranges);
    proof {
        lemma_same_positions(ordered@, ranges@);
        assert forall|i: int| 0 <= i < ordered@.len() implies (#[trigger] ordered@[i]).offset + ordered@[i].length
            <= u64::MAX by {
            assert(ranges@.contains(ordered@[i]));
        }
    }
    let mut covered: u64 = 0;
    let mut cursor: u64 = 0;
    let mut low: u64 = 0;
    let mut k: usize = 0;
    proof {
        assert(covered_positions(ordered@, 0) =~= Set::<int>::empty());
    }
    while k < ordered.len()
        invariant
            k <= ordered@.len(),
            sorted_by_offset(ordered@),
            forall|i: int| 0 <= i < ordered@.len() ==> (#[trigger] ordered@[i]).offset + ordered@[i].length
                <= u64::MAX,
            covered <= cursor,
            covered_positions(ordered@, k as int).finite(),
            covered == covered_positions(ordered@, k as int).len(),
            forall|x: int| #[trigger] covered_by(ordered@, k as int, x) ==> 0 <= x < cursor,
            forall|x: int| low <= x < cursor ==> #[trigger] covered_by(ordered@, k as int, x),
            k > 0 ==> low == ordered@[k - 1].offset,
            k == 0 ==> cursor == 0,
        decreases ordered@.len() - k,
    {
        let range = ordered[k];
        let end = range.offset + range.length;
        let start = if range.offset > cursor { range.offset } else { cursor };
        let ghost before = covered_positions(ordered@, k as int);
        let ghost after = covered_positions(ordered@, k as int + 1);
        let ghost fresh = if end > start { set_int_range(start as int, end as int) } else { Set::<int>::empty() };
        proof {
            if k > 0 {
                assert(ordered@[k - 1].offset <= ordered@[k as int].offset);
            }
            if end > start {
                lemma_int_range(start as int, end as int);
            }
            assert forall|x: int| #[trigger] after.contains(x) <==> before.contains(x) || fresh.contains(x) by {
                if after.contains(x) {
                    assert(covered_by(ordered@, k as int + 1, x));
                    let m = choose|m: int| 0 <= m < k + 1 && in_range(#[trigger] ordered@[m], x);
                    if m < k {
                        assert(covered_by(ordered@, k as int, x));
                    } else if x < cursor {
                        assert(low <= x);
                        assert(covered_by(ordered@, k as int, x));
                    }
                }
                if before.contains(x) {
                    let m = choose|m: int| 0 <= m < k && in_range(#[trigger] ordered@[m], x);
                    assert(covered_by(ordered@, k as int + 1, x));
                }
                if fresh.contains(x) {
                    assert(in_range(ordered@[k as int], x));
                    assert(covered_by(ordered@, k as int + 1, x));
                }
            }
            assert(after =~= before + fresh);
            assert(before.disjoint(fresh));
            lemma_set_disjoint_lens(before, fresh);
        }
        if end > start {
            covered = covered + (end - start);
        }
        low = range.offset;
        if end > cursor {
            cursor = end;
        }
        k = k + 1;
        proof {
            assert forall|x: int| #[trigger] covered_by(ordered@, k as int, x) implies 0 <= x < cursor by {
                assert(after.contains(x));
            }
            assert forall|x: int| low <= x < cursor implies #[trigger] covered_by(ordered@, k as int, x) by {
                assert(after.contains(x) <==> before.contains(x) || fresh.contains(x));
                if x >= start && x < end {
                    assert(fresh.contains(x));
                } else if x < end {
                    assert(covered_by(ordered@, k as int - 1, x));
                    assert(before.contains(x));
                } else {
                    assert(covered_by(ordered@, k as int - 1, x));
                    assert(before.contains(x));
                }
                assert(after.contains(x));
            }
        }
    }
    covered
}

/// Within a file, ranges covering as many distinct bytes as the file has
/// cover every byte of it: a file that passed the finish barrier, with its
/// ranges inside it, was written in full before it was committed.
pub proof fn lemma_full_count_covers(size: u64, ranges: Seq<ByteRange>)
    requires
        within(size, ranges),
        covered_count(ranges) == size,
    ensures
        ranges_cover(size, ranges),
{
    let s = covered_positions(ranges, ranges.len() as int);
    let all = set_int_range(0, size as int);
    lemma_int_range(0, size as int);
    assert forall|x: int| s.contains(x) implies all.contains(x) by {
        let m = choose|m: int| 0 <= m < ranges.len() && in_range(#[trigger] ranges[m], x);
        assert(ranges[m].offset + ranges[m].length <= size);
    }
    lemma_len_subset(s, all);
    lemma_subset_equality(s, all);
    assert forall|x: int| 0 <= x < size implies #[trigger] covered_by(ranges, ranges.len() as int, x) by {
        assert(all.contains(x));
        assert(s.contains(x));
    }
}

/// One large file of a multi-stream push at the finish barrier: the id its
/// prepare was given, its path as reports show it, its size, the ranges a
/// resume found already verified, and the ranges handed to data sessions.
pub struct LargeFileRanges {
    pub file_id: u64,
    pub path: String,
    pub size: u64,
    pub verified: Vec<ByteRange>,
    pub assigned: Vec<ByteRange>,
}

/// Everything recorded for a large file: its verified ranges, then its
/// assigned ones.
pub open spec fn recorded(file: LargeFileRanges) -> Seq<ByteRange> {
    file.verified@ + file.assigned@
}

/// Whether the recorded ranges of a file cover as many distinct bytes as the
/// file has.
pub open spec fn fully_covered(file: LargeFileRanges) -> bool {
    covered_count(recorded(file)) == file.size
}

/// The failure a large file short of full coverage ends the push with.
pub open spec fn coverage_failure_text(file: LargeFileRanges) -> Seq<char> {
    "large file "@ + file.path@ + " covered "@ + decimal(covered_count(recorded(file))) + " of "@ + decimal(
        file.size as nat,
    ) + " bytes; ranges lost across streams"@
}

/// The recorded ranges' ends fit in `u64`.
pub open spec fn recorded_ends_fit(files: Seq<LargeFileRanges>) -> bool {
    forall|i: int| 0 <= i < files.len() ==> ends_fit(recorded(#[trigger] files[i]))
}

fn recorded_ranges(file: &LargeFileRanges) -> (r: Vec<ByteRange>)
    ensures
        r@ == recorded(*file),
{
    let mut all: Vec<ByteRange> = Vec::new();
    for i in 0..file.verified.len()
        invariant
            all@ == file.verified@.take(i as int),
    {
        all.push(file.verified[i]);
        assert(all@ =~= file.verified@.take(i as int + 1));
    }
    assert(file.verified@.take(file.verified@.len() as int) =~= file.verified@);
    for j in 0..file.assigned.len()
        invariant
            all@ == file.verified@ + file.assigned@.take(j as int),
    {
        all.push(file.assigned[j]);
        assert(all@ =~= file.verified@ + file.assigned@.take(j as int + 1));
    }
    assert(file.assigned@.take(file.assigned@.len() as int) =~= file.assigned@);
    all
}

/// `e` is the failure of the first file not fully covered.
pub open spec fn barrier_failure(files: Seq<LargeFileRanges>, e: ServerError) -> bool {
    exists|i: int| {
        &&& 0 <= i < files.len()
        &&& !fully_covered(#[trigger] files[i])
        &&& forall|j: int| 0 <= j < i ==> fully_covered(#[trigger] files[j])
        &&& e matches ServerError::UnexpectedMessage(m) && m@ == coverage_failure_text(files[i])
    }
}

/// The coverage assertion of the finish barrier: `Ok` when every large file
/// is fully covered by its recorded ranges, otherwise the failure of the
/// first file that is not.
pub fn coverage_barrier(files: &[LargeFileRanges]) -> (r: Result<(), ServerError>)
    requires
        recorded_ends_fit(files@),
    ensures
        r is Ok <==> forall|i: int| 0 <= i < files@.len() ==> fully_covered(#[trigger] files@[i]),
        r matches Err(e) ==> barrier_failure(files@, e),
{
    for i in 0..files.len()
        invariant
            recorded_ends_fit(files@),
            forall|j: int| 0 <= j < i ==> fully_covered(#[trigger] files@[j]),
    {
        let file = &files[i];
        let all = recorded_ranges(file);
        proof {
            assert(ends_fit(recorded(files@[i as int])));
        }
        let covered = covered_bytes(all.as_slice());
        if covered != file.size {
            let mut m = String::new();
            push_str(&mut m, "large file ");
            push_str(&mut m, file.path.as_str());
            push_str(&mut m, " covered ");
            push_decimal(&mut m, covered);
            push_str(&mut m, " of ");
            push_decimal(&mut m, file.size);
            push_str(&mut m, " bytes; ranges lost across streams");
            let e = ServerError::UnexpectedMessage(m);
            assert(!fully_covered(files@[i as int]));
            return Err(e);
        }
    }
    Ok(())
}

/// The `LargeFileFinish` frames that commit the large files, one per file
/// in order, each with its digest — or, when the barrier's coverage
/// assertion fails, no frame at all but that failure. A finish is never
/// produced for a file whose recorded ranges fall short of it.
pub fn finish_frames(files: &[LargeFileRanges], digests: &[[u8; 32]]) -> (r: Result<Vec<Message>, ServerError>)
    requires
        recorded_ends_fit(files@),
        digests@.len() == files@.len(),
    ensures
        r is Ok <==> forall|i: int| 0 <= i < files@.len() ==> fully_covered(#[trigger] files@[i]),
        r matches Ok(frames) ==> {
            &&& frames@.len() == files@.len()
            &&& forall|i: int| 0 <= i < files@.len() ==> #[trigger] frames@[i] == (Message::LargeFileFinish {
                file_id: files@[i].file_id,
                digest: digests@[i],
            })
        },
        r matches Err(e) ==> barrier_failure(files@, e),
{
    coverage_barrier(files)?;
    let mut frames: Vec<Message> = Vec::new();
    for i in 0..files.len()
        invariant
            frames@.len() == i,
            digests@.len() == files@.len(),
            forall|k: int| 0 <= k < i ==> #[trigger] frames@[k] == (Message::LargeFileFinish {
                file_id: files@[k].file_id,
                digest: digests@[k],
            }),
    {
        frames.push(Message::LargeFileFinish { file_id: files[i].file_id, digest: digests[i] });
    }
    Ok(frames)
}

} // verus!
