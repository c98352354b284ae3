//! Grouping small files into the batches a push sends back to back.

use vstd::prelude::*;
use crate::data_session::segment_of;
use crate::digest::blake3_digest;
use crate::entries::entry_record_from_file_entry;
use crate::protocol::{EntryRecord, Message};
use crate::pull_session::record_for;
use crate::scan::FileEntry;
use crate::sink::listed;
use crate::sink_session::batch_file_id;

verus! {

/// A sum clamped to what a `u64` holds, as repeated `saturating_add` of
/// non-negative terms computes it.
pub open spec fn saturated(x: int) -> int {
    if x > u64::MAX { u64::MAX as int } else { x }
}

/// The total size of the files `[a, b)`.
pub open spec fn size_sum(sizes: Seq<u64>, a: int, b: int) -> int
    decreases b - a,
{
    if b <= a {
        0
    } else {
        size_sum(sizes, a, b - 1) + sizes[b - 1]
    }
}

/// The most files a batch holds: `max_files`, and never fewer than one.
pub open spec fn batch_capacity(max_files: usize) -> int {
    if max_files == 0 { 1 } else { max_files as int }
}

/// Whether the files `[a, b)` may form one batch: within the file count, and
/// within the byte target unless the batch is a single file.
pub open spec fn batch_fits(sizes: Seq<u64>, a: int, b: int, max_files: usize, target: u64) -> bool {
    &&& a < b
    &&& b - a <= batch_capacity(max_files)
    &&& (b - a == 1 || saturated(size_sum(sizes, a, b)) <= target)
}

/// Whether the batch `[a, b)` is closed because file `b` would not fit in it.
pub open spec fn batch_full(sizes: Seq<u64>, a: int, b: int, max_files: usize, target: u64) -> bool {
    b - a >= max_files || saturated(size_sum(sizes, a, b + 1)) > target
}

/// Whether batches split `n` files greedily: they are consecutive, cover
/// `[0, n)`, each fits, and each but the last was closed only because the
/// next file would not fit.
pub open spec fn greedy_batches(sizes: Seq<u64>, batches: Seq<std::ops::Range<usize>>, max_files: usize, target: u64) -> bool {
    let n = sizes.len() as int;
    &&& (n == 0 <==> batches.len() == 0)
    &&& batches.len() > 0 ==> batches[0].start == 0 && batches.last().end == n
    &&& forall|k: int| 0 <= k < batches.len() - 1 ==> (#[trigger] batches[k]).end == batches[k + 1].start
    &&& forall|k: int| 0 <= k < batches.len() ==> batch_fits(sizes, (#[trigger] batches[k]).start as int, batches[k].end as int, max_files, target)
    &&& forall|k: int| 0 <= k < batches.len() - 1 ==> batch_full(sizes, (#[trigger] batches[k]).start as int, batches[k].end as int, max_files, target)
}

/// The sizes of the files, in order.
pub open spec fn file_sizes(files: Seq<FileEntry>) -> Seq<u64> {
    files.map_values(|f: FileEntry| f.size)
}

/// Splits the small files into batches from their recorded sizes alone, so
/// the loader can run ahead of the writer: a batch is closed before a file
/// that would take it past `max_files` files or past `target` bytes.
pub fn plan_small_file_batches(small_files: &[FileEntry], max_files: usize, target: u64) -> (r: Vec<std::ops::Range<usize>>)
    ensures
        greedy_batches(file_sizes(small_files@), r@, max_files, target),
{
    let ghost sizes = file_sizes(small_files@);
    let mut batches: Vec<std::ops::Range<usize>> = Vec::new();
    let mut start: usize = 0;
    let mut bytes: u64 = 0;
    let n = small_files.len();
    let mut index: usize = 0;
    while index < n
        invariant
            n == small_files@.len(),
            sizes == file_sizes(small_files@),
            start <= index <= n,
            index > 0 ==> start < index,
            index > 0 ==> batch_fits(sizes, start as int, index as int, max_files, target),
            bytes == saturated(size_sum(sizes, start as int, index as int)),
            batches@.len() == 0 <==> start == 0,
            batches@.len() > 0 ==> batches@[0].start == 0 && batches@.last().end == start,
            forall|k: int| 0 <= k < batches@.len() - 1 ==> (#[trigger] batches@[k]).end == batches@[k + 1].start,
            forall|k: int| 0 <= k < batches@.len() ==> batch_fits(sizes, (#[trigger] batches@[k]).start as int, batches@[k].end as int, max_files, target),
            forall|k: int| 0 <= k < batches@.len() ==> batch_full(sizes, (#[trigger] batches@[k]).start as int, batches@[k].end as int, max_files, target),
        decreases n - index,
    {
        let size = small_files[index].size;
        assert(sizes[index as int] == size);
        let count = index - start;
        let next_bytes = bytes.saturating_add(size);
        assert(next_bytes == saturated(size_sum(sizes, start as int, index as int + 1)));
        if count > 0 && (count >= max_files || next_bytes > target) {
            let ghost before = batches@;
            batches.push(std::ops::Range { start, end: index });
            proof {
                assert forall|k: int| 0 <= k < batches@.len() - 1 implies (#[trigger] batches@[k]).end == batches@[k + 1].start by {
                    if k < before.len() - 1 {
                        assert(batches@[k] == before[k] && batches@[k + 1] == before[k + 1]);
                    } else {
                        assert(batches@[k] == before.last());
                    }
                }
                assert forall|k: int| 0 <= k < batches@.len() implies batch_fits(sizes, (#[trigger] batches@[k]).start as int, batches@[k].end as int, max_files, target) by {
                    if k < before.len() {
                        assert(batches@[k] == before[k]);
                    }
                }
                assert forall|k: int| 0 <= k < batches@.len() implies batch_full(sizes, (#[trigger] batches@[k]).start as int, batches@[k].end as int, max_files, target) by {
                    if k < before.len() {
                        assert(batches@[k] == before[k]);
                    }
                }
            }
            start = index;
            bytes = size;
            assert(size_sum(sizes, start as int, index as int) == 0);
            assert(size_sum(sizes, start as int, index as int + 1) == size);
        } else {
            bytes = next_bytes;
        }
        index = index + 1;
    }
    if start < n {
        let ghost before = batches@;
        batches.push(std::ops::Range { start, end: n });
        proof {
            assert forall|k: int| 0 <= k < batches@.len() - 1 implies (#[trigger] batches@[k]).end == batches@[k + 1].start by {
                if k < before.len() - 1 {
                    assert(batches@[k] == before[k] && batches@[k + 1] == before[k + 1]);
                } else {
                    assert(batches@[k] == before.last());
                }
            }
            assert forall|k: int| 0 <= k < batches@.len() implies batch_fits(sizes, (#[trigger] batches@[k]).start as int, batches@[k].end as int, max_files, target) by {
                if k < before.len() {
                    assert(batches@[k] == before[k]);
                }
            }
            assert forall|k: int| 0 <= k < batches@.len() - 1 implies batch_full(sizes, (#[trigger] batches@[k]).start as int, batches@[k].end as int, max_files, target) by {
                assert(batches@[k] == before[k]);
            }
        }
    }
    batches
}

/// The files a batch lists at the positions `kept` of `positions`, in that
/// order.
pub open spec fn picked(files: Seq<FileEntry>, positions: Seq<usize>, kept: Seq<usize>) -> Seq<FileEntry> {
    kept.map_values(|k: usize| files[positions[k as int] as int])
}

/// Sums over equal prefixes are equal.
proof fn lemma_size_sum_prefix(full: Seq<u64>, prefix: Seq<u64>, n: int)
    requires
        0 <= n <= prefix.len(),
        n <= full.len(),
        forall|i: int| 0 <= i < n ==> full[i] == prefix[i],
    ensures
        size_sum(full, 0, n) == size_sum(prefix, 0, n),
    decreases n,
{
    if n > 0 {
        lemma_size_sum_prefix(full, prefix, n - 1);
    }
}

/// Whether `kept` lists, in increasing order, exactly the positions of the
/// files whose contents were loaded.
pub open spec fn loaded_positions(loaded: Seq<Option<Vec<u8>>>, kept: Seq<usize>) -> bool {
    &&& forall|a: int| 0 <= a < kept.len() ==> #[trigger] kept[a] < loaded.len() && loaded[kept[a] as int] is Some
    &&& forall|a: int, b: int| 0 <= a < b < kept.len() ==> #[trigger] kept[a] < #[trigger] kept[b]
    &&& forall|j: int| 0 <= j < loaded.len() && (#[trigger] loaded[j]) is Some ==> listed(kept, j)
}

/// Whether `frames` send one batch of small files as message `batch_id` and
/// the numbers after it, with these counts: the batch frame lists the
/// loaded files in order, the `k`-th segment carries the `k`-th of them
/// whole under the id the receiver derives from the batch's message number
/// and that position, with the BLAKE3 digest of its bytes; nothing is sent
/// when no file was loaded.
pub open spec fn small_batch_of(
    files: Seq<FileEntry>,
    positions: Seq<usize>,
    loaded: Seq<Option<Vec<u8>>>,
    batch_id: u64,
    frames: Seq<Message>,
    sent_files: u64,
    sent_bytes: u64,
    failed: u64,
) -> bool {
    exists|kept: Seq<usize>|
        #[trigger] loaded_positions(loaded, kept) && failed == positions.len() - kept.len() && sent_files == kept.len()
            && sent_bytes == saturated(size_sum(file_sizes(picked(files, positions, kept)), 0, kept.len() as int)) && (if kept.len()
            == 0 {
            frames.len() == 0
        } else {
            &&& frames.len() == kept.len() + 1
            &&& frames[0] matches Message::FileBatch { batch_id: b, entries } && b == 1 && entries@.len()
                == kept.len() && forall|a: int|
                0 <= a < kept.len() ==> record_for(
                    #[trigger] entries@[a],
                    files[positions[kept[a] as int] as int],
                    files[positions[kept[a] as int] as int].path@,
                )
            &&& forall|a: int|
                0 <= a < kept.len() ==> segment_of(
                    #[trigger] frames[a + 1],
                    batch_file_id(batch_id, a as u64),
                    0,
                    loaded[kept[a] as int]->0@,
                )
        })
}

/// One batch of small files as a push sends it: the batch frame and one
/// segment per file whose contents were loaded, how many files were sent
/// and their bytes, and how many could not be read.
pub struct SmallBatch {
    pub frames: Vec<Message>,
    pub sent_files: u64,
    pub sent_bytes: u64,
    pub failed: u64,
}

/// The frames of one batch of small files, sent as message `batch_id` and
/// the numbers after it. Files whose contents could not be loaded are left
/// out and counted as failed; when none was loaded nothing is sent. The
/// batch lists the loaded files in order, and the `k`-th segment carries the
/// `k`-th of them whole, under the id the receiver derives from the batch's
/// message number and that position, with the BLAKE3 digest of its bytes.
pub fn small_batch_frames(files: &[FileEntry], positions: &[usize], loaded: Vec<Option<Vec<u8>>>, batch_id: u64) -> (r: SmallBatch)
    requires
        loaded@.len() == positions@.len(),
        positions@.len() < 0x10000,
        forall|k: int| 0 <= k < positions@.len() ==> #[trigger] positions@[k] < files@.len(),
    ensures
        small_batch_of(files@, positions@, loaded@, batch_id, r.frames@, r.sent_files, r.sent_bytes, r.failed),
{
    let n = positions.len();
    let mut kept: Vec<usize> = Vec::new();
    let mut records: Vec<EntryRecord> = Vec::new();
    let mut segments: Vec<Message> = Vec::new();
    let mut bytes: u64 = 0;
    let mut loaded = loaded;
    let ghost original = loaded@;
    let mut k: usize = 0;
    while k < n
        invariant
            n == positions@.len(),
            n < 0x10000,
            forall|m: int| 0 <= m < n ==> #[trigger] positions@[m] < files@.len(),
            original.len() == n,
            loaded@.len() == n,
            forall|j: int| k <= j < n ==> #[trigger] loaded@[j] == original[j],
            k <= n,
            kept@.len() == records@.len(),
            kept@.len() == segments@.len(),
            kept@.len() <= k,
            forall|a: int| 0 <= a < kept@.len() ==> #[trigger] kept@[a] < k && original[kept@[a] as int] is Some,
            forall|a: int, b: int| 0 <= a < b < kept@.len() ==> #[trigger] kept@[a] < #[trigger] kept@[b],
            forall|j: int| 0 <= j < k && (#[trigger] original[j]) is Some ==> listed(kept@, j),
            forall|a: int|
                0 <= a < kept@.len() ==> record_for(
                    #[trigger] records@[a],
                    files@[positions@[kept@[a] as int] as int],
                    files@[positions@[kept@[a] as int] as int].path@,
                ),
            forall|a: int|
                0 <= a < kept@.len() ==> segment_of(
                    #[trigger] segments@[a],
                    batch_file_id(batch_id, a as u64),
                    0,
                    original[kept@[a] as int]->0@,
                ),
            bytes as int == saturated(
                size_sum(file_sizes(picked(files@, positions@, kept@)), 0, kept@.len() as int),
            ),
        decreases n - k,
    {
        let ghost before_loaded = loaded@;
        let slot = loaded.remove(k);
        loaded.insert(k, None);
        proof {
            assert(slot == original[k as int]);
            assert forall|j: int| k + 1 <= j < n implies #[trigger] loaded@[j] == original[j] by {
                assert(loaded@[j] == before_loaded[j]);
            }
        }
        match slot {
            Some(data) => {
                let index = kept.len() as u64;
                let file_id = (batch_id << 16u64) | index;
                let digest = blake3_digest(data.as_slice());
                let ghost prev_kept = kept@;
                records.push(entry_record_from_file_entry(&files[positions[k]]));
                segments.push(Message::FileSegment { file_id, offset: 0, digest, data });
                kept.push(k);
                bytes = bytes.saturating_add(files[positions[k]].size);
                proof {
                    let ks = picked(files@, positions@, kept@);
                    let pk = picked(files@, positions@, prev_kept);
                    assert(ks.len() == pk.len() + 1);
                    lemma_size_sum_prefix(file_sizes(ks), file_sizes(pk), pk.len() as int);
                    assert forall|j: int| 0 <= j < k + 1 && (#[trigger] original[j]) is Some implies listed(kept@, j) by {
                        if j == k as int {
                            assert(kept@[kept@.len() - 1] == k);
                        } else {
                            let b = choose|b: int| 0 <= b < prev_kept.len() && prev_kept[b] == j;
                            assert(kept@[b] == prev_kept[b]);
                        }
                    }
                }
            },
            None => {},
        }
        k = k + 1;
    }
    let ghost kept_view = kept@;
    assert(loaded_positions(original, kept_view));
    let failed = (n - kept.len()) as u64;
    let sent_files = kept.len() as u64;
    if kept.len() == 0 {
        return SmallBatch { frames: Vec::new(), sent_files, sent_bytes: bytes, failed };
    }
    let mut frames: Vec<Message> = Vec::new();
    frames.push(Message::FileBatch { batch_id: 1, entries: records });
    let ghost segs = segments@;
    frames.append(&mut segments);
    proof {
        assert forall|a: int| 0 <= a < kept_view.len() implies segment_of(
            #[trigger] frames@[a + 1],
            batch_file_id(batch_id, a as u64),
            0,
            original[kept_view[a] as int]->0@,
        ) by {
            assert(frames@[a + 1] == segs[a]);
        }
    }
    SmallBatch { frames, sent_files, sent_bytes: bytes, failed }
}

} // verus!
