//! How a multi-stream push divides its work among the data sessions: files
//! small enough for one segment go whole, larger ones in ranges, and both
//! are dealt out round-robin, balanced by count.

use vstd::prelude::*;
use crate::protocol::ByteRange;

verus! {

/// Which files are small enough to travel as one segment: the indices of the
/// files of at most `limit` bytes, and of the others, each in order.
pub fn split_by_size(sizes: &[u64], limit: u64) -> (r: (Vec<usize>, Vec<usize>))
    ensures
        r.0@.len() + r.1@.len() == sizes@.len(),
        forall|k: int| 0 <= k < r.0@.len() ==> (#[trigger] r.0@[k]) < sizes@.len() && sizes@[r.0@[k] as int] <= limit,
        forall|k: int| 0 <= k < r.1@.len() ==> (#[trigger] r.1@[k]) < sizes@.len() && sizes@[r.1@[k] as int] > limit,
        forall|a: int, b: int| 0 <= a < b < r.0@.len() ==> r.0@[a] < r.0@[b],
        forall|a: int, b: int| 0 <= a < b < r.1@.len() ==> r.1@[a] < r.1@[b],
{
    let mut small: Vec<usize> = Vec::new();
    let mut large: Vec<usize> = Vec::new();
    let mut i: usize = 0;
    while i < sizes.len()
        invariant
            i <= sizes@.len(),
            small@.len() + large@.len() == i,
            forall|k: int| 0 <= k < small@.len() ==> (#[trigger] small@[k]) < i && sizes@[small@[k] as int] <= limit,
            forall|k: int| 0 <= k < large@.len() ==> (#[trigger] large@[k]) < i && sizes@[large@[k] as int] > limit,
            forall|a: int, b: int| 0 <= a < b < small@.len() ==> small@[a] < small@[b],
            forall|a: int, b: int| 0 <= a < b < large@.len() ==> large@[a] < large@[b],
        decreases sizes.len() - i,
    {
        if sizes[i] <= limit {
            small.push(i);
        } else {
            large.push(i);
        }
        i = i + 1;
    }
    (small, large)
}

/// Whether `share` deals session `session` of `streams` its items out of
/// `count`: the item equal to the session's number, then every `streams`-th
/// one after it, up to the last item below `count`.
pub open spec fn dealt(share: Seq<usize>, session: int, streams: int, count: int) -> bool {
    &&& (share.len() == 0 <==> session >= count)
    &&& share.len() > 0 ==> share[0] == session && share.last() < count && share.last() + streams
        >= count
    &&& forall|k: int| 0 <= k < share.len() - 1 ==> #[trigger] share[k + 1] == share[k] + streams
}

/// Deals `count` items out to `streams` sessions round-robin: item `i` goes
/// to session `i mod streams`, so each session's share keeps the items'
/// order, and the shares' sizes differ by at most one, the earlier sessions
/// taking the extra items.
pub fn stripe(count: usize, streams: usize) -> (r: Vec<Vec<usize>>)
    requires
        streams > 0,
    ensures
        r@.len() == streams,
        forall|s: int| 0 <= s < streams ==> dealt(#[trigger] r@[s]@, s, streams as int, count as int),
        forall|s: int, t: int| 0 <= s < t < streams ==> (#[trigger] r@[s]@).len() >= (#[trigger] r@[t]@).len()
            && r@[s]@.len() <= r@[t]@.len() + 1,
{
    let mut shares: Vec<Vec<usize>> = Vec::new();
    let mut s: usize = 0;
    while s < streams
        invariant
            s <= streams,
            shares@.len() == s,
            forall|k: int| 0 <= k < s ==> (#[trigger] shares@[k])@.len() == 0,
        decreases streams - s,
    {
        shares.push(Vec::new());
        s = s + 1;
    }
    let mut cur: usize = 0;
    let mut i: usize = 0;
    let ghost mut base: int = 0;
    let ghost mut rounds: int = 0;
    while i < count
        invariant
            streams > 0,
            shares@.len() == streams,
            cur < streams,
            i <= count,
            base == i - cur,
            base == 0 || base >= streams,
            base == 0 <==> rounds == 0,
            forall|t: int| 0 <= t < streams ==> {
                let share = (#[trigger] shares@[t])@;
                &&& (share.len() == 0 <==> t >= i)
                &&& share.len() == (if t < cur { rounds + 1 } else { rounds })
                &&& share.len() > 0 ==> share[0] == t
                &&& share.len() > 0 ==> share.last() == (if t < cur { base + t } else { base - streams + t })
                &&& forall|k: int| 0 <= k < share.len() - 1 ==> #[trigger] share[k + 1] == share[k] + streams
            },
        decreases count - i,
    {
        let ghost before = shares@;
        let mut share = Vec::new();
        std::mem::swap(&mut share, &mut shares[cur]);
        share.push(i);
        shares.set(cur, share);
        proof {
            assert forall|t: int| 0 <= t < streams && t != cur implies #[trigger] shares@[t] == before[t] by {}
        }
        if cur + 1 == streams {
            cur = 0;
            proof {
                base = base + streams;
                rounds = rounds + 1;
            }
        } else {
            cur = cur + 1;
        }
        i = i + 1;
        proof {
            assert forall|t: int| 0 <= t < streams implies {
                let share = (#[trigger] shares@[t])@;
                &&& (share.len() == 0 <==> t >= i)
                &&& share.len() == (if t < cur { rounds + 1 } else { rounds })
                &&& share.len() > 0 ==> share[0] == t
                &&& share.len() > 0 ==> share.last() == (if t < cur { base + t } else { base - streams + t })
                &&& forall|k: int| 0 <= k < share.len() - 1 ==> #[trigger] share[k + 1] == share[k] + streams
            } by {
                if t != (if cur == 0 { streams - 1 } else { cur - 1 }) {
                    assert(shares@[t] == before[t]);
                }
            }
        }
    }
    proof {
        assert forall|t: int| 0 <= t < streams implies dealt(#[trigger] shares@[t]@, t, streams as int, count as int) by {
            let share = shares@[t]@;
            if share.len() > 0 {
                if t < cur {
                    assert(share.last() == base + t);
                } else {
                    assert(share.last() == base - streams + t);
                }
            }
        }
    }
    shares
}

/// The `k`-th item of a session's share is its number plus `k` rounds.
proof fn lemma_dealt_position(share: Seq<usize>, session: int, streams: int, count: int, k: int)
    requires
        dealt(share, session, streams, count),
        0 <= k < share.len(),
    ensures
        share[k] == session + k * streams,
    decreases k,
{
    if k == 0 {
        assert(session + 0 * streams == session) by (nonlinear_arith);
    }
    if k > 0 {
        lemma_dealt_position(share, session, streams, count, k - 1);
        assert(share[(k - 1) + 1] == share[k - 1] + streams);
        assert(session + (k - 1) * streams + streams == session + k * streams) by (nonlinear_arith);
    }
}

/// Round-robin dealing hands every item to exactly one session: item `i`
/// is in the share of session `i mod streams` and in no other.
pub proof fn lemma_stripe_deals_each_item_once(shares: Seq<Seq<usize>>, streams: int, count: int, i: int)
    requires
        streams > 0,
        shares.len() == streams,
        forall|s: int| 0 <= s < streams ==> dealt(#[trigger] shares[s], s, streams, count),
        0 <= i < count,
    ensures
        shares[i % streams].contains(i as usize),
        forall|s: int| 0 <= s < streams && s != i % streams ==> !(#[trigger] shares[s]).contains(i as usize),
{
    let owner = i % streams;
    let round = i / streams;
    assert(i == owner + round * streams && 0 <= owner < streams && round >= 0) by (nonlinear_arith)
        requires
            streams > 0,
            i >= 0,
            owner == i % streams,
            round == i / streams,
    ;
    let share = shares[owner];
    assert(dealt(share, owner, streams, count));
    assert(share.len() > 0);
    let last = share.len() - 1;
    lemma_dealt_position(share, owner, streams, count, last);
    if round > last {
        assert(owner + round * streams >= owner + last * streams + streams) by (nonlinear_arith)
            requires
                round > last,
                streams > 0,
        ;
        assert(false);
    }
    lemma_dealt_position(share, owner, streams, count, round);
    assert(share[round] == i);
    assert forall|s: int| 0 <= s < streams && s != owner implies !(#[trigger] shares[s]).contains(i as usize) by {
        if shares[s].contains(i as usize) {
            let k = choose|k: int| 0 <= k < shares[s].len() && shares[s][k] == i as usize;
            assert(dealt(shares[s], s, streams, count));
            lemma_dealt_position(shares[s], s, streams, count, k);
            assert((s + k * streams) % streams == s) by (nonlinear_arith)
                requires
                    0 <= s < streams,
                    k >= 0,
            ;
        }
    }
}

/// Every item of a dealt share lies below the count.
proof fn lemma_dealt_below(share: Seq<usize>, session: int, streams: int, count: int, k: int)
    requires
        streams > 0,
        dealt(share, session, streams, count),
        0 <= k < share.len(),
    ensures
        share[k] < count,
{
    let last = share.len() - 1;
    lemma_dealt_position(share, session, streams, count, k);
    lemma_dealt_position(share, session, streams, count, last);
    assert(k * streams <= last * streams) by (nonlinear_arith)
        requires
            k <= last,
            streams > 0,
    ;
}

/// Every range of every large file, in file order, each paired with the
/// index of its file.
pub open spec fn flat_ranges(missing: Seq<Vec<ByteRange>>) -> Seq<(usize, ByteRange)>
    decreases missing.len(),
{
    if missing.len() == 0 {
        Seq::empty()
    } else {
        flat_ranges(missing.drop_last()) + missing.last()@.map_values(
            |r: ByteRange| ((missing.len() - 1) as usize, r),
        )
    }
}

/// One data session's share of a multi-stream push: ranges of large files,
/// each with the index of its file, and small files by index.
pub struct StreamWork {
    pub ranges: Vec<(usize, ByteRange)>,
    pub small: Vec<usize>,
}

/// Whether `work` is session `session`'s round-robin share of `items`.
pub open spec fn share_of<T>(work: Seq<T>, items: Seq<T>, session: int, streams: int) -> bool {
    exists|share: Seq<usize>| #[trigger] dealt(share, session, streams, items.len() as int)
        && work == share.map_values(|g: usize| items[g as int])
}

/// Deals a multi-stream push's work out to `streams` data sessions: every
/// missing range of every large file (`missing`, one list per file) and
/// every one of `small_count` small files goes, round-robin in order, to
/// exactly one session — range number `g` of all ranges in file order to
/// session `g mod streams`, and likewise small file `i`.
pub fn partition_work(missing: &[Vec<ByteRange>], small_count: usize, streams: usize) -> (r: Vec<StreamWork>)
    requires
        streams > 0,
    ensures
        r@.len() == streams,
        forall|s: int| 0 <= s < streams ==> share_of((#[trigger] r@[s]).ranges@, flat_ranges(missing@), s, streams as int),
        forall|s: int| 0 <= s < streams ==> share_of(
            (#[trigger] r@[s]).small@,
            Seq::new(small_count as nat, |i: int| i as usize),
            s,
            streams as int,
        ),
{
    let mut flat: Vec<(usize, ByteRange)> = Vec::new();
    for i in 0..missing.len()
        invariant
            flat@ == flat_ranges(missing@.take(i as int)),
    {
        let ghost before = flat@;
        let file = &missing[i];
        for j in 0..file.len()
            invariant
                file == missing@[i as int],
                flat@ == before + file@.take(j as int).map_values(|r: ByteRange| (i, r)),
        {
            flat.push((i, file[j]));
            assert(flat@ =~= before + file@.take(j as int + 1).map_values(|r: ByteRange| (i, r)));
        }
        assert(missing@.take(i as int + 1).drop_last() =~= missing@.take(i as int));
        assert(file@.take(file@.len() as int) =~= file@);
        assert(flat@ =~= flat_ranges(missing@.take(i as int + 1)));
    }
    assert(missing@.take(missing@.len() as int) =~= missing@);
    let ghost items = flat@;
    let ghost numbers = Seq::new(small_count as nat, |i: int| i as usize);
    let shares = stripe(flat.len(), streams);
    let smalls = stripe(small_count, streams);
    let mut out: Vec<StreamWork> = Vec::new();
    for s in 0..streams
        invariant
            streams > 0,
            items == flat@,
            items == flat_ranges(missing@),
            numbers == Seq::new(small_count as nat, |i: int| i as usize),
            shares@.len() == streams,
            smalls@.len() == streams,
            forall|t: int| 0 <= t < streams ==> dealt(#[trigger] shares@[t]@, t, streams as int, flat@.len() as int),
            forall|t: int| 0 <= t < streams ==> dealt(#[trigger] smalls@[t]@, t, streams as int, small_count as int),
            out@.len() == s,
            forall|t: int| 0 <= t < s ==> share_of((#[trigger] out@[t]).ranges@, items, t, streams as int),
            forall|t: int| 0 <= t < s ==> share_of((#[trigger] out@[t]).small@, numbers, t, streams as int),
    {
        let share = &shares[s];
        let ghost sh = share@;
        assert(dealt(sh, s as int, streams as int, items.len() as int));
        let mut ranges: Vec<(usize, ByteRange)> = Vec::new();
        for k in 0..share.len()
            invariant
                streams > 0,
                sh == share@,
                items == flat@,
                dealt(sh, s as int, streams as int, items.len() as int),
                ranges@ == sh.take(k as int).map_values(|g: usize| items[g as int]),
        {
            proof {
                lemma_dealt_below(sh, s as int, streams as int, items.len() as int, k as int);
            }
            ranges.push(flat[share[k]]);
            assert(ranges@ =~= sh.take(k as int + 1).map_values(|g: usize| items[g as int]));
        }
        assert(sh.take(sh.len() as int) =~= sh);
        let small_share = &smalls[s];
        let ghost sm = small_share@;
        assert(dealt(sm, s as int, streams as int, numbers.len() as int));
        let mut small: Vec<usize> = Vec::new();
        for k in 0..small_share.len()
            invariant
                streams > 0,
                sm == small_share@,
                numbers == Seq::new(small_count as nat, |i: int| i as usize),
                dealt(sm, s as int, streams as int, numbers.len() as int),
                small@ == sm.take(k as int).map_values(|g: usize| numbers[g as int]),
        {
            proof {
                lemma_dealt_below(sm, s as int, streams as int, numbers.len() as int, k as int);
            }
            small.push(small_share[k]);
            assert(small@ =~= sm.take(k as int + 1).map_values(|g: usize| numbers[g as int]));
        }
        assert(sm.take(sm.len() as int) =~= sm);
        let work = StreamWork { ranges, small };
        assert(share_of(work.ranges@, items, s as int, streams as int));
        assert(share_of(work.small@, numbers, s as int, streams as int));
        out.push(work);
    }
    out
}

} // verus!
