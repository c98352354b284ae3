//! Per-handle ordering of concurrent v3 requests.
//!
//! Requests naming one handle are applied in send order. Reads cannot observe
//! each other and so may overlap; a request that mutates the file (a write, a
//! flush, a close) runs alone. Each handle has a FIFO queue, so a write behind
//! a burst of reads is never starved by later reads jumping it.

use vstd::prelude::*;
use std::collections::{HashMap, VecDeque};
use crate::protocol::{StatTarget, V3Message, OPEN_APPEND, OPEN_CREATE, OPEN_EXCL, OPEN_TRUNC, OPEN_WRITE};

verus! {

broadcast use vstd::std_specs::hash::group_hash_axioms;

/// Open flags that can modify the export.
pub const WRITE_CLASS_OPEN_FLAGS: u32 = OPEN_WRITE | OPEN_CREATE | OPEN_EXCL | OPEN_TRUNC | OPEN_APPEND;

/// Whether a request would modify the export, and so must be refused on a
/// mount that is not writable before it reaches the filesystem.
pub open spec fn spec_is_write_class(request: V3Message) -> bool {
    match request {
        V3Message::Open { flags, .. } => flags & WRITE_CLASS_OPEN_FLAGS != 0,
        V3Message::Write { .. } => true,
        _ => false,
    }
}

/// Whether a request would modify the export.
pub fn fs_is_write_class(request: &V3Message) -> (r: bool)
    ensures
        r == spec_is_write_class(*request),
{
    match request {
        V3Message::Open { flags, .. } => *flags & WRITE_CLASS_OPEN_FLAGS != 0,
        V3Message::Write { .. } => true,
        _ => false,
    }
}

/// How a request uses its handle's ordering domain.
#[derive(Debug, Clone, Copy, PartialEq, Eq, Structural)]
pub struct HandleKey {
    pub handle: u64,
    /// The request mutates the file, so it runs alone.
    pub exclusive: bool,
}

/// The ordering domain of a request: reads, directory pages and handle stats
/// share it; writes, flushes and closes need it to themselves; everything
/// else has none.
pub open spec fn spec_ordering_key(request: V3Message) -> Option<HandleKey> {
    match request {
        V3Message::Read { handle, .. } => Some(HandleKey { handle, exclusive: false }),
        V3Message::ReadDir { handle, .. } => Some(HandleKey { handle, exclusive: false }),
        V3Message::Stat { target: StatTarget::Handle(handle), .. } => Some(HandleKey { handle, exclusive: false }),
        V3Message::Write { handle, .. } => Some(HandleKey { handle, exclusive: true }),
        V3Message::Flush { handle } => Some(HandleKey { handle, exclusive: true }),
        V3Message::Close { handle } => Some(HandleKey { handle, exclusive: true }),
        _ => None,
    }
}

/// A request that changes a file's contents or its handle — every
/// write-class request that names a handle, and every flush and close —
/// takes that handle's domain alone; reads, directory pages and handle stats
/// share it. So a request sent after a write on the same handle never runs
/// beside it.
pub proof fn lemma_mutations_take_the_handle_alone(request: V3Message)
    ensures
        spec_is_write_class(request) && spec_ordering_key(request) is Some ==> spec_ordering_key(
            request,
        )->Some_0.exclusive,
        request matches V3Message::Write { handle, .. } ==> spec_ordering_key(request) == Some(
            HandleKey { handle, exclusive: true },
        ),
        request matches V3Message::Flush { handle } ==> spec_ordering_key(request) == Some(
            HandleKey { handle, exclusive: true },
        ),
        request matches V3Message::Close { handle } ==> spec_ordering_key(request) == Some(
            HandleKey { handle, exclusive: true },
        ),
        request matches V3Message::Read { handle, .. } ==> spec_ordering_key(request) == Some(
            HandleKey { handle, exclusive: false },
        ),
        request matches V3Message::ReadDir { handle, .. } ==> spec_ordering_key(request) == Some(
            HandleKey { handle, exclusive: false },
        ),
        request matches V3Message::Stat { target: StatTarget::Handle(handle), .. } ==> spec_ordering_key(request)
            == Some(HandleKey { handle, exclusive: false }),
        request is Open || request is Mount ==> spec_ordering_key(request) is None,
{
}

/// A write always modifies the export; an open modifies it exactly when it
/// asks to write, create, create exclusively, truncate or append; reads,
/// flushes, closes, stats and directory pages never do.
pub proof fn lemma_write_class_is_what_modifies(request: V3Message)
    ensures
        request is Write ==> spec_is_write_class(request),
        request matches V3Message::Open { flags, .. } ==> (spec_is_write_class(request) <==> (flags & OPEN_WRITE
            != 0 || flags & OPEN_CREATE != 0 || flags & OPEN_EXCL != 0 || flags & OPEN_TRUNC != 0 || flags
            & OPEN_APPEND != 0)),
        request is Read || request is Flush || request is Close || request is Stat || request is ReadDir
            ==> !spec_is_write_class(request),
{
    if let V3Message::Open { flags, .. } = request {
        assert((flags & (0x2u32 | 0x4u32 | 0x8u32 | 0x10u32 | 0x20u32) != 0) <==> (flags & 0x2u32 != 0 || flags
            & 0x4u32 != 0 || flags & 0x8u32 != 0 || flags & 0x10u32 != 0 || flags & 0x20u32 != 0)) by (bit_vector);
    }
}

/// The ordering domain of a request, and whether it needs the domain to itself.
pub fn fs_ordering_key(request: &V3Message) -> (r: Option<HandleKey>)
    ensures
        r == spec_ordering_key(*request),
{
    match request {
        V3Message::Read { handle, .. } => Some(HandleKey { handle: *handle, exclusive: false }),
        V3Message::ReadDir { handle, .. } => Some(HandleKey { handle: *handle, exclusive: false }),
        V3Message::Stat { target: StatTarget::Handle(handle), .. } => Some(HandleKey { handle: *handle, exclusive: false }),
        V3Message::Write { handle, .. } => Some(HandleKey { handle: *handle, exclusive: true }),
        V3Message::Flush { handle } => Some(HandleKey { handle: *handle, exclusive: true }),
        V3Message::Close { handle } => Some(HandleKey { handle: *handle, exclusive: true }),
        _ => None,
    }
}

/// One unit of work for the session's pool.
#[derive(Debug)]
pub struct FsJob {
    pub related_id: u64,
    /// The handle whose ordering domain this request belongs to, if any.
    pub key: Option<HandleKey>,
    pub request: V3Message,
}

/// One handle's ordering domain: what is running on it and what is waiting.
#[derive(Debug)]
pub struct HandleDomain {
    /// Dispatched on this handle and not yet answered.
    pub inflight: usize,
    /// The in-flight request is exclusive, so nothing else may start.
    pub exclusive: bool,
    pub queue: VecDeque<FsJob>,
}

impl HandleDomain {
    /// An idle domain with nothing queued.
    pub fn new() -> (r: Self)
        ensures
            r.inflight == 0,
            !r.exclusive,
            r.queue@.len() == 0,
    {
        HandleDomain { inflight: 0, exclusive: false, queue: VecDeque::new() }
    }
}

/// The job needs its handle to itself.
pub open spec fn job_exclusive(job: FsJob) -> bool {
    job.key matches Some(k) && k.exclusive
}

/// The job at the head of a queue may not start now.
pub open spec fn head_blocked(inflight: nat, exclusive: bool, queue: Seq<FsJob>) -> bool {
    queue.len() > 0 && (exclusive || (job_exclusive(queue[0]) && inflight > 0))
}

/// How many jobs from the head of `queue` start now: shared jobs start as a
/// batch; an exclusive one starts only on an idle domain, and alone.
pub open spec fn pump_count(inflight: nat, exclusive: bool, queue: Seq<FsJob>) -> nat
    decreases queue.len(),
{
    if queue.len() == 0 || head_blocked(inflight, exclusive, queue) {
        0
    } else if job_exclusive(queue[0]) {
        1
    } else {
        1 + pump_count(inflight + 1, false, queue.drop_first())
    }
}

/// The domain's exclusive flag after a pump: that of the last job started,
/// or unchanged when none starts.
pub open spec fn pump_exclusive(inflight: nat, exclusive: bool, queue: Seq<FsJob>) -> bool
    decreases queue.len(),
{
    if queue.len() == 0 || head_blocked(inflight, exclusive, queue) {
        exclusive
    } else if job_exclusive(queue[0]) {
        true
    } else {
        pump_exclusive(inflight + 1, false, queue.drop_first())
    }
}

/// A domain is consistent: an exclusive job runs alone.
pub open spec fn domain_wf(d: HandleDomain) -> bool {
    d.exclusive ==> d.inflight == 1
}

/// The domain map after `handle`'s domain became `d`: stored when it still has
/// work running or queued, dropped when it is idle and empty.
pub open spec fn store_domain(m: Map<u64, HandleDomain>, handle: u64, inflight: nat, exclusive: bool, queue: Seq<FsJob>) -> bool {
    if inflight == 0 && queue.len() == 0 {
        !m.contains_key(handle)
    } else {
        m.contains_key(handle) && m[handle].inflight == inflight && m[handle].exclusive == exclusive
            && m[handle].queue@ == queue
    }
}

/// Every other handle's domain is untouched.
pub open spec fn others_unchanged(a: Map<u64, HandleDomain>, b: Map<u64, HandleDomain>, handle: u64) -> bool {
    forall|h: u64| h != handle ==> (#[trigger] a.contains_key(h) <==> b.contains_key(h)) && (a.contains_key(h) ==> a[h] == b[h])
}

/// At most the whole queue starts in one pump.
pub proof fn lemma_pump_bounds(inflight: nat, exclusive: bool, queue: Seq<FsJob>)
    ensures
        pump_count(inflight, exclusive, queue) <= queue.len(),
    decreases queue.len(),
{
    if queue.len() > 0 && !head_blocked(inflight, exclusive, queue) && !job_exclusive(queue[0]) {
        lemma_pump_bounds(inflight + 1, false, queue.drop_first());
    }
}

/// Start whatever the head of `handle`'s queue allows, returning the jobs to
/// dispatch in queue order.
pub fn fs_pump_handle(domains: &mut HashMap<u64, HandleDomain>, handle: u64) -> (r: Vec<FsJob>)
    requires
        old(domains)@.contains_key(handle) ==> old(domains)@[handle].inflight
            + old(domains)@[handle].queue@.len() <= usize::MAX,
    ensures
        others_unchanged(old(domains)@, final(domains)@, handle),
        !old(domains)@.contains_key(handle) ==> r@.len() == 0 && final(domains)@ == old(domains)@,
        old(domains)@.contains_key(handle) ==> {
            let d = old(domains)@[handle];
            let k = pump_count(d.inflight as nat, d.exclusive, d.queue@);
            &&& k <= d.queue@.len()
            &&& r@ == d.queue@.take(k as int)
            &&& store_domain(final(domains)@, handle, (d.inflight + k) as nat,
                pump_exclusive(d.inflight as nat, d.exclusive, d.queue@), d.queue@.skip(k as int))
        },
{
    let mut ready: Vec<FsJob> = Vec::new();
    let mut domain = match domains.remove(&handle) {
        None => {
            return ready;
        },
        Some(d) => d,
    };
    let ghost d0 = domain;
    let ghost q0 = d0.queue@;
    proof {
        lemma_pump_bounds(d0.inflight as nat, d0.exclusive, q0);
    }
    loop
        invariant
            q0 == d0.queue@,
            ready@ + domain.queue@ == q0,
            domain.inflight == d0.inflight + ready@.len(),
            d0.inflight + q0.len() <= usize::MAX,
            pump_count(d0.inflight as nat, d0.exclusive, q0) == ready@.len() + pump_count(
                domain.inflight as nat, domain.exclusive, domain.queue@),
            pump_exclusive(d0.inflight as nat, d0.exclusive, q0) == pump_exclusive(
                domain.inflight as nat, domain.exclusive, domain.queue@),
            ready@.len() > 0 ==> !domain.exclusive || pump_count(domain.inflight as nat, domain.exclusive, domain.queue@) == 0,
        ensures
            ready@ + domain.queue@ == q0,
            domain.inflight == d0.inflight + ready@.len(),
            pump_count(d0.inflight as nat, d0.exclusive, q0) == ready@.len(),
            pump_exclusive(d0.inflight as nat, d0.exclusive, q0) == domain.exclusive,
        decreases domain.queue@.len(),
    {
        if domain.queue.len() == 0 {
            break;
        }
        let exclusive = match &domain.queue[0].key {
            Some(key) => key.exclusive,
            None => false,
        };
        if domain.exclusive || (exclusive && domain.inflight > 0) {
            assert(head_blocked(domain.inflight as nat, domain.exclusive, domain.queue@));
            break;
        }
        let ghost before = domain.queue@;
        let job = domain.queue.pop_front().unwrap();
        assert(domain.queue@ == before.drop_first());
        domain.inflight = domain.inflight + 1;
        domain.exclusive = exclusive;
        ready.push(job);
        assert(ready@ + domain.queue@ =~= q0);
        if exclusive {
            break;
        }
    }
    let ghost k = ready@.len();
    assert(ready@ =~= q0.take(k as int));
    assert(domain.queue@ =~= q0.skip(k as int));
    if domain.inflight == 0 && domain.queue.len() == 0 {
        return ready;
    }
    domains.insert(handle, domain);
    ready
}

/// Queue a keyed request behind its handle and start whatever may start.
pub fn fs_enqueue(domains: &mut HashMap<u64, HandleDomain>, job: FsJob) -> (r: Vec<FsJob>)
    requires
        job.key is Some,
        old(domains)@.contains_key(job.key->0.handle) ==> old(domains)@[job.key->0.handle].inflight
            + old(domains)@[job.key->0.handle].queue@.len() < usize::MAX,
    ensures
        ({
            let h = job.key->0.handle;
            let (inflight, exclusive, queue) = if old(domains)@.contains_key(h) {
                let d = old(domains)@[h];
                (d.inflight as nat, d.exclusive, d.queue@.push(job))
            } else {
                (0nat, false, seq![job])
            };
            let k = pump_count(inflight, exclusive, queue);
            &&& others_unchanged(old(domains)@, final(domains)@, h)
            &&& r@ == queue.take(k as int)
            &&& store_domain(final(domains)@, h, inflight + k, pump_exclusive(inflight, exclusive, queue), queue.skip(k as int))
        }),
{
    let handle = match &job.key {
        Some(key) => key.handle,
        None => 0,
    };
    let ghost old_map = domains@;
    let mut domain = match domains.remove(&handle) {
        Some(d) => d,
        None => HandleDomain::new(),
    };
    let ghost j = job;
    domain.queue.push_back(job);
    domains.insert(handle, domain);
    assert(others_unchanged(old_map, domains@, handle));
    let ghost mid = domains@;
    proof {
        if old_map.contains_key(handle) {
            assert(mid[handle].queue@ == old_map[handle].queue@.push(j));
            assert(mid[handle].inflight == old_map[handle].inflight);
        } else {
            assert(mid[handle].queue@ =~= seq![j]);
            assert(mid[handle].inflight == 0);
        }
    }
    let r = fs_pump_handle(domains, handle);
    assert(others_unchanged(mid, domains@, handle));
    assert(others_unchanged(old_map, domains@, handle));
    r
}

/// Release one answered request's place in its handle's domain and start
/// whatever was waiting behind it.
pub fn fs_complete(domains: &mut HashMap<u64, HandleDomain>, handle: u64) -> (r: Vec<FsJob>)
    requires
        old(domains)@.contains_key(handle) ==> old(domains)@[handle].inflight > 0,
        old(domains)@.contains_key(handle) ==> old(domains)@[handle].inflight
            + old(domains)@[handle].queue@.len() <= usize::MAX,
    ensures
        others_unchanged(old(domains)@, final(domains)@, handle),
        !old(domains)@.contains_key(handle) ==> r@.len() == 0 && final(domains)@ == old(domains)@,
        old(domains)@.contains_key(handle) ==> {
            let d = old(domains)@[handle];
            let inflight = (d.inflight - 1) as nat;
            let exclusive = d.exclusive && inflight > 0;
            let k = pump_count(inflight, exclusive, d.queue@);
            &&& r@ == d.queue@.take(k as int)
            &&& store_domain(final(domains)@, handle, inflight + k, pump_exclusive(inflight, exclusive, d.queue@), d.queue@.skip(k as int))
        },
{
    match domains.remove(&handle) {
        None => Vec::new(),
        Some(d) => {
            let mut domain = d;
            domain.inflight = domain.inflight - 1;
            if domain.inflight == 0 {
                domain.exclusive = false;
            }
            domains.insert(handle, domain);
            fs_pump_handle(domains, handle)
        },
    }
}

/// After a pump, whatever is still queued on the handle is blocked: a domain
/// never sits on a head that could start.
pub proof fn lemma_pump_leaves_head_blocked(inflight: nat, exclusive: bool, queue: Seq<FsJob>)
    ensures
        ({
            let k = pump_count(inflight, exclusive, queue);
            let rest = queue.skip(k as int);
            rest.len() > 0 ==> head_blocked(inflight + k, pump_exclusive(inflight, exclusive, queue), rest)
        }),
    decreases queue.len(),
{
    if queue.len() == 0 || head_blocked(inflight, exclusive, queue) {
        assert(queue.skip(0) =~= queue);
    } else if job_exclusive(queue[0]) {
    } else {
        lemma_pump_bounds(inflight + 1, false, queue.drop_first());
        lemma_pump_leaves_head_blocked(inflight + 1, false, queue.drop_first());
        let k1 = pump_count(inflight + 1, false, queue.drop_first());
        assert(queue.skip((1 + k1) as int) =~= queue.drop_first().skip(k1 as int));
    }
}

/// An exclusive job starts only on an idle domain and only alone, and no job
/// starts while an exclusive one runs; so a consistent domain stays
/// consistent.
pub proof fn lemma_pump_exclusive_alone(inflight: nat, exclusive: bool, queue: Seq<FsJob>)
    requires
        exclusive ==> inflight == 1,
    ensures
        ({
            let k = pump_count(inflight, exclusive, queue);
            &&& k > 0 ==> !exclusive
            &&& forall|i: int| 0 <= i < k && job_exclusive(#[trigger] queue[i]) ==> k == 1 && inflight == 0
            &&& pump_exclusive(inflight, exclusive, queue) ==> inflight + k == 1
        }),
    decreases queue.len(),
{
    if queue.len() == 0 || head_blocked(inflight, exclusive, queue) {
    } else if job_exclusive(queue[0]) {
    } else {
        lemma_pump_exclusive_alone(inflight + 1, false, queue.drop_first());
        lemma_pump_bounds(inflight + 1, false, queue.drop_first());
        let k1 = pump_count(inflight + 1, false, queue.drop_first());
        assert forall|i: int| 0 <= i < 1 + k1 && job_exclusive(#[trigger] queue[i]) implies false by {
            if i > 0 {
                assert(queue[i] == queue.drop_first()[i - 1]);
            }
        }
    }
}

/// Completing a request keeps a consistent domain consistent: the exclusive
/// flag clears exactly when nothing is left running.
pub proof fn lemma_complete_keeps_domain_consistent(inflight: nat, exclusive: bool)
    requires
        inflight > 0,
        exclusive ==> inflight == 1,
    ensures
        ({
            let after = (inflight - 1) as nat;
            let cleared = exclusive && after > 0;
            &&& cleared ==> after == 1
            &&& !cleared
        }),
{
}

} // verus!
