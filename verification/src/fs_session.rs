//! The decisions of a server's v3 filesystem session, one frame at a time.
//!
//! The session thread reads frames, answers the control verbs itself, and
//! hands everything else to a worker pool in per-handle order. This module is
//! that thread's state and its rules; reading frames, running the workers
//! and writing replies are the embedding program's.

use vstd::prelude::*;
use std::collections::{HashMap, HashSet};
use crate::entries::fs_error;
use crate::error::ServerError;
use crate::fs_order::{
    fs_complete, fs_enqueue, fs_ordering_key, fs_is_write_class, lemma_pump_bounds, pump_count,
    spec_is_write_class, spec_ordering_key, FsJob, HandleDomain, HandleKey,
};
use crate::protocol::{Access, FsErrorCode, V3Message};
use crate::text::{copy_bytes, decimal, push_decimal, push_str};

verus! {

broadcast use vstd::std_specs::hash::group_hash_axioms;

/// What the session thread does in answer to a frame or a completion.
#[derive(Debug)]
pub enum FsAction {
    /// Write this reply now.
    Reply(V3Message),
    /// Probe the export and answer this mount; when the answer grants a
    /// mount, record it with [`FsDispatcher::record_mount`] before the next
    /// frame.
    Mount { related_id: u64, export: Vec<u8>, access: Access },
    /// Hand this request to the worker pool.
    Run(FsJob),
    /// Flag this running request as cancelled; its own reply ends it.
    Flag(u64),
}

/// The mount a session was granted: whether it may write, and why not.
pub struct MountGrant {
    pub writable: bool,
    pub reason: Vec<u8>,
}

/// Whether a request may run under the session's mount: there is one, and a
/// request that modifies the export needs it writable.
pub open spec fn admissible(mount: Option<bool>, request: V3Message) -> bool {
    mount is Some && (spec_is_write_class(request) ==> mount->0)
}

/// Whether the actions appended after position `from` only run requests
/// that may run under `mount`.
pub open spec fn runs_admissible(actions: Seq<FsAction>, from: int, mount: Option<bool>) -> bool {
    forall|i: int| from <= i < actions.len() ==> (#[trigger] actions[i] matches FsAction::Run(job) ==> admissible(mount, job.request))
}

/// Whether a message is a verb that needs a mount: anything but the
/// feature exchange, keepalives, cancels and the mount itself.
pub open spec fn is_verb(message: V3Message) -> bool {
    !(message is Features || message is Keepalive || message is Cancel || message is Mount)
}

/// `r` is a filesystem error reply with this code and text.
pub open spec fn is_fs_error(r: V3Message, related_id: u64, code: FsErrorCode, text: Seq<char>) -> bool {
    r matches V3Message::Error { related_id: i, code: c, platform_errno, message } && i == related_id && c == code
        && platform_errno == 0 && message@ == vstd::utf8::encode_utf8(text)
}

/// `r` is an unexpected-message error with this text.
pub open spec fn is_unexpected(r: Result<Vec<FsAction>, ServerError>, text: Seq<char>) -> bool {
    match r {
        Err(ServerError::UnexpectedMessage(m)) => m@ == text,
        _ => false,
    }
}

/// `r` is exactly one reply, this one.
pub open spec fn single_reply(r: Result<Vec<FsAction>, ServerError>, reply: V3Message) -> bool {
    match r {
        Ok(a) => a@.len() == 1 && match a@[0] {
            FsAction::Reply(m) => m == reply,
            _ => false,
        },
        _ => false,
    }
}

/// `r` is exactly one filesystem error reply with this code and text.
pub open spec fn single_fs_error(r: Result<Vec<FsAction>, ServerError>, related_id: u64, code: FsErrorCode, text: Seq<char>) -> bool {
    match r {
        Ok(a) => a@.len() == 1 && match a@[0] {
            FsAction::Reply(m) => is_fs_error(m, related_id, code, text),
            _ => false,
        },
        _ => false,
    }
}

/// `r` asks for exactly this mount to be answered.
pub open spec fn mount_requested(r: Result<Vec<FsAction>, ServerError>, related_id: u64, message: V3Message) -> bool {
    match r {
        Ok(a) => a@.len() == 1 && match (a@[0], message) {
            (FsAction::Mount { related_id: i, export, access }, V3Message::Mount { export: e, access: x }) => i
                == related_id && export@ == e@ && access == x,
            _ => false,
        },
        _ => false,
    }
}

/// `r` is exactly one refusal of a write on a read-only mount.
pub open spec fn single_read_only_refusal(r: Result<Vec<FsAction>, ServerError>, related_id: u64) -> bool {
    match r {
        Ok(a) => a@.len() == 1 && match a@[0] {
            FsAction::Reply(V3Message::Error { related_id: i, code, platform_errno, .. }) => i == related_id
                && code == FsErrorCode::ReadOnly && platform_errno == 0,
            _ => false,
        },
        _ => false,
    }
}


/// Whether request `t` waits, not yet started, in the queue of handle `h`.
pub open spec fn waits_on(domains: Map<u64, HandleDomain>, h: u64, t: u64) -> bool {
    domains.contains_key(h) && exists|i: int|
        0 <= i < domains[h].queue@.len() && (#[trigger] domains[h].queue@[i]).related_id == t
}

/// Whether one of `jobs` is request `t`.
pub open spec fn among(jobs: Seq<FsJob>, t: u64) -> bool {
    exists|m: int| 0 <= m < jobs.len() && (#[trigger] jobs[m]).related_id == t
}

/// Whether one of `actions` hands request `t` to the pool.
pub open spec fn runs(actions: Seq<FsAction>, t: u64) -> bool {
    exists|i: int| 0 <= i < actions.len() && (#[trigger] actions[i] matches FsAction::Run(job) && job.related_id == t)
}

/// The state of one filesystem session's dispatch thread.
pub struct FsDispatcher {
    fs_features: u64,
    max_in_flight: usize,
    negotiated: Option<u64>,
    mount: Option<MountGrant>,
    in_flight: usize,
    seen_ids: HashSet<u64>,
    running: HashSet<u64>,
    queued: HashMap<u64, u64>,
    domains: HashMap<u64, HandleDomain>,
    eof: bool,
}

impl FsDispatcher {
    /// The features both ends agreed on, once they did.
    pub closed spec fn spec_negotiated(&self) -> Option<u64> {
        self.negotiated
    }

    /// Whether the session is mounted, and if so whether it may write.
    pub closed spec fn spec_mount(&self) -> Option<bool> {
        match self.mount {
            Some(g) => Some(g.writable),
            None => None,
        }
    }

    /// Requests accepted and not yet answered.
    pub closed spec fn spec_in_flight(&self) -> usize {
        self.in_flight
    }

    /// The bound on requests accepted and not yet answered.
    pub closed spec fn spec_max_in_flight(&self) -> usize {
        self.max_in_flight
    }

    /// The features the server offers.
    pub closed spec fn spec_fs_features(&self) -> u64 {
        self.fs_features
    }

    /// The requests accepted that wait in a handle's queue, not yet started.
    pub closed spec fn spec_waiting(&self) -> Set<u64> {
        self.queued@.dom()
    }

    /// The requests handed to the pool and not yet completed.
    pub closed spec fn spec_running(&self) -> Set<u64> {
        self.running@
    }

    /// The frame numbers seen so far.
    pub closed spec fn spec_seen(&self) -> Set<u64> {
        self.seen_ids@
    }

    /// Whether the peer has closed its side.
    pub closed spec fn spec_eof(&self) -> bool {
        self.eof
    }

    /// Whether handle `h` has an ordering domain with nothing dispatched on
    /// it, so that no completion on it can be pending.
    pub closed spec fn spec_handle_idle(&self, h: u64) -> bool {
        self.domains@.contains_key(h) && self.domains@[h].inflight == 0
    }

    /// The invariant: the in-flight count stays within its bound; every
    /// handle's load stays within it too; nothing is queued before a mount,
    /// and every queued request may run under it; a mount follows the
    /// feature exchange; a request recorded as waiting waits in the queue of
    /// the handle it is recorded under.
    pub closed spec fn wf(&self) -> bool {
        &&& self.wf_domains()
        &&& forall|t: u64| #[trigger] self.queued@.contains_key(t) ==> waits_on(self.domains@, self.queued@[t], t)
    }

    /// The invariant but for where waiting requests are recorded.
    closed spec fn wf_domains(&self) -> bool {
        &&& self.max_in_flight > 0
        &&& self.in_flight <= self.max_in_flight
        &&& self.mount is Some ==> self.negotiated is Some
        &&& self.mount is None ==> self.domains@ == Map::<u64, HandleDomain>::empty()
        &&& forall|h: u64| #[trigger] self.domains@.contains_key(h) ==> self.domains@[h].inflight
            + self.domains@[h].queue@.len() <= self.max_in_flight
        &&& forall|h: u64, i: int| #[trigger] self.domains@.contains_key(h) && 0 <= i < self.domains@[h].queue@.len()
            ==> admissible(self.spec_mount(), (#[trigger] self.domains@[h].queue@[i]).request)
    }

    /// A session offering `fs_features` and accepting at most
    /// `max_in_flight` unanswered requests.
    pub fn new(fs_features: u64, max_in_flight: usize) -> (r: FsDispatcher)
        requires
            max_in_flight > 0,
        ensures
            r.wf(),
            r.spec_negotiated() is None,
            r.spec_mount() is None,
            r.spec_in_flight() == 0,
            r.spec_max_in_flight() == max_in_flight,
            r.spec_fs_features() == fs_features,
            r.spec_seen() == Set::<u64>::empty(),
            !r.spec_eof(),
    {
        let r = FsDispatcher {
            fs_features,
            max_in_flight,
            negotiated: None,
            mount: None,
            in_flight: 0,
            seen_ids: HashSet::new(),
            running: HashSet::new(),
            queued: HashMap::new(),
            domains: HashMap::new(),
            eof: false,
        };
        assert(r.domains@ =~= Map::<u64, HandleDomain>::empty());
        r
    }

    /// The peer closed its side.
    pub fn on_eof(&mut self)
        requires
            old(self).wf(),
        ensures
            final(self).wf(),
            final(self).spec_eof(),
            final(self).spec_in_flight() == old(self).spec_in_flight(),
            final(self).spec_max_in_flight() == old(self).spec_max_in_flight(),
            final(self).spec_mount() == old(self).spec_mount(),
            final(self).spec_negotiated() == old(self).spec_negotiated(),
            final(self).spec_fs_features() == old(self).spec_fs_features(),
            final(self).spec_seen() == old(self).spec_seen(),
            final(self).spec_waiting() == old(self).spec_waiting(),
            final(self).spec_running() == old(self).spec_running(),
            forall|h: u64| #[trigger] final(self).spec_handle_idle(h) == old(self).spec_handle_idle(h),
    {
        self.eof = true;
    }

    /// The session is over: the peer closed its side and every request it
    /// sent was answered.
    pub fn finished(&self) -> (r: bool)
        ensures
            r == (self.spec_eof() && self.spec_in_flight() == 0),
    {
        self.eof && self.in_flight == 0
    }

    /// Records the mount the export granted this session; a session is
    /// mounted at most once.
    pub fn record_mount(&mut self, writable: bool, reason: Vec<u8>)
        requires
            old(self).wf(),
            old(self).spec_mount() is None,
            old(self).spec_negotiated() is Some,
        ensures
            final(self).wf(),
            final(self).spec_mount() == Some(writable),
            final(self).spec_in_flight() == old(self).spec_in_flight(),
            final(self).spec_negotiated() == old(self).spec_negotiated(),
            final(self).spec_seen() == old(self).spec_seen(),
            final(self).spec_eof() == old(self).spec_eof(),
    {
        self.mount = Some(MountGrant { writable, reason });
    }

    /// Starts a request that passed every gate. A request naming a handle
    /// goes through that handle's queue, so send order is decided in one
    /// place; the others start at once.
    fn dispatch(&mut self, related_id: u64, request: V3Message, actions: &mut Vec<FsAction>)
        requires
            old(self).wf(),
            old(self).spec_in_flight() < old(self).spec_max_in_flight(),
            admissible(old(self).spec_mount(), request),
        ensures
            final(self).wf(),
            final(self).spec_mount() == old(self).spec_mount(),
            final(self).spec_negotiated() == old(self).spec_negotiated(),
            final(self).spec_seen() == old(self).spec_seen(),
            final(self).spec_eof() == old(self).spec_eof(),
            forall|i: int| 0 <= i < old(actions)@.len() ==> final(actions)@[i] == old(actions)@[i],
            final(actions)@.len() >= old(actions)@.len(),
            runs_admissible(final(actions)@, old(actions)@.len() as int, old(self).spec_mount()),
            spec_ordering_key(request) is None ==> {
                &&& final(actions)@ == old(actions)@.push(FsAction::Run(FsJob { related_id, key: None, request }))
                &&& final(self).spec_in_flight() == old(self).spec_in_flight() + 1
                &&& final(self).spec_running().contains(related_id)
            },
            spec_ordering_key(request) is Some ==> {
                ||| {
                    &&& final(actions)@.len() == old(actions)@.len() + 1
                    &&& final(actions)@.last() matches FsAction::Reply(m)
                    &&& is_fs_error(m, related_id, FsErrorCode::Limit, "too many requests in flight on this session"@)
                    &&& final(self).spec_in_flight() == old(self).spec_in_flight()
                }
                ||| {
                    &&& final(self).spec_in_flight() == old(self).spec_in_flight() + 1
                    &&& final(self).spec_running().contains(related_id) || final(self).spec_waiting().contains(related_id)
                }
            },
    {
        let key = fs_ordering_key(&request);
        match key {
            None => {
                self.in_flight = self.in_flight + 1;
                self.running.insert(related_id);
                actions.push(FsAction::Run(FsJob { related_id, key, request }));
            },
            Some(k) => {
                let load: usize = match self.domains.get(&k.handle) {
                    Some(d) => d.inflight + d.queue.len(),
                    None => 0,
                };
                if load >= self.max_in_flight {
                    actions.push(
                        FsAction::Reply(
                            fs_error(related_id, FsErrorCode::Limit, "too many requests in flight on this session"),
                        ),
                    );
                    return;
                }
                self.in_flight = self.in_flight + 1;
                let ghost before = self.domains@;
                let ghost mount = self.spec_mount();
                let job = FsJob { related_id, key, request };
                let ghost j = job;
                let started = fs_enqueue(&mut self.domains, job);
                proof {
                    let h = k.handle;
                    let queue = if before.contains_key(h) {
                        before[h].queue@.push(j)
                    } else {
                        seq![j]
                    };
                    let inflight: nat = if before.contains_key(h) { before[h].inflight as nat } else { 0 };
                    let exclusive = if before.contains_key(h) { before[h].exclusive } else { false };
                    let kk = pump_count(inflight, exclusive, queue);
                    lemma_pump_bounds(inflight, exclusive, queue);
                    assert forall|i: int| 0 <= i < queue.len() implies admissible(mount, (#[trigger] queue[i]).request) by {
                        if before.contains_key(h) && i < before[h].queue@.len() {
                            assert(queue[i] == before[h].queue@[i]);
                        }
                    }
                    assert forall|m: int| 0 <= m < started@.len() implies admissible(mount, (#[trigger] started@[m]).request) by {
                        assert(started@[m] == queue[m]);
                    }
                    assert forall|g: u64| #[trigger] self.domains@.contains_key(g) implies self.domains@[g].inflight
                        + self.domains@[g].queue@.len() <= self.max_in_flight by {
                        if g != h {
                            assert(before.contains_key(g));
                        }
                    }
                    assert forall|g: u64, i: int| #[trigger] self.domains@.contains_key(g) && 0 <= i < self.domains@[g].queue@.len()
                        implies admissible(self.spec_mount(), (#[trigger] self.domains@[g].queue@[i]).request) by {
                        if g != h {
                            assert(before.contains_key(g));
                            assert(self.domains@[g] == before[g]);
                        } else {
                            assert(self.domains@[g].queue@ == queue.skip(kk as int));
                            assert(self.domains@[g].queue@[i] == queue[i + kk]);
                        }
                    }
                }
                let ghost h = k.handle;
                let ghost queue = if before.contains_key(h) {
                    before[h].queue@.push(j)
                } else {
                    seq![j]
                };
                let ghost kk = pump_count(
                    if before.contains_key(h) { before[h].inflight as nat } else { 0 },
                    if before.contains_key(h) { before[h].exclusive } else { false },
                    queue,
                );
                let ghost queued_before = self.queued@;
                let ghost started_jobs = started@;
                let ghost after_pump = self.domains@;
                proof {
                    lemma_pump_bounds(
                        if before.contains_key(h) { before[h].inflight as nat } else { 0 },
                        if before.contains_key(h) { before[h].exclusive } else { false },
                        queue,
                    );
                }
                self.push_runs(started, actions, Ghost(mount));
                let ghost queued_mid = self.queued@;
                if !self.running.contains(&related_id) {
                    self.queued.insert(related_id, k.handle);
                }
                proof {
                    // A request still waiting sits further down its queue; one
                    // the pump started is no longer recorded as waiting.
                    assert forall|t: u64| #[trigger] self.queued@.contains_key(t) implies waits_on(
                        self.domains@,
                        self.queued@[t],
                        t,
                    ) by {
                        if t == related_id && !queued_mid.contains_key(t) || t == related_id && self.queued@[t] == h
                            && !among(started_jobs, t) && queue.len() > 0 && queue.last().related_id == t {
                            if kk > queue.len() - 1 {
                                assert(started_jobs[queue.len() - 1] == queue[queue.len() - 1]);
                                assert(among(started_jobs, t));
                            }
                            let last = queue.len() - 1;
                            assert(after_pump[h].queue@[last - kk] == queue[last]);
                        } else {
                            assert(queued_mid.contains_key(t));
                            let g = queued_before[t];
                            assert(queued_before.contains_key(t) && !among(started_jobs, t));
                            assert(waits_on(before, g, t));
                            if g != h {
                                assert(before.contains_key(g));
                                assert(after_pump[g] == before[g]);
                            } else {
                                let i = choose|i: int| 0 <= i < before[h].queue@.len()
                                    && (#[trigger] before[h].queue@[i]).related_id == t;
                                assert(queue[i] == before[h].queue@[i]);
                                if i < kk {
                                    assert(started_jobs[i] == queue[i]);
                                    assert(among(started_jobs, t));
                                }
                                assert(after_pump[h].queue@[i - kk] == queue[i]);
                            }
                        }
                    }
                }
            },
        }
    }

    /// Takes a request that has not started out of its handle's queue.
    fn remove_queued(&mut self, handle: u64, target: u64) -> (r: bool)
        requires
            old(self).wf(),
        ensures
            final(self).wf_domains(),
            r <==> waits_on(old(self).domains@, handle, target),
            !r ==> final(self).domains@ == old(self).domains@,
            forall|g: u64, t: u64| t != target && #[trigger] waits_on(old(self).domains@, g, t) ==> waits_on(
                final(self).domains@,
                g,
                t,
            ),
            final(self).queued == old(self).queued,
            final(self).running == old(self).running,
            final(self).spec_mount() == old(self).spec_mount(),
            final(self).spec_negotiated() == old(self).spec_negotiated(),
            final(self).spec_seen() == old(self).spec_seen(),
            final(self).spec_in_flight() == old(self).spec_in_flight(),
            final(self).spec_eof() == old(self).spec_eof(),
    {
        let ghost before = self.domains@;
        let mut domain = match self.domains.remove(&handle) {
            Some(d) => d,
            None => {
                assert(self.domains@ =~= before);
                return false;
            },
        };
        assert(before.contains_key(handle) && before[handle] == domain);
        let ghost d0 = domain;
        let mut i: usize = 0;
        let mut found = false;
        while i < domain.queue.len()
            invariant_except_break
                domain == d0,
                i <= domain.queue@.len(),
                !found,
                forall|m: int| 0 <= m < i ==> (#[trigger] domain.queue@[m]).related_id != target,
            ensures
                domain == d0,
                i <= domain.queue@.len(),
                found ==> i < domain.queue@.len() && domain.queue@[i as int].related_id == target,
                !found ==> forall|m: int| 0 <= m < domain.queue@.len() ==> (#[trigger] domain.queue@[m]).related_id != target,
            decreases domain.queue@.len() - i,
        {
            if domain.queue[i].related_id == target {
                found = true;
                break;
            }
            i = i + 1;
        }
        if found {
            let ghost q0 = domain.queue@;
            let _ = domain.queue.remove(i);
            proof {
                assert forall|m: int| 0 <= m < domain.queue@.len() implies domain.queue@[m] == (if m < i { q0[m] } else { q0[m + 1] }) by {
                }
            }
        }
        self.domains.insert(handle, domain);
        proof {
            let d = self.domains@[handle];
            if !found {
                assert(self.domains@ =~= before);
            }
            assert forall|g: u64, t: u64| t != target && #[trigger] waits_on(before, g, t) implies waits_on(
                self.domains@,
                g,
                t,
            ) by {
                if g != handle {
                    assert(self.domains@[g] == before[g]);
                } else {
                    let m = choose|m: int| 0 <= m < before[g].queue@.len()
                        && (#[trigger] before[g].queue@[m]).related_id == t;
                    if found {
                        if m < i {
                            assert(d.queue@[m] == d0.queue@[m]);
                        } else {
                            assert(m != i);
                            assert(d.queue@[m - 1] == d0.queue@[m]);
                        }
                    } else {
                        assert(d.queue@[m] == d0.queue@[m]);
                    }
                }
            }
            assert forall|g: u64| #[trigger] self.domains@.contains_key(g) implies self.domains@[g].inflight
                + self.domains@[g].queue@.len() <= self.max_in_flight by {
                if g != handle {
                    assert(before.contains_key(g));
                }
            }
            assert forall|g: u64, m: int| #[trigger] self.domains@.contains_key(g) && 0 <= m < self.domains@[g].queue@.len()
                implies admissible(self.spec_mount(), (#[trigger] self.domains@[g].queue@[m]).request) by {
                if g != handle {
                    assert(before.contains_key(g));
                    assert(self.domains@[g] == before[g]);
                } else if found {
                    if m < i {
                        assert(d.queue@[m] == d0.queue@[m]);
                    } else {
                        assert(d.queue@[m] == d0.queue@[m + 1]);
                    }
                } else {
                    assert(d.queue@[m] == d0.queue@[m]);
                }
            }
        }
        found
    }

    /// Answers one frame from the peer.
    ///
    /// The feature exchange comes first and once; a repeated frame number is
    /// a protocol error. Keepalives and cancels are answered here, so neither
    /// waits behind queued work. A mount is answered once. Every other verb
    /// needs the mount's answer first, is refused with `EROFS` when it would
    /// write on a read-only mount, and with `ELIMIT` past the in-flight bound;
    /// only then does it reach the pool.
    pub fn on_frame(&mut self, message_id: u64, message: V3Message) -> (r: Result<Vec<FsAction>, ServerError>)
        requires
            old(self).wf(),
        ensures
            final(self).wf(),
            final(self).spec_mount() == old(self).spec_mount(),
            final(self).spec_eof() == old(self).spec_eof(),
            old(self).spec_seen().contains(message_id) ==> is_unexpected(r,
                "duplicate v3 session message ID "@ + decimal(message_id as nat)),
            !old(self).spec_seen().contains(message_id) ==> {
                &&& old(self).spec_negotiated() is None && !(message is Features) ==> is_unexpected(r,
                    "v3 session expects Features first, got "@ + message.spec_name())
                &&& old(self).spec_negotiated() is Some && message is Features ==> is_unexpected(r,
                    "v3 features exchanged twice"@)
                &&& old(self).spec_negotiated() is None && message is Features ==> single_reply(r,
                    V3Message::FeaturesAck { features: message->Features_features & old(self).spec_fs_features() })
                    && final(self).spec_negotiated() == Some(message->Features_features & old(self).spec_fs_features())
                &&& old(self).spec_negotiated() is Some && message is Keepalive ==> single_reply(r,
                    V3Message::KeepaliveAck { nonce: message->Keepalive_nonce })
                &&& old(self).spec_negotiated() is Some && old(self).spec_mount() is None && is_verb(message)
                    ==> single_fs_error(r, message_id, FsErrorCode::Invalid,
                    "session is not mounted; send Mount and await MountInfo first"@)
                &&& old(self).spec_negotiated() is Some && old(self).spec_mount() == Some(false) && is_verb(message)
                    && spec_is_write_class(message) ==> single_read_only_refusal(r, message_id)
                &&& old(self).spec_negotiated() is Some && message is Mount && old(self).spec_mount() is Some
                    ==> single_fs_error(r, message_id, FsErrorCode::Invalid, "this session is already mounted"@)
                &&& old(self).spec_negotiated() is Some && message is Mount && old(self).spec_mount() is None
                    ==> mount_requested(r, message_id, message)
                &&& old(self).spec_negotiated() is Some && message is Cancel ==> {
                    let target = message->Cancel_related_id;
                    if old(self).spec_waiting().contains(target) {
                        &&& single_fs_error(r, target, FsErrorCode::Cancelled, "cancelled before execution"@)
                        &&& final(self).spec_waiting() == old(self).spec_waiting().remove(target)
                        &&& final(self).spec_in_flight() == (if old(self).spec_in_flight() > 0 {
                            old(self).spec_in_flight() - 1
                        } else {
                            0
                        })
                    } else if old(self).spec_running().contains(target) {
                        &&& r matches Ok(a)
                        &&& a@ == seq![FsAction::Flag(target)]
                    } else {
                        single_fs_error(r, target, FsErrorCode::Cancelled, "request already complete"@)
                    }
                }
                &&& old(self).spec_negotiated() is Some && is_verb(message) && admissible(
                    old(self).spec_mount(),
                    message,
                ) && old(self).spec_in_flight() < old(self).spec_max_in_flight() ==> {
                    &&& r matches Ok(a)
                    &&& spec_ordering_key(message) is None ==> {
                        &&& a@ == seq![FsAction::Run(FsJob { related_id: message_id, key: None, request: message })]
                        &&& final(self).spec_running().contains(message_id)
                    }
                    &&& spec_ordering_key(message) is Some ==> single_fs_error(
                        r,
                        message_id,
                        FsErrorCode::Limit,
                        "too many requests in flight on this session"@,
                    ) || final(self).spec_running().contains(message_id) || final(self).spec_waiting().contains(
                        message_id,
                    )
                }
                &&& old(self).spec_negotiated() is Some && is_verb(message) && admissible(
                    old(self).spec_mount(),
                    message,
                ) && old(self).spec_in_flight() >= old(self).spec_max_in_flight() ==> single_fs_error(
                    r,
                    message_id,
                    FsErrorCode::Limit,
                    "too many requests in flight on this session"@,
                )
                &&& r is Ok ==> final(self).spec_seen() == old(self).spec_seen().insert(message_id)
            },
            r matches Ok(a) ==> runs_admissible(a@, 0, final(self).spec_mount()),
            old(self).spec_negotiated() is Some ==> final(self).spec_negotiated() == old(self).spec_negotiated(),
    {
        if self.seen_ids.contains(&message_id) {
            let mut m = String::new();
            push_str(&mut m, "duplicate v3 session message ID ");
            push_decimal(&mut m, message_id);
            return Err(ServerError::UnexpectedMessage(m));
        }
        self.seen_ids.insert(message_id);
        let related_id = message_id;
        let mut actions: Vec<FsAction> = Vec::new();
        match self.negotiated {
            None => {
                match message {
                    V3Message::Features { features } => {
                        let common = features & self.fs_features;
                        self.negotiated = Some(common);
                        actions.push(FsAction::Reply(V3Message::FeaturesAck { features: common }));
                        return Ok(actions);
                    },
                    other => {
                        let mut m = String::new();
                        push_str(&mut m, "v3 session expects Features first, got ");
                        push_str(&mut m, other.name());
                        return Err(ServerError::UnexpectedMessage(m));
                    },
                }
            },
            Some(_) => {},
        }
        match message {
            V3Message::Features { .. } => {
                let mut m = String::new();
                push_str(&mut m, "v3 features exchanged twice");
                return Err(ServerError::UnexpectedMessage(m));
            },
            V3Message::Keepalive { nonce } => {
                actions.push(FsAction::Reply(V3Message::KeepaliveAck { nonce }));
            },
            V3Message::Cancel { related_id: target } => {
                let queued_on: Option<u64> = match self.queued.get(&target) {
                    Some(h) => Some(*h),
                    None => None,
                };
                let removed = match queued_on {
                    Some(h) => self.remove_queued(h, target),
                    None => false,
                };
                if removed {
                    self.queued.remove(&target);
                    if self.in_flight > 0 {
                        self.in_flight = self.in_flight - 1;
                    }
                    actions.push(FsAction::Reply(fs_error(target, FsErrorCode::Cancelled, "cancelled before execution")));
                } else if self.running.contains(&target) {
                    actions.push(FsAction::Flag(target));
                } else {
                    actions.push(FsAction::Reply(fs_error(target, FsErrorCode::Cancelled, "request already complete")));
                }
            },
            V3Message::Mount { export, access } => {
                if self.mount.is_some() {
                    actions.push(FsAction::Reply(fs_error(related_id, FsErrorCode::Invalid, "this session is already mounted")));
                } else {
                    actions.push(FsAction::Mount { related_id, export, access });
                }
            },
            request => {
                match &self.mount {
                    None => {
                        actions.push(FsAction::Reply(fs_error(related_id, FsErrorCode::Invalid, "session is not mounted; send Mount and await MountInfo first")));
                    },
                    Some(grant) => {
                        if fs_is_write_class(&request) && !grant.writable {
                            let reason = copy_bytes(grant.reason.as_slice());
                            actions.push(FsAction::Reply(V3Message::Error { related_id, code: FsErrorCode::ReadOnly, platform_errno: 0, message: reason }));
                        } else if self.in_flight >= self.max_in_flight {
                            actions.push(FsAction::Reply(fs_error(related_id, FsErrorCode::Limit, "too many requests in flight on this session")));
                        } else {
                            self.dispatch(related_id, request, &mut actions);
                        }
                    },
                }
            },
        }
        Ok(actions)
    }

    /// Records that the pool answered `related_id` (the reply is written by
    /// the caller), releasing its place in its handle's domain and starting
    /// whatever was waiting behind it.
    pub fn on_completed(&mut self, related_id: u64, key: Option<HandleKey>) -> (r: Result<Vec<FsAction>, ServerError>)
        requires
            old(self).wf(),
        ensures
            final(self).wf(),
            final(self).spec_mount() == old(self).spec_mount(),
            final(self).spec_negotiated() == old(self).spec_negotiated(),
            final(self).spec_seen() == old(self).spec_seen(),
            final(self).spec_eof() == old(self).spec_eof(),
            r is Err <==> old(self).spec_in_flight() == 0 || (key matches Some(k) && old(self).spec_handle_idle(k.handle)),
            r is Err ==> *final(self) == *old(self),
            r is Ok ==> final(self).spec_in_flight() == old(self).spec_in_flight() - 1,
            r matches Ok(a) ==> runs_admissible(a@, 0, final(self).spec_mount()),
            r matches Ok(a) ==> forall|i: int| 0 <= i < a@.len() ==> a@[i] is Run,
            r matches Ok(a) ==> (key is None ==> a@.len() == 0),
            r matches Ok(a) ==> (forall|t: u64| #[trigger] final(self).spec_running().contains(t)
                <==> (t != related_id && (old(self).spec_running().contains(t) || runs(a@, t)))),
            r matches Ok(a) ==> (forall|t: u64| #[trigger] final(self).spec_waiting().contains(t)
                <==> (old(self).spec_waiting().contains(t) && !runs(a@, t))),
    {
        if self.in_flight == 0 {
            let mut m = String::new();
            push_str(&mut m, "v3 completion with no request in flight");
            return Err(ServerError::UnexpectedMessage(m));
        }
        let mut actions: Vec<FsAction> = Vec::new();
        match key {
            None => {},
            Some(k) => {
                let busy = match self.domains.get(&k.handle) {
                    Some(d) => d.inflight > 0,
                    None => true,
                };
                if !busy {
                    let mut m = String::new();
                    push_str(&mut m, "v3 completion on an idle handle");
                    return Err(ServerError::UnexpectedMessage(m));
                }
                let ghost before = self.domains@;
                let ghost mount = self.spec_mount();
                let started = fs_complete(&mut self.domains, k.handle);
                proof {
                    let h = k.handle;
                    if before.contains_key(h) {
                        let d = before[h];
                        let inflight = (d.inflight - 1) as nat;
                        let exclusive = d.exclusive && inflight > 0;
                        let kk = pump_count(inflight, exclusive, d.queue@);
                        lemma_pump_bounds(inflight, exclusive, d.queue@);
                        assert forall|m: int| 0 <= m < started@.len() implies admissible(mount, (#[trigger] started@[m]).request) by {
                            assert(started@[m] == d.queue@[m]);
                        }
                        assert forall|g: u64, i: int| #[trigger] self.domains@.contains_key(g) && 0 <= i < self.domains@[g].queue@.len()
                            implies admissible(self.spec_mount(), (#[trigger] self.domains@[g].queue@[i]).request) by {
                            if g != h {
                                assert(before.contains_key(g));
                                assert(self.domains@[g] == before[g]);
                            } else {
                                assert(self.domains@[g].queue@[i] == d.queue@[i + kk]);
                            }
                        }
                    } else {
                        assert(self.domains@ =~= before);
                    }
                    assert forall|g: u64| #[trigger] self.domains@.contains_key(g) implies self.domains@[g].inflight
                        + self.domains@[g].queue@.len() <= self.max_in_flight by {
                        if g != h {
                            assert(before.contains_key(g));
                        }
                    }
                }
                let ghost queued_before = self.queued@;
                let ghost started_jobs = started@;
                let ghost after_pump = self.domains@;
                self.push_runs(started, &mut actions, Ghost(mount));
                proof {
                    assert forall|t: u64| among(started_jobs, t) <==> runs(actions@, t) by {
                        if among(started_jobs, t) {
                            let m = choose|m: int| 0 <= m < started_jobs.len() && (#[trigger] started_jobs[m]).related_id == t;
                            assert(actions@[m] == FsAction::Run(started_jobs[m]));
                        }
                        if runs(actions@, t) {
                            let i = choose|i: int| 0 <= i < actions@.len()
                                && (#[trigger] actions@[i] matches FsAction::Run(job) && job.related_id == t);
                            assert(actions@[i] == FsAction::Run(started_jobs[i]));
                        }
                    }
                }
                proof {
                    // What the pump started is no longer recorded as waiting;
                    // the rest moved up its queue by the number started.
                    let h = k.handle;
                    assert forall|t: u64| #[trigger] self.queued@.contains_key(t) implies waits_on(
                        self.domains@,
                        self.queued@[t],
                        t,
                    ) by {
                        let g = queued_before[t];
                        assert(queued_before.contains_key(t) && !among(started_jobs, t));
                        assert(waits_on(before, g, t));
                        if g != h {
                            assert(before.contains_key(g));
                            assert(after_pump[g] == before[g]);
                        } else {
                            let d = before[h];
                            let inflight = (d.inflight - 1) as nat;
                            let exclusive = d.exclusive && inflight > 0;
                            let kk = pump_count(inflight, exclusive, d.queue@);
                            lemma_pump_bounds(inflight, exclusive, d.queue@);
                            let i = choose|i: int| 0 <= i < d.queue@.len() && (#[trigger] d.queue@[i]).related_id == t;
                            if i < kk {
                                assert(started_jobs[i] == d.queue@[i]);
                                assert(among(started_jobs, t));
                            }
                            assert(after_pump[h].queue@[i - kk] == d.queue@[i]);
                        }
                    }
                }
            },
        }
        self.running.remove(&related_id);
        self.in_flight = self.in_flight - 1;
        Ok(actions)
    }

    /// Hands the started jobs to the pool, in order.
    fn push_runs(&mut self, started: Vec<FsJob>, actions: &mut Vec<FsAction>, Ghost(mount): Ghost<Option<bool>>)
        requires
            forall|m: int| 0 <= m < started@.len() ==> admissible(mount, (#[trigger] started@[m]).request),
        ensures
            final(self).fs_features == old(self).fs_features,
            final(self).max_in_flight == old(self).max_in_flight,
            final(self).negotiated == old(self).negotiated,
            final(self).mount == old(self).mount,
            final(self).in_flight == old(self).in_flight,
            final(self).seen_ids == old(self).seen_ids,
            final(self).eof == old(self).eof,
            final(self).domains == old(self).domains,
            forall|t: u64| #[trigger] final(self).running@.contains(t) <==> old(self).running@.contains(t)
                || among(started@, t),
            forall|t: u64| #[trigger] final(self).queued@.contains_key(t) <==> old(self).queued@.contains_key(t)
                && !among(started@, t),
            forall|t: u64| #[trigger] final(self).queued@.contains_key(t) ==> final(self).queued@[t]
                == old(self).queued@[t],
            final(actions)@.len() == old(actions)@.len() + started@.len(),
            forall|i: int| 0 <= i < old(actions)@.len() ==> final(actions)@[i] == old(actions)@[i],
            runs_admissible(final(actions)@, old(actions)@.len() as int, mount),
            forall|i: int| old(actions)@.len() <= i < final(actions)@.len() ==> (#[trigger] final(actions)@[i]) is Run,
            forall|i: int| old(actions)@.len() <= i < final(actions)@.len() ==> #[trigger] final(actions)@[i]
                == FsAction::Run(started@[i - old(actions)@.len()]),
    {
        let ghost all = started@;
        let ghost base = actions@.len();
        let total = started.len();
        let mut jobs = started;
        let mut taken: usize = 0;
        while jobs.len() > 0
            invariant
                0 <= taken <= all.len(),
                total == all.len(),
                jobs@ == all.skip(taken as int),
                forall|m: int| 0 <= m < all.len() ==> admissible(mount, (#[trigger] all[m]).request),
                actions@.len() == base + taken,
                forall|i: int| 0 <= i < base ==> actions@[i] == old(actions)@[i],
                base == old(actions)@.len(),
                runs_admissible(actions@, base as int, mount),
                forall|i: int| base <= i < actions@.len() ==> (#[trigger] actions@[i]) is Run,
                forall|i: int| base <= i < actions@.len() ==> #[trigger] actions@[i] == FsAction::Run(all[i - base]),
                self.fs_features == old(self).fs_features,
                self.max_in_flight == old(self).max_in_flight,
                self.negotiated == old(self).negotiated,
                self.mount == old(self).mount,
                self.in_flight == old(self).in_flight,
                self.seen_ids == old(self).seen_ids,
                self.eof == old(self).eof,
                self.domains == old(self).domains,
                forall|t: u64| #[trigger] self.running@.contains(t) <==> old(self).running@.contains(t)
                    || among(all.take(taken as int), t),
                forall|t: u64| #[trigger] self.queued@.contains_key(t) <==> old(self).queued@.contains_key(t)
                    && !among(all.take(taken as int), t),
                forall|t: u64| #[trigger] self.queued@.contains_key(t) ==> self.queued@[t]
                    == old(self).queued@[t],
            decreases jobs@.len(),
        {
            let ghost before = jobs@;
            let job = jobs.remove(0);
            assert(job == all[taken as int]);
            assert(jobs@ =~= all.skip(taken as int + 1));
            let ghost id = job.related_id;
            self.running.insert(job.related_id);
            self.queued.remove(&job.related_id);
            actions.push(FsAction::Run(job));
            proof {
                let before_taken = all.take(taken as int);
                let now_taken = all.take(taken as int + 1);
                assert forall|t: u64| among(now_taken, t) <==> among(before_taken, t) || t == id by {
                    if among(now_taken, t) {
                        let m = choose|m: int| 0 <= m < now_taken.len() && (#[trigger] now_taken[m]).related_id == t;
                        if m < taken {
                            assert(before_taken[m] == now_taken[m]);
                        }
                    }
                    if among(before_taken, t) {
                        let m = choose|m: int| 0 <= m < before_taken.len() && (#[trigger] before_taken[m]).related_id == t;
                        assert(now_taken[m] == before_taken[m]);
                    }
                    if t == id {
                        assert(now_taken[taken as int].related_id == t);
                    }
                }
            }
            taken = taken + 1;
        }
        assert(all.take(total as int) =~= all);
    }
}

/// A session never holds more unanswered requests than its bound, whatever
/// frames and completions arrive.
pub proof fn lemma_in_flight_bounded(session: FsDispatcher)
    requires
        session.wf(),
    ensures
        session.spec_in_flight() <= session.spec_max_in_flight(),
        session.spec_mount() is Some ==> session.spec_negotiated() is Some,
{
}

} // verus!
