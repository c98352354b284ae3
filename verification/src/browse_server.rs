//! The decisions of a server's v2 browse session, one frame at a time.
//!
//! Each request gets exactly one terminal reply. Keepalives and cancels are
//! answered from session state; the other verbs are served by the embedding
//! program, whose failures are turned into replies here.

use vstd::prelude::*;
use std::collections::HashSet;
use crate::error::ServerError;
use crate::fs_server::MetadataFacts;
use crate::protocol::{BrowseEntry, StatStatus, V2Message, CAP_BROWSE_META};
use crate::text::{decimal, push_decimal, push_str, string_bytes};

verus! {

broadcast use vstd::std_specs::hash::group_hash_axioms;

/// What the session does with one frame.
#[derive(Debug)]
pub enum BrowseRoute {
    /// Write this reply now.
    Reply(V2Message),
    /// Serve this request against the filesystem, then pass the reply to
    /// [`BrowseDispatcher::after_reply`].
    Serve { related_id: u64, request: V2Message },
}

/// Whether a message is one a server sends, never one it serves.
pub open spec fn is_response(m: V2Message) -> bool {
    m is ListPage || m is StatResponse || m is RenameResponse || m is CreateDirectoryResponse
        || m is SetPermissionsResponse || m is SetMtimeResponse || m is ReadLinkResponse
        || m is DeleteProgress || m is DeleteResponse || m is FetchStart || m is FetchChunk
        || m is PublishReady || m is PublishChunk || m is PublishResponse || m is KeepaliveAck
        || m is BrowseError
}

/// Whether a request is one of the metadata verbs gated on `CAP_BROWSE_META`.
pub open spec fn is_meta_verb(m: V2Message) -> bool {
    m is SetPermissionsRequest || m is SetMtimeRequest || m is ReadLinkRequest
}

/// The state of one browse session: the frame numbers seen and the requests
/// still running (a listing that has not sent its final page, a delete that
/// has not finished), which a cancel can still reach.
pub struct BrowseDispatcher {
    capabilities: u32,
    seen_ids: HashSet<u64>,
    active: HashSet<u64>,
}

/// `r` is an unexpected-message error with this text.
pub open spec fn is_unexpected(r: Result<BrowseRoute, ServerError>, text: Seq<char>) -> bool {
    match r {
        Err(ServerError::UnexpectedMessage(m)) => m@ == text,
        _ => false,
    }
}

/// `r` is this reply.
pub open spec fn replies(r: Result<BrowseRoute, ServerError>, reply: V2Message) -> bool {
    match r {
        Ok(BrowseRoute::Reply(m)) => m == reply,
        _ => false,
    }
}

/// `r` is a cancellation answer for `related_id` with this text.
pub open spec fn cancel_answer(r: Result<BrowseRoute, ServerError>, related_id: u64, text: Seq<char>) -> bool {
    match r {
        Ok(BrowseRoute::Reply(V2Message::BrowseError { related_id: i, code, message })) => i == related_id
            && code == 1 && message@ == vstd::utf8::encode_utf8(text),
        _ => false,
    }
}

fn unexpected(text: &str) -> (r: ServerError)
    ensures
        r matches ServerError::UnexpectedMessage(m) && m@ == text@,
{
    let mut m = String::new();
    push_str(&mut m, text);
    ServerError::UnexpectedMessage(m)
}

impl BrowseDispatcher {
    /// The frame numbers seen so far.
    pub closed spec fn spec_seen(&self) -> Set<u64> {
        self.seen_ids@
    }

    /// The requests a cancel can still reach.
    pub closed spec fn spec_active(&self) -> Set<u64> {
        self.active@
    }

    /// The capabilities the server advertised.
    pub closed spec fn spec_capabilities(&self) -> u32 {
        self.capabilities
    }

    /// A session of a server advertising `capabilities`.
    pub fn new(capabilities: u32) -> (r: BrowseDispatcher)
        ensures
            r.spec_seen() == Set::<u64>::empty(),
            r.spec_active() == Set::<u64>::empty(),
            r.spec_capabilities() == capabilities,
    {
        BrowseDispatcher { capabilities, seen_ids: HashSet::new(), active: HashSet::new() }
    }

    /// Decides what one frame from the peer gets. A repeated frame number,
    /// a response sent to the server, and a metadata verb the server did not
    /// advertise end the session; a cancel reaches a running request once.
    pub fn route(&mut self, message_id: u64, message: V2Message) -> (r: Result<BrowseRoute, ServerError>)
        ensures
            final(self).spec_capabilities() == old(self).spec_capabilities(),
            old(self).spec_seen().contains(message_id) ==> is_unexpected(r,
                "duplicate v2 session message ID "@ + decimal(message_id as nat)),
            !old(self).spec_seen().contains(message_id) ==> {
                &&& final(self).spec_seen() == old(self).spec_seen().insert(message_id)
                &&& message is Keepalive ==> replies(r, V2Message::KeepaliveAck { nonce: message->Keepalive_nonce })
                    && final(self).spec_active() == old(self).spec_active()
                &&& message is CancelRequest ==> {
                    let target = message->CancelRequest_related_id;
                    &&& old(self).spec_active().contains(target) ==> cancel_answer(r, target, "request cancelled"@)
                    &&& !old(self).spec_active().contains(target) ==> cancel_answer(r, target, "request already complete"@)
                    &&& final(self).spec_active() == old(self).spec_active().remove(target)
                }
                &&& is_response(message) ==> is_unexpected(r, "v2 session received a response message"@)
                &&& is_meta_verb(message) && old(self).spec_capabilities() & CAP_BROWSE_META == 0 ==> is_unexpected(r,
                    "v2 session received a browse-meta message without CAP_BROWSE_META"@)
                &&& message is DeleteRequest ==> final(self).spec_active() == old(self).spec_active().insert(message_id)
                    && (r matches Ok(BrowseRoute::Serve { related_id, request }) && related_id == message_id && request == message)
                &&& (message is ListRequest || message is StatRequest || message is RenameRequest
                    || message is CreateDirectoryRequest || message is FetchRequest || message is PublishRequest
                    || (is_meta_verb(message) && old(self).spec_capabilities() & CAP_BROWSE_META != 0)) ==> (
                    r matches Ok(BrowseRoute::Serve { related_id, request }) && related_id == message_id && request == message
                    && final(self).spec_active() == old(self).spec_active())
            },
    {
        if self.seen_ids.contains(&message_id) {
            let mut m = String::new();
            push_str(&mut m, "duplicate v2 session message ID ");
            push_decimal(&mut m, message_id);
            return Err(ServerError::UnexpectedMessage(m));
        }
        self.seen_ids.insert(message_id);
        match message {
            V2Message::Keepalive { nonce } => Ok(BrowseRoute::Reply(V2Message::KeepaliveAck { nonce })),
            V2Message::CancelRequest { related_id } => {
                let was_active = self.active.remove(&related_id);
                let text = if was_active {
                    string_bytes("request cancelled")
                } else {
                    string_bytes("request already complete")
                };
                Ok(BrowseRoute::Reply(V2Message::BrowseError { related_id, code: 1, message: text }))
            },
            V2Message::SetPermissionsRequest { .. } | V2Message::SetMtimeRequest { .. }
            | V2Message::ReadLinkRequest { .. } => {
                if self.capabilities & CAP_BROWSE_META == 0 {
                    return Err(unexpected("v2 session received a browse-meta message without CAP_BROWSE_META"));
                }
                Ok(BrowseRoute::Serve { related_id: message_id, request: message })
            },
            V2Message::DeleteRequest { .. } => {
                self.active.insert(message_id);
                Ok(BrowseRoute::Serve { related_id: message_id, request: message })
            },
            V2Message::ListRequest { .. } | V2Message::StatRequest { .. } | V2Message::RenameRequest { .. }
            | V2Message::CreateDirectoryRequest { .. } | V2Message::FetchRequest { .. }
            | V2Message::PublishRequest { .. } => Ok(BrowseRoute::Serve { related_id: message_id, request: message }),
            _ => Err(unexpected("v2 session received a response message")),
        }
    }

    /// Updates which requests are running after a reply is written: a
    /// listing stays reachable by a cancel until its final page, a delete
    /// until its response.
    pub fn after_reply(&mut self, reply: &V2Message)
        ensures
            final(self).spec_seen() == old(self).spec_seen(),
            final(self).spec_capabilities() == old(self).spec_capabilities(),
            final(self).spec_active() == match reply {
                V2Message::ListPage { related_id, final_page, .. } => if *final_page {
                    old(self).spec_active().remove(*related_id)
                } else {
                    old(self).spec_active().insert(*related_id)
                },
                V2Message::DeleteResponse { related_id, .. } => old(self).spec_active().remove(*related_id),
                _ => old(self).spec_active(),
            },
    {
        match reply {
            V2Message::ListPage { related_id, final_page, .. } => {
                if *final_page {
                    self.active.remove(related_id);
                } else {
                    self.active.insert(*related_id);
                }
            },
            V2Message::DeleteResponse { related_id, .. } => {
                self.active.remove(related_id);
            },
            _ => {},
        }
    }
}

/// Whether an error is a refused path rather than a failure to serve it.
pub open spec fn is_path_error(e: ServerError) -> bool {
    e is InvalidPath || e is SymlinkEscape
}

/// The reply to a listing that failed: code 2 for a refused path, 3 for a
/// failure to read it, with the error's message.
pub fn list_failure_reply(related_id: u64, error: &ServerError) -> (r: V2Message)
    ensures
        r matches V2Message::BrowseError { related_id: i, code, message } && i == related_id
            && code == (if is_path_error(*error) { 2u16 } else { 3u16 })
            && message@ == vstd::utf8::encode_utf8(error.spec_text()),
{
    let code: u16 = match error {
        ServerError::InvalidPath(_) | ServerError::SymlinkEscape(_) => 2,
        _ => 3,
    };
    let text = error.to_string();
    V2Message::BrowseError { related_id, code, message: string_bytes(text.as_str()) }
}

/// The reply to a stat that failed: code 2 for a refused path; otherwise an
/// error status carrying the message.
pub fn stat_failure_reply(related_id: u64, error: &ServerError) -> (r: V2Message)
    ensures
        is_path_error(*error) ==> (r matches V2Message::BrowseError { related_id: i, code, message } && i
            == related_id && code == 2 && message@ == vstd::utf8::encode_utf8(error.spec_text())),
        !is_path_error(*error) ==> (r matches V2Message::StatResponse { related_id: i, status, entry, digest, error: m }
            && i == related_id && status == StatStatus::Error && entry is None && digest is None
            && m@ == vstd::utf8::encode_utf8(error.spec_text())),
{
    let text = error.to_string();
    match error {
        ServerError::InvalidPath(_) | ServerError::SymlinkEscape(_) => V2Message::BrowseError {
            related_id,
            code: 2,
            message: string_bytes(text.as_str()),
        },
        _ => V2Message::StatResponse {
            related_id,
            status: StatStatus::Error,
            entry: None,
            digest: None,
            error: string_bytes(text.as_str()),
        },
    }
}

/// The reply to a fetch that failed before its data: code 2 for a refused
/// path, 4 otherwise.
pub fn fetch_failure_reply(related_id: u64, error: &ServerError) -> (r: V2Message)
    ensures
        r matches V2Message::BrowseError { related_id: i, code, message } && i == related_id
            && code == (if is_path_error(*error) { 2u16 } else { 4u16 })
            && message@ == vstd::utf8::encode_utf8(error.spec_text()),
{
    let code: u16 = match error {
        ServerError::InvalidPath(_) | ServerError::SymlinkEscape(_) => 2,
        _ => 4,
    };
    let text = error.to_string();
    V2Message::BrowseError { related_id, code, message: string_bytes(text.as_str()) }
}

/// The entries among a run of directory items, in order; an item that
/// could not be read is `None` and lists nothing.
pub open spec fn readable(items: Seq<Option<BrowseEntry>>) -> Seq<BrowseEntry>
    decreases items.len(),
{
    if items.len() == 0 {
        Seq::empty()
    } else {
        let before = readable(items.drop_last());
        match items.last() {
            Some(entry) => before.push(entry),
            None => before,
        }
    }
}

/// Consecutive pages lose and repeat nothing: the entries of two adjacent
/// runs of a listing are the entries of the run they make together.
pub proof fn lemma_pages_concatenate(a: Seq<Option<BrowseEntry>>, b: Seq<Option<BrowseEntry>>)
    ensures
        readable(a + b) == readable(a) + readable(b),
    decreases b.len(),
{
    if b.len() == 0 {
        assert(a + b =~= a);
        assert(readable(a) + readable(b) =~= readable(a));
    } else {
        lemma_pages_concatenate(a, b.drop_last());
        assert((a + b).drop_last() =~= a + b.drop_last());
        assert((a + b).last() == b.last());
        match b.last() {
            Some(e) => {
                assert(readable(a) + readable(b) =~= (readable(a) + readable(b.drop_last())).push(e));
            },
            None => {},
        }
    }
}

/// The items after the first `start` of a directory, none if it has fewer.
pub open spec fn items_after(items: Seq<Option<BrowseEntry>>, start: int) -> Seq<Option<BrowseEntry>> {
    if start <= items.len() {
        items.skip(start)
    } else {
        Seq::empty()
    }
}

/// What a listing pager does after taking one item.
#[derive(Debug)]
pub enum PageStep {
    /// Hand it the next item of the directory.
    More,
    /// The page is complete: send this reply.
    Page(V2Message),
}

/// One page of a browse listing being read, item by item, from a directory.
///
/// The page holds the readable items after the first `page_token` ones, at
/// most `page_size` of them; it is final when the directory ends, and
/// otherwise carries the number of items read so far as the next token.
/// Unreadable items count toward the token but list nothing.
pub struct ListPager {
    related_id: u64,
    start: usize,
    size: u32,
    index: usize,
    entries: Vec<BrowseEntry>,
    done: bool,
    fed: Ghost<Seq<Option<BrowseEntry>>>,
}

impl ListPager {
    /// The items of the directory taken so far.
    pub closed spec fn spec_fed(&self) -> Seq<Option<BrowseEntry>> {
        self.fed@
    }

    /// Whether the page has been answered.
    pub closed spec fn spec_done(&self) -> bool {
        self.done
    }

    /// The items skipped before the page starts.
    pub closed spec fn spec_start(&self) -> int {
        self.start as int
    }

    /// The most entries the page lists.
    pub closed spec fn spec_size(&self) -> int {
        self.size as int
    }

    /// The request this page answers.
    pub closed spec fn spec_related_id(&self) -> u64 {
        self.related_id
    }

    /// The pager's invariant.
    pub closed spec fn wf(&self) -> bool {
        &&& self.index == self.fed@.len()
        &&& !self.done ==> self.entries@ == readable(items_after(self.fed@, self.start as int))
        &&& !self.done ==> self.entries@.len() <= self.size
    }

    /// A pager for a listing request; a token past what this platform can
    /// count is refused.
    pub fn new(related_id: u64, page_token: u64, page_size: u32) -> (r: Result<ListPager, ServerError>)
        ensures
            page_token > usize::MAX ==> (r matches Err(ServerError::InvalidPath(m)) && m@
                == "page token is too large"@),
            page_token <= usize::MAX ==> (r matches Ok(p) && p.wf() && !p.spec_done()
                && p.spec_fed().len() == 0 && p.spec_start() == page_token && p.spec_size()
                == page_size && p.spec_related_id() == related_id),
    {
        if page_token > usize::MAX as u64 {
            return Err(ServerError::InvalidPath(string_text("page token is too large")));
        }
        let p = ListPager {
            related_id,
            start: page_token as usize,
            size: page_size,
            index: 0,
            entries: Vec::new(),
            done: false,
            fed: Ghost(Seq::empty()),
        };
        assert(readable(items_after(Seq::<Option<BrowseEntry>>::empty(), page_token as int)) =~= Seq::<BrowseEntry>::empty());
        Ok(p)
    }

    /// Takes the next item of the directory: `None` when it has ended,
    /// `Some(None)` for an item that could not be read. Once the page holds
    /// `page_size` entries, the next item is only looked at: it decides
    /// whether the page is final and is left for the next page.
    pub fn on_item(&mut self, item: Option<Option<BrowseEntry>>) -> (r: PageStep)
        requires
            old(self).wf(),
            !old(self).spec_done(),
            old(self).spec_fed().len() < usize::MAX,
        ensures
            final(self).wf(),
            final(self).spec_start() == old(self).spec_start(),
            final(self).spec_size() == old(self).spec_size(),
            final(self).spec_related_id() == old(self).spec_related_id(),
            ({
                let listed = readable(items_after(old(self).spec_fed(), old(self).spec_start()));
                let full = old(self).spec_fed().len() >= old(self).spec_start() && listed.len()
                    == old(self).spec_size();
                match item {
                    None => {
                        &&& final(self).spec_done()
                        &&& r matches PageStep::Page(V2Message::ListPage { related_id, page_token, final_page, entries })
                        &&& related_id == old(self).spec_related_id() && page_token == 0 && final_page
                        &&& entries@ == listed
                    },
                    Some(x) => if full {
                        &&& final(self).spec_done()
                        &&& r matches PageStep::Page(V2Message::ListPage { related_id, page_token, final_page, entries })
                        &&& related_id == old(self).spec_related_id()
                        &&& page_token == old(self).spec_fed().len() && !final_page
                        &&& entries@ == listed
                    } else {
                        &&& !final(self).spec_done()
                        &&& r is More
                        &&& final(self).spec_fed() == old(self).spec_fed().push(x)
                    },
                }
            }),
    {
        let full = self.index >= self.start && self.entries.len() == self.size as usize;
        match item {
            Some(x) if !full => {
                let ghost before = self.fed@;
                let ghost after_now = items_after(before.push(x), self.start as int);
                proof {
                    if self.start as int <= before.len() {
                        assert(after_now =~= items_after(before, self.start as int).push(x));
                        assert(after_now.drop_last() =~= items_after(before, self.start as int));
                    } else {
                        assert(after_now =~= Seq::<Option<BrowseEntry>>::empty());
                    }
                }
                if self.index >= self.start {
                    match x {
                        Some(entry) => self.entries.push(entry),
                        None => {},
                    }
                }
                self.index = self.index + 1;
                self.fed = Ghost(before.push(x));
                PageStep::More
            },
            _ => {
                let mut entries = Vec::new();
                std::mem::swap(&mut entries, &mut self.entries);
                self.done = true;
                let (page_token, final_page) = match item {
                    None => (0u64, true),
                    Some(_) => (self.index as u64, false),
                };
                PageStep::Page(V2Message::ListPage { related_id: self.related_id, page_token, final_page, entries })
            },
        }
    }
}

fn string_text(t: &str) -> (r: String)
    ensures
        r@ == t@,
{
    let mut s = String::new();
    push_str(&mut s, t);
    s
}

/// Where the last component of a `/`-separated path starts.
pub open spec fn name_start(path: Seq<u8>) -> int
    decreases path.len(),
{
    if path.len() == 0 {
        0
    } else if path.last() == 47u8 {
        path.len() as int
    } else {
        name_start(path.drop_last())
    }
}

proof fn lemma_name_start_bounds(path: Seq<u8>)
    ensures
        0 <= name_start(path) <= path.len(),
    decreases path.len(),
{
    if path.len() > 0 {
        lemma_name_start_bounds(path.drop_last());
    }
}

/// The name a stat reply gives an entry: the last component of its path.
pub fn last_component(path: &[u8]) -> (r: Vec<u8>)
    ensures
        0 <= name_start(path@) <= path@.len(),
        r@ == path@.subrange(name_start(path@), path@.len() as int),
{
    let mut start: usize = 0;
    let mut i: usize = 0;
    while i < path.len()
        invariant
            i <= path@.len(),
            start <= i,
            start as int == name_start(path@.take(i as int)),
        decreases path.len() - i,
    {
        assert(path@.take(i as int + 1).drop_last() =~= path@.take(i as int));
        if path[i] == 47u8 {
            start = i + 1;
        }
        i = i + 1;
    }
    assert(path@.take(path@.len() as int) =~= path@);
    proof {
        lemma_name_start_bounds(path@);
    }
    let mut name: Vec<u8> = Vec::new();
    let mut k: usize = start;
    while k < path.len()
        invariant
            start <= k <= path@.len(),
            name@ == path@.subrange(start as int, k as int),
        decreases path.len() - k,
    {
        name.push(path[k]);
        k = k + 1;
        assert(name@ =~= path@.subrange(start as int, k as int));
    }
    name
}

/// The listing entry for a directory item, from what a stat of it found:
/// a missing modification time is zero, and only a symlink carries its
/// target, empty when it could not be read.
pub fn browse_entry(name: Vec<u8>, facts: &MetadataFacts, link_target: Option<Vec<u8>>) -> (r: BrowseEntry)
    ensures
        r.name@ == name@,
        r.kind == facts.kind,
        r.size == facts.size,
        r.mtime_ns == (match facts.mtime_ns { Some(t) => t, None => 0 }),
        r.mode == facts.mode,
        r.symlink_target@ == (if facts.kind == 3 {
            match link_target { Some(t) => t@, None => Seq::<u8>::empty() }
        } else {
            Seq::<u8>::empty()
        }),
{
    let symlink_target = if facts.kind == 3 {
        match link_target {
            Some(t) => t,
            None => Vec::new(),
        }
    } else {
        Vec::new()
    };
    BrowseEntry {
        name,
        kind: facts.kind,
        size: facts.size,
        mtime_ns: match facts.mtime_ns {
            Some(t) => t,
            None => 0,
        },
        mode: facts.mode,
        symlink_target,
    }
}

} // verus!
