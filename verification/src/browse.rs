//! Client-side driver for a persistent v2 browse session.
//!
//! The driver owns the message numbering and the capability gates; each verb
//! sends one request and interprets the reply with a pure function, so what a
//! reply means is stated exactly whatever the peer sends.

use vstd::prelude::*;
use crate::error::ServerError;
use crate::probe::{probe_handshake, probe_session, BROWSE_PROBE_CAPABILITIES};
use crate::protocol::{
    BrowseEntry, Message, MutationStatus, StatStatus, V2Frame, V2Message, CAP_BROWSE_META,
};
use crate::digest::{blake3_digest, blake3_hash};
use crate::scan::FileIdentity;
use crate::text::{lossy_string, push_str, utf8_lossy};
use crate::transport::{answer_frame, one_answer, BrowseReader, BrowseWriter, HandshakeReader, HandshakeWriter};

verus! {

/// The message number after `id`, saturating at the largest.
pub open spec fn next_after(id: u64) -> u64 {
    if id == u64::MAX {
        id
    } else {
        (id + 1) as u64
    }
}

/// `r` is an unexpected-message error with exactly this text.
pub open spec fn is_unexpected<T>(r: Result<T, ServerError>, text: Seq<char>) -> bool {
    r matches Err(ServerError::UnexpectedMessage(m)) && m@ == text
}

/// `r` is a remote refusal with this code and message.
pub open spec fn is_remote<T>(r: Result<T, ServerError>, code: u16, text: Seq<char>) -> bool {
    r matches Err(ServerError::RemoteError { code: c, message }) && c == code && message@ == text
}

/// "expected X, got Y" for a reply of the wrong shape.
pub open spec fn expected_text(expected: Seq<char>, got: V2Message) -> Seq<char> {
    "expected "@ + expected + ", got "@ + got.spec_name()
}

fn unexpected_reply(expected: &str, got: &V2Message) -> (r: ServerError)
    ensures
        r matches ServerError::UnexpectedMessage(m) && m@ == expected_text(expected@, *got),
{
    let mut m = String::new();
    push_str(&mut m, "expected ");
    push_str(&mut m, expected);
    push_str(&mut m, ", got ");
    push_str(&mut m, got.name());
    ServerError::UnexpectedMessage(m)
}

/// What a reply to a list request means: the page token (zero when final),
/// whether the page is final, and its entries.
pub open spec fn list_page_replied(message: V2Message, r: Result<(u64, bool, Vec<BrowseEntry>), ServerError>) -> bool {
    match message {
        V2Message::ListPage { page_token, final_page, entries, .. } => r matches Ok((t, f, e)) && t == page_token
            && f == final_page && e@ == entries@,
        other => is_unexpected(r, expected_text("ListPage"@, other)),
    }
}

/// Interpret the reply to a list request.
pub fn list_page_reply(message: V2Message) -> (r: Result<(u64, bool, Vec<BrowseEntry>), ServerError>)
    ensures
        list_page_replied(message, r),
{
    match message {
        V2Message::ListPage { page_token, final_page, entries, .. } => Ok((page_token, final_page, entries)),
        other => Err(unexpected_reply("ListPage", &other)),
    }
}

/// What a reply to a stat request means: the stat response itself.
pub open spec fn stat_replied(message: V2Message, r: Result<V2Message, ServerError>) -> bool {
    match message {
        V2Message::StatResponse { .. } => r == Ok::<V2Message, ServerError>(message),
        other => is_unexpected(r, expected_text("StatResponse"@, other)),
    }
}

/// Interpret the reply to a stat request.
pub fn stat_reply(message: V2Message) -> (r: Result<V2Message, ServerError>)
    ensures
        stat_replied(message, r),
{
    match message {
        V2Message::StatResponse { .. } => Ok(message),
        other => Err(unexpected_reply("StatResponse", &other)),
    }
}

/// What a reply to a cancel request means: only a cancellation
/// acknowledgement (browse error code 1) for the same request is accepted.
pub open spec fn cancel_replied(related_id: u64, message: V2Message, r: Result<(), ServerError>) -> bool {
    match message {
        V2Message::BrowseError { related_id: id, code, .. } if code == 1 && id == related_id => r is Ok,
        other => is_unexpected(r, expected_text("cancellation acknowledgement"@, other)),
    }
}

/// Interpret the reply to a cancel request.
pub fn cancel_reply(related_id: u64, message: V2Message) -> (r: Result<(), ServerError>)
    ensures
        cancel_replied(related_id, message, r),
{
    match message {
        V2Message::BrowseError { related_id: id, code, .. } if code == 1 && id == related_id => Ok(()),
        other => Err(unexpected_reply("cancellation acknowledgement", &other)),
    }
}

/// What a reply to a keepalive means: only the acknowledgement echoing the
/// same nonce is accepted.
pub open spec fn keepalive_replied(nonce: u64, message: V2Message, r: Result<(), ServerError>) -> bool {
    match message {
        V2Message::KeepaliveAck { nonce: n } if n == nonce => r is Ok,
        other => is_unexpected(r, expected_text("KeepaliveAck"@, other)),
    }
}

/// Interpret the reply to a keepalive.
pub fn keepalive_reply(nonce: u64, message: V2Message) -> (r: Result<(), ServerError>)
    ensures
        keepalive_replied(nonce, message, r),
{
    match message {
        V2Message::KeepaliveAck { nonce: n } if n == nonce => Ok(()),
        other => Err(unexpected_reply("KeepaliveAck", &other)),
    }
}

/// The four browse mutations that share one reply shape.
#[derive(Debug, Clone, Copy, PartialEq, Eq, Structural)]
pub enum MutationKind {
    Rename,
    CreateDirectory,
    SetPermissions,
    SetMtime,
}

impl MutationKind {
    /// The reply variant a mutation expects.
    pub open spec fn spec_reply_name(self) -> Seq<char> {
        match self {
            MutationKind::Rename => "RenameResponse"@,
            MutationKind::CreateDirectory => "CreateDirectoryResponse"@,
            MutationKind::SetPermissions => "SetPermissionsResponse"@,
            MutationKind::SetMtime => "SetMtimeResponse"@,
        }
    }

    fn reply_name(self) -> (r: &'static str)
        ensures
            r@ == self.spec_reply_name(),
    {
        match self {
            MutationKind::Rename => "RenameResponse",
            MutationKind::CreateDirectory => "CreateDirectoryResponse",
            MutationKind::SetPermissions => "SetPermissionsResponse",
            MutationKind::SetMtime => "SetMtimeResponse",
        }
    }
}

/// The status and error bytes of a reply, when it is the response variant a
/// mutation of this kind expects.
pub open spec fn mutation_fields(kind: MutationKind, message: V2Message) -> Option<(MutationStatus, Seq<u8>)> {
    match (kind, message) {
        (MutationKind::Rename, V2Message::RenameResponse { status, error, .. }) => Some((status, error@)),
        (MutationKind::CreateDirectory, V2Message::CreateDirectoryResponse { status, error, .. }) =>
            Some((status, error@)),
        (MutationKind::SetPermissions, V2Message::SetPermissionsResponse { status, error, .. }) =>
            Some((status, error@)),
        (MutationKind::SetMtime, V2Message::SetMtimeResponse { status, error, .. }) =>
            Some((status, error@)),
        _ => None,
    }
}

/// What a reply to a mutation means: success, the peer's refusal with its
/// status code and message, or an unexpected reply.
pub open spec fn mutation_replied(kind: MutationKind, message: V2Message, r: Result<(), ServerError>) -> bool {
    match mutation_fields(kind, message) {
        Some((status, error)) => if status == MutationStatus::Done {
            r is Ok
        } else {
            is_remote(r, status.spec_code(), utf8_lossy(error))
        },
        None => is_unexpected(r, expected_text(kind.spec_reply_name(), message)),
    }
}

/// Interpret the reply to a mutation.
pub fn mutation_reply(kind: MutationKind, message: V2Message) -> (r: Result<(), ServerError>)
    ensures
        mutation_replied(kind, message, r),
{
    let fields = match (&kind, &message) {
        (MutationKind::Rename, V2Message::RenameResponse { status, error, .. }) => Some((*status, error)),
        (MutationKind::CreateDirectory, V2Message::CreateDirectoryResponse { status, error, .. }) =>
            Some((*status, error)),
        (MutationKind::SetPermissions, V2Message::SetPermissionsResponse { status, error, .. }) =>
            Some((*status, error)),
        (MutationKind::SetMtime, V2Message::SetMtimeResponse { status, error, .. }) =>
            Some((*status, error)),
        _ => None,
    };
    match fields {
        Some((status, error)) => {
            if status == MutationStatus::Done {
                Ok(())
            } else {
                Err(ServerError::RemoteError { code: status.code(), message: lossy_string(error.as_slice()) })
            }
        },
        None => Err(unexpected_reply(kind.reply_name(), &message)),
    }
}

/// What a reply to a readlink request for `path` means: the link target;
/// `InvalidPath` naming the path when it is missing; the peer's error when it
/// is not a symlink or could not be read.
pub open spec fn read_link_replied(path: Seq<u8>, message: V2Message, r: Result<Vec<u8>, ServerError>) -> bool {
    match message {
        V2Message::ReadLinkResponse { status, target, error, .. } => match status {
            StatStatus::Found => r matches Ok(t) && t@ == target@,
            StatStatus::Missing => r matches Err(ServerError::InvalidPath(p)) && p@ == utf8_lossy(path),
            StatStatus::Error => is_remote(r, 2, utf8_lossy(error@)),
        },
        other => is_unexpected(r, expected_text("ReadLinkResponse"@, other)),
    }
}

/// Interpret the reply to a readlink request for `path`.
pub fn read_link_reply(path: &[u8], message: V2Message) -> (r: Result<Vec<u8>, ServerError>)
    ensures
        read_link_replied(path@, message, r),
{
    match message {
        V2Message::ReadLinkResponse { status, target, error, .. } => match status {
            StatStatus::Found => Ok(target),
            StatStatus::Missing => Err(ServerError::InvalidPath(lossy_string(path))),
            StatStatus::Error => Err(
                ServerError::RemoteError { code: StatStatus::Error.code(), message: lossy_string(error.as_slice()) },
            ),
        },
        other => Err(unexpected_reply("ReadLinkResponse", &other)),
    }
}

/// What one frame means while a recursive delete is in progress.
#[derive(Debug, Clone, PartialEq, Eq)]
pub enum DeleteStep {
    /// Progress for this delete: report it and keep reading.
    Progress(V2Message),
    /// The final response for this delete.
    Finished(V2Message),
    /// A cancellation acknowledgement: keep reading.
    Skip,
    /// Anything else ends the delete with this error.
    Fail(ServerError),
}

/// Classify one frame received while waiting for delete `related_id` to end.
pub fn delete_step(related_id: u64, message: V2Message) -> (r: DeleteStep)
    ensures
        match message {
            V2Message::DeleteProgress { related_id: id, .. } if id == related_id => r
                == DeleteStep::Progress(message),
            V2Message::DeleteResponse { related_id: id, .. } if id == related_id => r
                == DeleteStep::Finished(message),
            V2Message::BrowseError { code, .. } if code == 1 => r == DeleteStep::Skip,
            other => r matches DeleteStep::Fail(ServerError::UnexpectedMessage(m)) && m@
                == expected_text("delete progress or response"@, other),
        },
{
    match message {
        V2Message::DeleteProgress { related_id: id, .. } if id == related_id => DeleteStep::Progress(message),
        V2Message::DeleteResponse { related_id: id, .. } if id == related_id => DeleteStep::Finished(message),
        V2Message::BrowseError { code, .. } if code == 1 => DeleteStep::Skip,
        other => DeleteStep::Fail(unexpected_reply("delete progress or response", &other)),
    }
}

/// Metadata returned after a single-file fetch is verified locally.
#[derive(Debug, Clone, Copy, PartialEq, Eq)]
pub struct FetchedFile {
    /// Number of bytes published.
    pub size: u64,
    /// Modification time in nanoseconds since the Unix epoch.
    pub mtime_ns: i64,
    /// Source filesystem identity at the stable read.
    pub identity: FileIdentity,
    /// BLAKE3 digest of the fetched bytes.
    pub digest: [u8; 32],
}

/// Interpret the first reply to fetch `related_id`: the file's facts, or the
/// peer's refusal.
pub fn fetch_start_reply(related_id: u64, message: V2Message) -> (r: Result<FetchedFile, ServerError>)
    ensures
        match message {
            V2Message::FetchStart { related_id: id, size, mtime_ns, device, file, digest } if id
                == related_id => r == Ok::<FetchedFile, ServerError>(
                FetchedFile { size, mtime_ns, identity: FileIdentity { device, file }, digest },
            ),
            V2Message::BrowseError { code, message: m, .. } => is_remote(r, code, utf8_lossy(m@)),
            other => is_unexpected(r, expected_text("FetchStart"@, other)),
        },
{
    match message {
        V2Message::FetchStart { related_id: id, size, mtime_ns, device, file, digest } if id
            == related_id => Ok(
            FetchedFile { size, mtime_ns, identity: FileIdentity { device, file }, digest },
        ),
        V2Message::BrowseError { code, message: m, .. } => Err(
            ServerError::RemoteError { code, message: lossy_string(m.as_slice()) },
        ),
        other => Err(unexpected_reply("FetchStart", &other)),
    }
}

fn unexpected_text(text: &str) -> (r: ServerError)
    ensures
        r matches ServerError::UnexpectedMessage(m) && m@ == text@,
{
    let mut m = String::new();
    push_str(&mut m, text);
    ServerError::UnexpectedMessage(m)
}

/// Take one frame of fetch `related_id` whose next byte is `expected_offset`
/// of `size`: the chunk's bytes and the offset after them. A frame of
/// another kind, another request or another offset, or one that runs past
/// the advertised size, fails the fetch.
pub fn fetch_chunk_step(related_id: u64, size: u64, expected_offset: u64, message: V2Message) -> (r:
    Result<(u64, Vec<u8>), ServerError>)
    ensures
        match message {
            V2Message::FetchChunk { related_id: id, offset, data } => if id != related_id || offset
                != expected_offset {
                is_unexpected(r, "fetch chunk is out of order"@)
            } else if expected_offset + data@.len() > u64::MAX {
                is_unexpected(r, "fetch size overflow"@)
            } else if expected_offset + data@.len() > size {
                is_unexpected(r, "fetch exceeded advertised size"@)
            } else {
                r matches Ok((next, d)) && next == expected_offset + data@.len() && d@ == data@
            },
            _ => is_unexpected(r, "expected FetchChunk while fetching"@),
        },
{
    match message {
        V2Message::FetchChunk { related_id: id, offset, data } => {
            if id != related_id || offset != expected_offset {
                return Err(unexpected_text("fetch chunk is out of order"));
            }
            let length = data.len() as u64;
            match expected_offset.checked_add(length) {
                None => Err(unexpected_text("fetch size overflow")),
                Some(next) => {
                    if next > size {
                        Err(unexpected_text("fetch exceeded advertised size"))
                    } else {
                        Ok((next, data))
                    }
                },
            }
        },
        _ => Err(unexpected_text("expected FetchChunk while fetching")),
    }
}

/// Whether the bytes fetched hash to the digest the source advertised.
pub fn fetched_digest_matches(fetched: &FetchedFile, bytes: &[u8]) -> (r: bool)
    ensures
        r <==> blake3_hash(bytes@) == fetched.digest@,
{
    let digest = blake3_digest(bytes);
    let mut i: usize = 0;
    while i < 32
        invariant
            i <= 32,
            digest@.len() == 32,
            fetched.digest@.len() == 32,
            digest@ == blake3_hash(bytes@),
            forall|k: int| 0 <= k < i ==> digest@[k] == fetched.digest@[k],
        decreases 32 - i,
    {
        if digest[i] != fetched.digest[i] {
            assert(digest@[i as int] != fetched.digest@[i as int]);
            return false;
        }
        i = i + 1;
    }
    assert(digest@ =~= fetched.digest@);
    true
}

/// What the first reply to a publish means.
#[derive(Debug, Clone, PartialEq, Eq)]
pub enum PublishStep {
    /// The peer accepts the content: send it.
    Ready,
    /// The peer answered at once (a refusal or a changed base).
    Answered(V2Message),
    /// Anything else fails the publish.
    Fail(ServerError),
}

/// Interpret the first reply to publish `related_id`.
pub fn publish_first_reply(related_id: u64, message: V2Message) -> (r: PublishStep)
    ensures
        match message {
            V2Message::PublishReady { related_id: id } if id == related_id => r == PublishStep::Ready,
            V2Message::PublishResponse { .. } => r == PublishStep::Answered(message),
            other => r matches PublishStep::Fail(ServerError::UnexpectedMessage(m)) && m@
                == expected_text("PublishReady or PublishResponse"@, other),
        },
{
    match message {
        V2Message::PublishReady { related_id: id } if id == related_id => PublishStep::Ready,
        V2Message::PublishResponse { .. } => PublishStep::Answered(message),
        other => PublishStep::Fail(unexpected_reply("PublishReady or PublishResponse", &other)),
    }
}

/// Interpret the final reply to a publish whose content was sent.
pub fn publish_final_reply(message: V2Message) -> (r: Result<V2Message, ServerError>)
    ensures
        match message {
            V2Message::PublishResponse { .. } => r == Ok::<V2Message, ServerError>(message),
            other => is_unexpected(r, expected_text("PublishResponse"@, other)),
        },
{
    match message {
        V2Message::PublishResponse { .. } => Ok(message),
        other => Err(unexpected_reply("PublishResponse", &other)),
    }
}

/// The size of the content frames a publish sends.
pub const PUBLISH_CHUNK_BYTES: usize = 1048576;

/// The offset of content frame `index` of a publish.
pub fn publish_chunk_offset(index: usize) -> (r: u64)
    requires
        index * PUBLISH_CHUNK_BYTES <= u64::MAX,
    ensures
        r == index * PUBLISH_CHUNK_BYTES,
{
    (index as u64) * (PUBLISH_CHUNK_BYTES as u64)
}

/// The local refusal of a metadata verb the peer did not advertise.
pub open spec fn meta_refusal_text() -> Seq<char> {
    "peer does not advertise CAP_BROWSE_META"@
}

/// Client-side driver for a persistent v2 browse session.
///
/// Requests and responses use only the v2 browse envelope; a malformed frame
/// is an error and is never retried as v1. The session keeps, as ghost
/// state, the opening handshake it sent, every request it handed to the
/// writer, and every answer the reader handed back.
pub struct BrowseSession<R, W> {
    reader: R,
    writer: W,
    next_message_id: u64,
    remote_capabilities: u32,
    common_capabilities: u32,
    opening: Ghost<(u64, Message)>,
    sent: Ghost<Seq<(u64, V2Message)>>,
    heard: Ghost<Seq<Option<V2Frame>>>,
}

impl<R, W> BrowseSession<R, W> {
    /// The number the next request will carry.
    pub closed spec fn next_id(&self) -> u64 {
        self.next_message_id
    }

    /// Capabilities the peer advertised.
    pub closed spec fn remote_caps(&self) -> u32 {
        self.remote_capabilities
    }

    /// Capabilities both ends share.
    pub closed spec fn common_caps(&self) -> u32 {
        self.common_capabilities
    }

    /// The streams the session runs over.
    pub closed spec fn streams(&self) -> (R, W) {
        (self.reader, self.writer)
    }

    /// The opening handshake frame the session was established with.
    pub closed spec fn opening(&self) -> (u64, Message) {
        self.opening@
    }

    /// The v2 requests handed to the writer, with their numbers, in order.
    pub closed spec fn sent(&self) -> Seq<(u64, V2Message)> {
        self.sent@
    }

    /// What the reader handed back, in order: a frame, or `None` at a clean
    /// end of stream.
    pub closed spec fn heard(&self) -> Seq<Option<V2Frame>> {
        self.heard@
    }

    /// A session committed to v2 right after the opening handshake, whose
    /// first request is number 2.
    pub(crate) fn open(
        reader: R,
        writer: W,
        remote_capabilities: u32,
        common_capabilities: u32,
        Ghost(opening): Ghost<(u64, Message)>,
    ) -> (r: Self)
        ensures
            r.next_id() == 2,
            r.remote_caps() == remote_capabilities,
            r.common_caps() == common_capabilities,
            r.streams() == (reader, writer),
            r.opening() == opening,
            r.sent() == Seq::<(u64, V2Message)>::empty(),
            r.heard() == Seq::<Option<V2Frame>>::empty(),
    {
        BrowseSession {
            reader,
            writer,
            next_message_id: 2,
            remote_capabilities,
            common_capabilities,
            opening: Ghost(opening),
            sent: Ghost(Seq::empty()),
            heard: Ghost(Seq::empty()),
        }
    }

    /// Capabilities advertised by the remote browse peer.
    pub fn remote_capabilities(&self) -> (r: u32)
        ensures
            r == self.remote_caps(),
    {
        self.remote_capabilities
    }

    /// Known capabilities shared by both endpoints.
    pub fn common_capabilities(&self) -> (r: u32)
        ensures
            r == self.common_caps(),
    {
        self.common_capabilities
    }

    /// Return the underlying stream pair, consuming the session driver.
    pub fn into_parts(self) -> (r: (R, W))
        ensures
            r == self.streams(),
    {
        (self.reader, self.writer)
    }

    /// Whether the peer advertised `CAP_BROWSE_META` (chmod/mtime/readlink).
    pub fn supports_browse_meta(&self) -> (r: bool)
        ensures
            r == (self.remote_caps() & CAP_BROWSE_META != 0),
    {
        self.remote_capabilities & CAP_BROWSE_META != 0
    }

    fn take_id(&mut self) -> (id: u64)
        ensures
            id == old(self).next_id(),
            final(self).next_id() == next_after(id),
            final(self).remote_caps() == old(self).remote_caps(),
            final(self).common_caps() == old(self).common_caps(),
            final(self).streams() == old(self).streams(),
            final(self).opening() == old(self).opening(),
            final(self).sent() == old(self).sent(),
            final(self).heard() == old(self).heard(),
    {
        let id = self.next_message_id;
        self.next_message_id = if id == u64::MAX { id } else { id + 1 };
        id
    }
}

impl<R: HandshakeReader, W: HandshakeWriter> BrowseSession<R, W> {
    /// Establish a browse session over an already-connected stream pair,
    /// refused unless the peer negotiates v2. The opening handshake is the
    /// browse probe's.
    pub fn connect(reader: R, writer: W, job_id: [u8; 16]) -> (r: Result<Self, ServerError>)
        ensures
            r matches Ok(s) ==> {
                &&& s.next_id() == 2
                &&& s.common_caps() & !BROWSE_PROBE_CAPABILITIES == 0
                &&& s.opening() == (1u64, probe_handshake(BROWSE_PROBE_CAPABILITIES, job_id))
                &&& s.sent().len() == 0
                &&& s.heard().len() == 0
            },
    {
        let probed = probe_session(reader, writer, job_id)?;
        proof {
            let (h, a) = choose|h: crate::protocol::Message, a: crate::protocol::Message|
                crate::probe::probe_matches(probed.probe, BROWSE_PROBE_CAPABILITIES, h, a);
            let c = probed.probe.common_capabilities;
            let remote = probed.probe.remote_capabilities;
            assert(c == 0 || c == BROWSE_PROBE_CAPABILITIES & remote & crate::protocol::KNOWN_CAPABILITIES);
            assert((BROWSE_PROBE_CAPABILITIES & remote & crate::protocol::KNOWN_CAPABILITIES) & !BROWSE_PROBE_CAPABILITIES == 0) by (bit_vector);
            assert(0u32 & !BROWSE_PROBE_CAPABILITIES == 0) by (bit_vector);
        }
        probed.into_browse_session()
    }
}

/// The session moved on by exactly one request number, and handed exactly
/// `request`, under the old number, to the writer.
pub open spec fn sent_one<R, W>(old_session: BrowseSession<R, W>, new_session: BrowseSession<R, W>, request: V2Message) -> bool {
    &&& new_session.next_id() == next_after(old_session.next_id())
    &&& new_session.remote_caps() == old_session.remote_caps()
    &&& new_session.common_caps() == old_session.common_caps()
    &&& new_session.opening() == old_session.opening()
    &&& new_session.sent() == old_session.sent().push((old_session.next_id(), request))
}

/// The session sent nothing and heard nothing.
pub open spec fn untouched<R, W>(old_session: BrowseSession<R, W>, new_session: BrowseSession<R, W>) -> bool {
    &&& new_session.next_id() == old_session.next_id()
    &&& new_session.remote_caps() == old_session.remote_caps()
    &&& new_session.common_caps() == old_session.common_caps()
    &&& new_session.opening() == old_session.opening()
    &&& new_session.sent() == old_session.sent()
    &&& new_session.heard() == old_session.heard()
}

/// The reply a verb's exchange heard, if it heard a frame.
pub open spec fn reply_heard<R, W>(old_session: BrowseSession<R, W>, new_session: BrowseSession<R, W>) -> Option<V2Frame> {
    answer_frame(old_session.heard(), new_session.heard())
}

impl<R: BrowseReader, W: BrowseWriter> BrowseSession<R, W> {
    /// Send one v2 request and return its envelope ID.
    pub fn send(&mut self, message: &V2Message) -> (r: Result<u64, ServerError>)
        ensures
            sent_one(*old(self), *final(self), *message),
            final(self).heard() == old(self).heard(),
            r matches Ok(id) ==> id == old(self).next_id(),
    {
        let id = self.take_id();
        proof {
            self.sent@ = self.sent@.push((id, *message));
        }
        self.writer.write_browse_frame(id, message)?;
        Ok(id)
    }

    /// Receive the next v2 response in stream order; a clean end of stream
    /// is `PeerDisconnected`.
    pub fn receive(&mut self) -> (r: Result<V2Frame, ServerError>)
        ensures
            final(self).next_id() == old(self).next_id(),
            final(self).remote_caps() == old(self).remote_caps(),
            final(self).common_caps() == old(self).common_caps(),
            final(self).opening() == old(self).opening(),
            final(self).sent() == old(self).sent(),
            one_answer(old(self).heard(), final(self).heard(), r),
            reply_heard(*old(self), *final(self)) matches Some(f) ==> r == Ok::<V2Frame, ServerError>(f),
    {
        let answer = self.reader.read_browse_frame()?;
        proof {
            self.heard@ = self.heard@.push(answer);
            assert(self.heard@.drop_last() =~= old(self).heard@);
        }
        match answer {
            Some(frame) => Ok(frame),
            None => Err(ServerError::PeerDisconnected),
        }
    }

    /// Send one request and wait for its next response.
    pub fn request(&mut self, message: &V2Message) -> (r: Result<V2Frame, ServerError>)
        ensures
            sent_one(*old(self), *final(self), *message),
            one_answer(old(self).heard(), final(self).heard(), r),
            reply_heard(*old(self), *final(self)) matches Some(f) ==> r == Ok::<V2Frame, ServerError>(f),
    {
        self.send(message)?;
        self.receive()
    }

    /// Request one bounded directory page. The returned token is zero when
    /// the page is final; otherwise pass it back to get the next page.
    pub fn list_page(&mut self, path: Vec<u8>, page_token: u64, page_size: u32) -> (r: Result<(u64, bool, Vec<BrowseEntry>), ServerError>)
        ensures
            sent_one(*old(self), *final(self), V2Message::ListRequest { path, page_token, page_size }),
            one_answer(old(self).heard(), final(self).heard(), r),
            reply_heard(*old(self), *final(self)) matches Some(f) ==> list_page_replied(f.message, r),
    {
        let response = self.request(&V2Message::ListRequest { path, page_token, page_size })?;
        list_page_reply(response.message)
    }

    /// Request metadata for one path without following a final symlink.
    pub fn stat(&mut self, path: Vec<u8>, include_digest: bool) -> (r: Result<V2Message, ServerError>)
        ensures
            sent_one(*old(self), *final(self), V2Message::StatRequest { path, include_digest }),
            one_answer(old(self).heard(), final(self).heard(), r),
            reply_heard(*old(self), *final(self)) matches Some(f) ==> stat_replied(f.message, r),
            r matches Ok(m) ==> m is StatResponse,
    {
        let response = self.request(&V2Message::StatRequest { path, include_digest })?;
        stat_reply(response.message)
    }

    /// Cancel a request and require its cancellation acknowledgement.
    pub fn cancel(&mut self, related_id: u64) -> (r: Result<(), ServerError>)
        ensures
            sent_one(*old(self), *final(self), V2Message::CancelRequest { related_id }),
            one_answer(old(self).heard(), final(self).heard(), r),
            reply_heard(*old(self), *final(self)) matches Some(f) ==> cancel_replied(related_id, f.message, r),
    {
        let response = self.request(&V2Message::CancelRequest { related_id })?;
        cancel_reply(related_id, response.message)
    }

    /// Send a keepalive and require the matching acknowledgement.
    pub fn keepalive(&mut self, nonce: u64) -> (r: Result<(), ServerError>)
        ensures
            sent_one(*old(self), *final(self), V2Message::Keepalive { nonce }),
            one_answer(old(self).heard(), final(self).heard(), r),
            reply_heard(*old(self), *final(self)) matches Some(f) ==> keepalive_replied(nonce, f.message, r),
    {
        let response = self.request(&V2Message::Keepalive { nonce })?;
        keepalive_reply(nonce, response.message)
    }

    /// Rename a remote path without replacing an existing destination.
    pub fn rename(&mut self, source: Vec<u8>, destination: Vec<u8>) -> (r: Result<(), ServerError>)
        ensures
            sent_one(*old(self), *final(self), V2Message::RenameRequest { source, destination }),
            one_answer(old(self).heard(), final(self).heard(), r),
            reply_heard(*old(self), *final(self)) matches Some(f) ==> mutation_replied(
                MutationKind::Rename,
                f.message,
                r,
            ),
    {
        let response = self.request(&V2Message::RenameRequest { source, destination })?;
        mutation_reply(MutationKind::Rename, response.message)
    }

    /// Create one remote directory, without creating missing parents.
    pub fn create_directory(&mut self, path: Vec<u8>) -> (r: Result<(), ServerError>)
        ensures
            sent_one(*old(self), *final(self), V2Message::CreateDirectoryRequest { path }),
            one_answer(old(self).heard(), final(self).heard(), r),
            reply_heard(*old(self), *final(self)) matches Some(f) ==> mutation_replied(
                MutationKind::CreateDirectory,
                f.message,
                r,
            ),
    {
        let response = self.request(&V2Message::CreateDirectoryRequest { path })?;
        mutation_reply(MutationKind::CreateDirectory, response.message)
    }

    /// Set Unix permission bits on a remote path. Refused locally, without
    /// sending anything, when the peer does not advertise `CAP_BROWSE_META`.
    pub fn set_permissions(&mut self, path: Vec<u8>, mode: u32) -> (r: Result<(), ServerError>)
        ensures
            old(self).remote_caps() & CAP_BROWSE_META == 0 ==> is_unexpected(r, meta_refusal_text())
                && untouched(*old(self), *final(self)),
            old(self).remote_caps() & CAP_BROWSE_META != 0 ==> {
                &&& sent_one(*old(self), *final(self), V2Message::SetPermissionsRequest { path, mode })
                &&& one_answer(old(self).heard(), final(self).heard(), r)
                &&& reply_heard(*old(self), *final(self)) matches Some(f) ==> mutation_replied(
                    MutationKind::SetPermissions,
                    f.message,
                    r,
                )
            },
    {
        if !self.supports_browse_meta() {
            return Err(refuse_meta());
        }
        let response = self.request(&V2Message::SetPermissionsRequest { path, mode })?;
        mutation_reply(MutationKind::SetPermissions, response.message)
    }

    /// Set the modification time of a remote path, in signed nanoseconds
    /// since the Unix epoch. Refused locally, without sending anything,
    /// without `CAP_BROWSE_META`.
    pub fn set_mtime(&mut self, path: Vec<u8>, mtime_ns: i64) -> (r: Result<(), ServerError>)
        ensures
            old(self).remote_caps() & CAP_BROWSE_META == 0 ==> is_unexpected(r, meta_refusal_text())
                && untouched(*old(self), *final(self)),
            old(self).remote_caps() & CAP_BROWSE_META != 0 ==> {
                &&& sent_one(*old(self), *final(self), V2Message::SetMtimeRequest { path, mtime_ns })
                &&& one_answer(old(self).heard(), final(self).heard(), r)
                &&& reply_heard(*old(self), *final(self)) matches Some(f) ==> mutation_replied(
                    MutationKind::SetMtime,
                    f.message,
                    r,
                )
            },
    {
        if !self.supports_browse_meta() {
            return Err(refuse_meta());
        }
        let response = self.request(&V2Message::SetMtimeRequest { path, mtime_ns })?;
        mutation_reply(MutationKind::SetMtime, response.message)
    }

    /// Read a remote symlink's target without following it. Refused locally,
    /// without sending anything, without `CAP_BROWSE_META`.
    pub fn read_link(&mut self, path: Vec<u8>) -> (r: Result<Vec<u8>, ServerError>)
        ensures
            old(self).remote_caps() & CAP_BROWSE_META == 0 ==> is_unexpected(r, meta_refusal_text())
                && untouched(*old(self), *final(self)),
            old(self).remote_caps() & CAP_BROWSE_META != 0 ==> {
                &&& sent_one(*old(self), *final(self), V2Message::ReadLinkRequest { path })
                &&& one_answer(old(self).heard(), final(self).heard(), r)
                &&& reply_heard(*old(self), *final(self)) matches Some(f) ==> read_link_replied(path@, f.message, r)
            },
    {
        if !self.supports_browse_meta() {
            return Err(refuse_meta());
        }
        let named = path.clone();
        let response = self.request(&V2Message::ReadLinkRequest { path })?;
        read_link_reply(named.as_slice(), response.message)
    }
}

fn refuse_meta() -> (r: ServerError)
    ensures
        r matches ServerError::UnexpectedMessage(m) && m@ == meta_refusal_text(),
{
    let mut m = String::new();
    push_str(&mut m, "peer does not advertise CAP_BROWSE_META");
    ServerError::UnexpectedMessage(m)
}

} // verus!
