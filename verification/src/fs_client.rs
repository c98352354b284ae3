//! Client-side driver for a persistent v3 filesystem session.

use vstd::prelude::*;
use crate::error::ServerError;
use crate::probe::{probe_fs_session, probe_handshake, FS_PROBE_CAPABILITIES};
use crate::protocol::{Message, V3Frame, V3Message};
use crate::text::{hexadecimal, push_hex, push_str};
use crate::transport::{answer_frame, one_answer, FsReader, FsWriter, HandshakeReader, HandshakeWriter};

verus! {

/// The message number after `id`, saturating at the largest.
pub open spec fn fs_next_after(id: u64) -> u64 {
    if id == u64::MAX {
        id
    } else {
        (id + 1) as u64
    }
}

/// The refusal of a message whose feature was not negotiated.
pub open spec fn missing_feature_text(name: Seq<char>, features: u64, negotiated: u64) -> Seq<char> {
    "remote peer did not negotiate the v3 "@ + name + " feature (0x"@ + hexadecimal(features as nat)
        + "); negotiated set is 0x"@ + hexadecimal(negotiated as nat)
}

/// What a reply to a v3 keepalive means: only the acknowledgement echoing
/// the same nonce is accepted.
pub open spec fn fs_keepalive_replied(nonce: u64, message: V3Message, r: Result<(), ServerError>) -> bool {
    match message {
        V3Message::KeepaliveAck { nonce: n } if n == nonce => r is Ok,
        other => r matches Err(ServerError::UnexpectedMessage(m)) && m@ == "expected KeepaliveAck("@
            + crate::text::decimal(nonce as nat) + "), got "@ + other.spec_name(),
    }
}

/// Interpret the reply to a v3 keepalive.
pub fn fs_keepalive_reply(nonce: u64, message: V3Message) -> (r: Result<(), ServerError>)
    ensures
        fs_keepalive_replied(nonce, message, r),
{
    match message {
        V3Message::KeepaliveAck { nonce: n } if n == nonce => Ok(()),
        other => {
            let mut m = String::new();
            push_str(&mut m, "expected KeepaliveAck(");
            crate::text::push_decimal(&mut m, nonce);
            push_str(&mut m, "), got ");
            push_str(&mut m, other.name());
            Err(ServerError::UnexpectedMessage(m))
        },
    }
}

/// Client-side driver for a persistent v3 filesystem session.
///
/// The session is committed to v3 before this type exists and never retries a
/// frame as v2 or v1. It keeps, as ghost state, the opening handshake it was
/// established with, every v3 frame it handed to the writer (the features
/// request included), and every answer the reader handed back.
pub struct FsSession<R, W> {
    reader: R,
    writer: W,
    next_message_id: u64,
    remote_capabilities: u32,
    common_capabilities: u32,
    negotiated_features: u64,
    opening: Ghost<(u64, Message)>,
    sent: Ghost<Seq<(u64, V3Message)>>,
    heard: Ghost<Seq<Option<V3Frame>>>,
}

impl<R, W> FsSession<R, W> {
    /// The number the next request will carry.
    pub closed spec fn next_id(&self) -> u64 {
        self.next_message_id
    }

    /// Capabilities the peer advertised.
    pub closed spec fn remote_caps(&self) -> u32 {
        self.remote_capabilities
    }

    /// Capabilities both ends share.
    pub closed spec fn common_caps(&self) -> u32 {
        self.common_capabilities
    }

    /// Optional features both ends offer.
    pub closed spec fn features(&self) -> u64 {
        self.negotiated_features
    }

    /// The streams the session runs over.
    pub closed spec fn streams(&self) -> (R, W) {
        (self.reader, self.writer)
    }

    /// The opening handshake frame the session was established with.
    pub closed spec fn opening(&self) -> (u64, Message) {
        self.opening@
    }

    /// The v3 frames handed to the writer, with their numbers, in order.
    pub closed spec fn sent(&self) -> Seq<(u64, V3Message)> {
        self.sent@
    }

    /// What the reader handed back, in order: a frame, or `None` at a clean
    /// end of stream.
    pub closed spec fn heard(&self) -> Seq<Option<V3Frame>> {
        self.heard@
    }

    /// A session whose features exchange (message 2) is done, so its first
    /// request is number 3.
    pub(crate) fn open(
        reader: R,
        writer: W,
        remote_capabilities: u32,
        common_capabilities: u32,
        negotiated_features: u64,
        Ghost(opening): Ghost<(u64, Message)>,
        Ghost(sent): Ghost<Seq<(u64, V3Message)>>,
        Ghost(heard): Ghost<Seq<Option<V3Frame>>>,
    ) -> (r: Self)
        ensures
            r.next_id() == 3,
            r.remote_caps() == remote_capabilities,
            r.common_caps() == common_capabilities,
            r.features() == negotiated_features,
            r.streams() == (reader, writer),
            r.opening() == opening,
            r.sent() == sent,
            r.heard() == heard,
    {
        FsSession {
            reader,
            writer,
            next_message_id: 3,
            remote_capabilities,
            common_capabilities,
            negotiated_features,
            opening: Ghost(opening),
            sent: Ghost(sent),
            heard: Ghost(heard),
        }
    }

    /// Capabilities advertised by the remote peer.
    pub fn remote_capabilities(&self) -> (r: u32)
        ensures
            r == self.remote_caps(),
    {
        self.remote_capabilities
    }

    /// Known capabilities shared by both endpoints.
    pub fn common_capabilities(&self) -> (r: u32)
        ensures
            r == self.common_caps(),
    {
        self.common_capabilities
    }

    /// Optional v3 features both endpoints offer.
    pub fn negotiated_features(&self) -> (r: u64)
        ensures
            r == self.features(),
    {
        self.negotiated_features
    }

    /// Whether every bit in `features` was negotiated.
    pub fn supports(&self, features: u64) -> (r: bool)
        ensures
            r == (self.features() & features == features),
    {
        self.negotiated_features & features == features
    }

    /// Refuse to send a message whose feature the server did not advertise,
    /// naming the missing feature.
    pub fn require(&self, features: u64, name: &str) -> (r: Result<(), ServerError>)
        ensures
            (self.features() & features == features) <==> r is Ok,
            r matches Err(e) ==> e matches ServerError::UnexpectedMessage(m) && m@
                == missing_feature_text(name@, features, self.features()),
    {
        if self.supports(features) {
            return Ok(());
        }
        let mut m = String::new();
        push_str(&mut m, "remote peer did not negotiate the v3 ");
        push_str(&mut m, name);
        push_str(&mut m, " feature (0x");
        push_hex(&mut m, features);
        push_str(&mut m, "); negotiated set is 0x");
        push_hex(&mut m, self.negotiated_features);
        Err(ServerError::UnexpectedMessage(m))
    }

    /// Recover the underlying streams.
    pub fn into_parts(self) -> (r: (R, W))
        ensures
            r == self.streams(),
    {
        (self.reader, self.writer)
    }

    fn take_id(&mut self) -> (id: u64)
        ensures
            id == old(self).next_id(),
            final(self).next_id() == fs_next_after(id),
            final(self).remote_caps() == old(self).remote_caps(),
            final(self).common_caps() == old(self).common_caps(),
            final(self).features() == old(self).features(),
            final(self).opening() == old(self).opening(),
            final(self).sent() == old(self).sent(),
            final(self).heard() == old(self).heard(),
    {
        let id = self.next_message_id;
        self.next_message_id = if id == u64::MAX { id } else { id + 1 };
        id
    }
}

impl<R: HandshakeReader + FsReader, W: HandshakeWriter + FsWriter> FsSession<R, W> {
    /// Open a filesystem session over an already-connected stream pair: the
    /// opening handshake, then the features exchange, which sends frame 2
    /// asking for `requested_features` and keeps what the peer granted.
    pub fn connect(reader: R, writer: W, job_id: [u8; 16], requested_features: u64) -> (r: Result<Self, ServerError>)
        ensures
            r matches Ok(s) ==> {
                &&& s.next_id() == 3
                &&& s.features() & !requested_features == 0
                &&& s.opening() == (1u64, probe_handshake(FS_PROBE_CAPABILITIES, job_id))
                &&& s.sent() == seq![(2u64, V3Message::Features { features: requested_features })]
                &&& s.heard().len() == 1
                &&& s.heard()[0] matches Some(f) && f.message == (V3Message::FeaturesAck { features: s.features() })
            },
    {
        probe_fs_session(reader, writer, job_id)?.into_fs_session(requested_features)
    }
}

/// The session moved on by exactly one request number, and handed exactly
/// `request`, under the old number, to the writer.
pub open spec fn fs_sent_one<R, W>(old_session: FsSession<R, W>, new_session: FsSession<R, W>, request: V3Message) -> bool {
    &&& new_session.next_id() == fs_next_after(old_session.next_id())
    &&& new_session.features() == old_session.features()
    &&& new_session.remote_caps() == old_session.remote_caps()
    &&& new_session.common_caps() == old_session.common_caps()
    &&& new_session.opening() == old_session.opening()
    &&& new_session.sent() == old_session.sent().push((old_session.next_id(), request))
}

impl<R: FsReader, W: FsWriter> FsSession<R, W> {
    /// Send one request and return its message ID.
    pub fn send(&mut self, message: &V3Message) -> (r: Result<u64, ServerError>)
        ensures
            fs_sent_one(*old(self), *final(self), *message),
            final(self).heard() == old(self).heard(),
            r matches Ok(id) ==> id == old(self).next_id(),
    {
        let id = self.take_id();
        proof {
            self.sent@ = self.sent@.push((id, *message));
        }
        self.writer.write_fs_frame(id, message)?;
        Ok(id)
    }

    /// Read the next frame from the peer; a clean end of stream is
    /// `PeerDisconnected`.
    pub fn receive(&mut self) -> (r: Result<V3Frame, ServerError>)
        ensures
            final(self).next_id() == old(self).next_id(),
            final(self).features() == old(self).features(),
            final(self).remote_caps() == old(self).remote_caps(),
            final(self).common_caps() == old(self).common_caps(),
            final(self).opening() == old(self).opening(),
            final(self).sent() == old(self).sent(),
            one_answer(old(self).heard(), final(self).heard(), r),
            answer_frame(old(self).heard(), final(self).heard()) matches Some(f) ==> r == Ok::<V3Frame, ServerError>(f),
    {
        let answer = self.reader.read_fs_frame()?;
        proof {
            self.heard@ = self.heard@.push(answer);
            assert(self.heard@.drop_last() =~= old(self).heard@);
        }
        match answer {
            Some(frame) => Ok(frame),
            None => Err(ServerError::PeerDisconnected),
        }
    }

    /// Send one request and read its reply.
    pub fn request(&mut self, message: &V3Message) -> (r: Result<V3Frame, ServerError>)
        ensures
            fs_sent_one(*old(self), *final(self), *message),
            one_answer(old(self).heard(), final(self).heard(), r),
            answer_frame(old(self).heard(), final(self).heard()) matches Some(f) ==> r == Ok::<V3Frame, ServerError>(f),
    {
        self.send(message)?;
        self.receive()
    }

    /// Send a keepalive and check that the peer echoes the nonce.
    pub fn keepalive(&mut self, nonce: u64) -> (r: Result<(), ServerError>)
        ensures
            fs_sent_one(*old(self), *final(self), V3Message::Keepalive { nonce }),
            one_answer(old(self).heard(), final(self).heard(), r),
            answer_frame(old(self).heard(), final(self).heard()) matches Some(f) ==> fs_keepalive_replied(
                nonce,
                f.message,
                r,
            ),
    {
        let frame = self.request(&V3Message::Keepalive { nonce })?;
        fs_keepalive_reply(nonce, frame.message)
    }

    /// Abandon one in-flight request; no reply is awaited.
    pub fn cancel(&mut self, related_id: u64) -> (r: Result<(), ServerError>)
        ensures
            fs_sent_one(*old(self), *final(self), V3Message::Cancel { related_id }),
            final(self).heard() == old(self).heard(),
    {
        self.send(&V3Message::Cancel { related_id })?;
        Ok(())
    }
}

} // verus!
