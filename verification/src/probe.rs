//! The opening handshake that precedes every session: what a probe learns
//! about the peer and which session it may continue into.

use vstd::prelude::*;
use crate::browse::BrowseSession;
use crate::error::ServerError;
use crate::fs_client::FsSession;
use crate::protocol::{
    common_capabilities, negotiate_protocol_version, spec_common_capabilities,
    spec_negotiated_version, CompressionMode, Message, Role, V3Message, CAP_BROWSE_META,
    CAP_BROWSE_V2, CAP_FS_V3, CAP_VERSION_NEGOTIATION, DEFAULT_UNACKNOWLEDGED_WINDOW,
    MAX_COMPLETE_PAYLOAD, MAX_DATA_SEGMENT,
};
use crate::text::{decimal, hexadecimal, push_decimal, push_hex, push_str};
use crate::transport::{FsReader, FsWriter, HandshakeReader, HandshakeWriter};

verus! {

/// The version of this build.
pub fn version() -> (r: &'static str)
    ensures
        r@ == "0.1.0"@,
{
    "0.1.0"
}

/// Result of probing a peer before opening a browse session.
#[derive(Debug, Clone, PartialEq, Eq)]
pub enum ProbeStatus {
    /// The peer supports the current browse protocol.
    Ready,
    /// The peer selected the v3 filesystem grammar.
    ReadyV3,
    /// The peer answered, but is older and cannot provide browse v2.
    OlderPeer { selected_version: u32 },
    /// The peer answered with an unusable role or protocol state.
    Unusable { detail: String },
}

impl ProbeStatus {
    /// The action a caller can present for a probe status.
    pub open spec fn spec_action(&self) -> Seq<char> {
        match self {
            ProbeStatus::Ready => "open the browse session"@,
            ProbeStatus::ReadyV3 => "open the filesystem session"@,
            ProbeStatus::OlderPeer { .. } => "upgrade the remote xsync binary before browsing"@,
            ProbeStatus::Unusable { .. } => "check the remote xsync installation and protocol settings"@,
        }
    }

    /// Action a caller can present for this probe result.
    pub fn action(&self) -> (r: &'static str)
        ensures
            r@ == self.spec_action(),
    {
        match self {
            ProbeStatus::Ready => "open the browse session",
            ProbeStatus::ReadyV3 => "open the filesystem session",
            ProbeStatus::OlderPeer { .. } => "upgrade the remote xsync binary before browsing",
            ProbeStatus::Unusable { .. } => "check the remote xsync installation and protocol settings",
        }
    }

    /// The status as debug output shows it.
    pub open spec fn spec_debug(&self) -> Seq<char> {
        match self {
            ProbeStatus::Ready => "Ready"@,
            ProbeStatus::ReadyV3 => "ReadyV3"@,
            ProbeStatus::OlderPeer { selected_version } => "OlderPeer { selected_version: "@
                + decimal(*selected_version as nat) + " }"@,
            ProbeStatus::Unusable { detail } => "Unusable { detail: \""@ + detail@ + "\" }"@,
        }
    }

    /// Append the status as debug output shows it.
    pub fn push_debug(&self, s: &mut String)
        ensures
            final(s)@ == old(s)@ + self.spec_debug(),
    {
        match self {
            ProbeStatus::Ready => push_str(s, "Ready"),
            ProbeStatus::ReadyV3 => push_str(s, "ReadyV3"),
            ProbeStatus::OlderPeer { selected_version } => {
                push_str(s, "OlderPeer { selected_version: ");
                push_decimal(s, *selected_version as u64);
                push_str(s, " }");
            },
            ProbeStatus::Unusable { detail } => {
                push_str(s, "Unusable { detail: \"");
                push_str(s, detail.as_str());
                push_str(s, "\" }");
            },
        }
    }
}

/// Handshake facts exposed by a pre-session probe.
#[derive(Debug, Clone, PartialEq, Eq)]
pub struct AgentProbe {
    /// Local application version.
    pub local_version: &'static str,
    /// Remote application version when the peer exposes one.
    pub remote_version: Option<String>,
    /// Capabilities advertised by the remote peer.
    pub remote_capabilities: u32,
    /// Capability intersection computed during the probe.
    pub common_capabilities: u32,
    /// Selected wire version.
    pub selected_version: u32,
    /// Typed probe outcome.
    pub status: ProbeStatus,
}

/// The status a selected wire version gives a probe.
pub open spec fn status_for_version(selected_version: u32) -> ProbeStatus {
    if selected_version == 3 {
        ProbeStatus::ReadyV3
    } else if selected_version == 2 {
        ProbeStatus::Ready
    } else {
        ProbeStatus::OlderPeer { selected_version }
    }
}

/// What a probe that advertised `capabilities` learns from the peer's first
/// frame and, when that was a session handshake, from the acknowledgement
/// after it (`ack` is not consulted otherwise).
pub open spec fn spec_probe_outcome(capabilities: u32, handshake: Message, ack: Message) -> (
    u32,
    u32,
    u32,
    ProbeStatus,
) {
    match handshake {
        Message::Handshake { role: Role::Session, capabilities: remote, .. } => {
            if ack is Ack {
                let selected = spec_negotiated_version(capabilities, remote);
                (remote, spec_common_capabilities(capabilities, remote), selected, status_for_version(selected))
            } else {
                (remote, spec_common_capabilities(capabilities, remote), 0, ProbeStatus::Unusable {
                    detail: arbitrary(),
                })
            }
        },
        _ => (0, 0, 0, ProbeStatus::Unusable { detail: arbitrary() }),
    }
}

/// The detail an unusable probe reports.
pub open spec fn spec_probe_detail(handshake: Message, ack: Message) -> Seq<char> {
    match handshake {
        Message::Handshake { role: Role::Session, .. } => "expected handshake acknowledgement, got "@
            + ack.spec_name(),
        _ => "expected Session handshake, got "@ + handshake.spec_name(),
    }
}

/// The probe facts are those `spec_probe_outcome` gives for the two frames,
/// with the unusable detail spelled by `spec_probe_detail`.
pub open spec fn probe_matches(probe: AgentProbe, capabilities: u32, handshake: Message, ack: Message) -> bool {
    let (remote, common, selected, status) = spec_probe_outcome(capabilities, handshake, ack);
    &&& probe.local_version@ == "0.1.0"@
    &&& probe.remote_version is None
    &&& probe.remote_capabilities == remote
    &&& probe.common_capabilities == common
    &&& probe.selected_version == selected
    &&& match status {
        ProbeStatus::Unusable { .. } => probe.status matches ProbeStatus::Unusable { detail }
            && detail@ == spec_probe_detail(handshake, ack),
        _ => probe.status == status,
    }
}

fn session_remote_capabilities(message: &Message) -> (r: Option<u32>)
    ensures
        r == (match *message {
            Message::Handshake { role: Role::Session, capabilities, .. } => Some(capabilities),
            _ => None::<u32>,
        }),
{
    match message {
        Message::Handshake { role: Role::Session, capabilities, .. } => Some(*capabilities),
        _ => None,
    }
}

/// Decide what a probe learned from the peer's handshake and the
/// acknowledgement that followed it.
pub fn probe_outcome(capabilities: u32, handshake: &Message, ack: &Message) -> (r: AgentProbe)
    ensures
        probe_matches(r, capabilities, *handshake, *ack),
{
    match session_remote_capabilities(handshake) {
        None => {
            let mut detail = String::new();
            push_str(&mut detail, "expected Session handshake, got ");
            push_str(&mut detail, handshake.name());
            AgentProbe {
                local_version: version(),
                remote_version: None,
                remote_capabilities: 0,
                common_capabilities: 0,
                selected_version: 0,
                status: ProbeStatus::Unusable { detail },
            }
        },
        Some(remote) => {
            if !matches!(ack, Message::Ack { .. }) {
                let mut detail = String::new();
                push_str(&mut detail, "expected handshake acknowledgement, got ");
                push_str(&mut detail, ack.name());
                return AgentProbe {
                    local_version: version(),
                    remote_version: None,
                    remote_capabilities: remote,
                    common_capabilities: common_capabilities(capabilities, remote),
                    selected_version: 0,
                    status: ProbeStatus::Unusable { detail },
                };
            }
            let selected_version = negotiate_protocol_version(capabilities, remote);
            let status = if selected_version == 3 {
                ProbeStatus::ReadyV3
            } else if selected_version == 2 {
                ProbeStatus::Ready
            } else {
                ProbeStatus::OlderPeer { selected_version }
            };
            AgentProbe {
                local_version: version(),
                remote_version: None,
                remote_capabilities: remote,
                common_capabilities: common_capabilities(capabilities, remote),
                selected_version,
                status,
            }
        },
    }
}

/// A successful probe with the connection still available for reuse.
pub struct ProbedConnection<R, W> {
    /// Probe facts.
    pub probe: AgentProbe,
    /// Already-handshaken reader.
    pub reader: R,
    /// Already-handshaken writer.
    pub writer: W,
    /// The handshake frame the probe handed to the writer, with its number.
    pub opening: Ghost<(u64, Message)>,
}

impl<R, W> ProbedConnection<R, W> {
    /// The handshake frame the probe handed to the writer, with its number.
    pub open spec fn opening(&self) -> (u64, Message) {
        self.opening@
    }
}

/// The handshake a probe sends.
pub open spec fn probe_handshake(capabilities: u32, job_id: [u8; 16]) -> Message {
    Message::Handshake {
        role: Role::Session,
        capabilities,
        max_payload: MAX_COMPLETE_PAYLOAD,
        max_segment: MAX_DATA_SEGMENT,
        window: DEFAULT_UNACKNOWLEDGED_WINDOW,
        job_id,
        compression: CompressionMode::Uncompressed,
        compression_level: 3,
    }
}

/// Capabilities a browse probe advertises.
pub const BROWSE_PROBE_CAPABILITIES: u32 = CAP_BROWSE_V2 | CAP_VERSION_NEGOTIATION | CAP_BROWSE_META;

/// Capabilities a filesystem probe advertises.
pub const FS_PROBE_CAPABILITIES: u32 = CAP_BROWSE_V2 | CAP_VERSION_NEGOTIATION | CAP_BROWSE_META
    | CAP_FS_V3;

/// Send the opening handshake and read the peer's answer.
///
/// A returned connection handed frame 1, the probe handshake advertising
/// `capabilities` for `job_id`, to the writer; whatever the peer answered,
/// it carries probe facts that `probe_outcome` gives for some handshake and
/// acknowledgement.
pub fn probe_with_capabilities<R: HandshakeReader, W: HandshakeWriter>(
    reader: R,
    writer: W,
    job_id: [u8; 16],
    capabilities: u32,
) -> (r: Result<ProbedConnection<R, W>, ServerError>)
    ensures
        r matches Ok(c) ==> c.opening() == (1u64, probe_handshake(capabilities, job_id)),
        r matches Ok(c) ==> exists|h: Message, a: Message| probe_matches(c.probe, capabilities, h, a),
{
    let mut reader = reader;
    let mut writer = writer;
    let handshake = Message::Handshake {
        role: Role::Session,
        capabilities,
        max_payload: MAX_COMPLETE_PAYLOAD,
        max_segment: MAX_DATA_SEGMENT,
        window: DEFAULT_UNACKNOWLEDGED_WINDOW,
        job_id,
        compression: CompressionMode::Uncompressed,
        compression_level: 3,
    };
    writer.write_handshake_frame(1, &handshake)?;
    let server_handshake = reader.read_handshake_frame()?;
    let probe = match session_remote_capabilities(&server_handshake.message) {
        None => {
            let probe = probe_outcome(capabilities, &server_handshake.message, &server_handshake.message);
            probe
        },
        Some(_) => {
            let ack = reader.read_handshake_frame()?;
            probe_outcome(capabilities, &server_handshake.message, &ack.message)
        },
    };
    Ok(ProbedConnection { probe, reader, writer, opening: Ghost((1u64, handshake)) })
}

/// Perform the v1-compatible opening handshake without starting a session
/// operation, advertising the browse capabilities.
pub fn probe_session<R: HandshakeReader, W: HandshakeWriter>(
    reader: R,
    writer: W,
    job_id: [u8; 16],
) -> (r: Result<ProbedConnection<R, W>, ServerError>)
    ensures
        r matches Ok(c) ==> c.opening() == (1u64, probe_handshake(BROWSE_PROBE_CAPABILITIES, job_id)),
        r matches Ok(c) ==> exists|h: Message, a: Message|
            probe_matches(c.probe, BROWSE_PROBE_CAPABILITIES, h, a),
{
    probe_with_capabilities(reader, writer, job_id, BROWSE_PROBE_CAPABILITIES)
}

/// Perform the opening handshake advertising the v3 filesystem grammar as well.
pub fn probe_fs_session<R: HandshakeReader, W: HandshakeWriter>(
    reader: R,
    writer: W,
    job_id: [u8; 16],
) -> (r: Result<ProbedConnection<R, W>, ServerError>)
    ensures
        r matches Ok(c) ==> c.opening() == (1u64, probe_handshake(FS_PROBE_CAPABILITIES, job_id)),
        r matches Ok(c) ==> exists|h: Message, a: Message|
            probe_matches(c.probe, FS_PROBE_CAPABILITIES, h, a),
{
    probe_with_capabilities(reader, writer, job_id, FS_PROBE_CAPABILITIES)
}

/// The message a refused session open reports.
pub open spec fn refused_open_text(kind: Seq<char>, status: ProbeStatus) -> Seq<char> {
    "cannot open "@ + kind + " session after probe: "@ + status.spec_debug()
}

impl<R, W> ProbedConnection<R, W> {
    /// Continue directly into a browse session without another connection or
    /// handshake. Refused unless the probe settled on `Ready`.
    pub fn into_browse_session(self) -> (r: Result<BrowseSession<R, W>, ServerError>)
        ensures
            (self.probe.status == ProbeStatus::Ready) <==> r is Ok,
            r matches Ok(s) ==> s.next_id() == 2 && s.remote_caps() == self.probe.remote_capabilities
                && s.common_caps() == self.probe.common_capabilities && s.opening() == self.opening()
                && s.sent().len() == 0 && s.heard().len() == 0,
            r matches Err(e) ==> e matches ServerError::UnexpectedMessage(m) && m@
                == refused_open_text("browse"@, self.probe.status),
    {
        if !matches!(self.probe.status, ProbeStatus::Ready) {
            let mut message = String::new();
            push_str(&mut message, "cannot open ");
            push_str(&mut message, "browse");
            push_str(&mut message, " session after probe: ");
            self.probe.status.push_debug(&mut message);
            return Err(ServerError::UnexpectedMessage(message));
        }
        Ok(BrowseSession::open(
            self.reader,
            self.writer,
            self.probe.remote_capabilities,
            self.probe.common_capabilities,
            Ghost(self.opening@),
        ))
    }
}

/// Why a features acknowledgement cannot open a filesystem session, if it
/// cannot: it is not a `FeaturesAck`, or it grants a feature that was not
/// requested. `None` means the acknowledged set is usable.
pub open spec fn spec_features_refusal(requested: u64, reply: V3Message) -> Option<Seq<char>> {
    match reply {
        V3Message::FeaturesAck { features } => if features & !requested != 0 {
            Some("server granted v3 features 0x"@ + hexadecimal(features as nat)
                + " the client did not request"@)
        } else {
            None
        },
        _ => Some("expected FeaturesAck, got "@ + reply.spec_name()),
    }
}

/// Check the peer's answer to a features request.
pub fn features_reply(requested: u64, reply: &V3Message) -> (r: Result<u64, ServerError>)
    ensures
        spec_features_refusal(requested, *reply) is None <==> r is Ok,
        r matches Ok(f) ==> *reply == (V3Message::FeaturesAck { features: f }) && f & !requested
            == 0,
        r matches Err(e) ==> e matches ServerError::UnexpectedMessage(m) && Some(m@)
            == spec_features_refusal(requested, *reply),
{
    match reply {
        V3Message::FeaturesAck { features } => {
            if *features & !requested != 0 {
                let mut m = String::new();
                push_str(&mut m, "server granted v3 features 0x");
                push_hex(&mut m, *features);
                push_str(&mut m, " the client did not request");
                Err(ServerError::UnexpectedMessage(m))
            } else {
                Ok(*features)
            }
        },
        _ => {
            let mut m = String::new();
            push_str(&mut m, "expected FeaturesAck, got ");
            push_str(&mut m, reply.name());
            Err(ServerError::UnexpectedMessage(m))
        },
    }
}

impl<R: FsReader, W: FsWriter> ProbedConnection<R, W> {
    /// Continue into a v3 filesystem session, performing the `Features`
    /// exchange first. Refused without any exchange unless the probe settled
    /// on `ReadyV3`; the session keeps the acknowledged feature set, which
    /// never exceeds `requested_features`.
    pub fn into_fs_session(self, requested_features: u64) -> (r: Result<FsSession<R, W>, ServerError>)
        ensures
            self.probe.status != ProbeStatus::ReadyV3 ==> (r matches Err(
                ServerError::UnexpectedMessage(m),
            ) && m@ == refused_open_text("filesystem"@, self.probe.status)),
            r matches Ok(s) ==> {
                &&& self.probe.status == ProbeStatus::ReadyV3
                &&& s.next_id() == 3
                &&& s.remote_caps() == self.probe.remote_capabilities
                &&& s.common_caps() == self.probe.common_capabilities
                &&& s.features() & !requested_features == 0
                &&& s.opening() == self.opening()
                &&& s.sent() == seq![(2u64, V3Message::Features { features: requested_features })]
                &&& s.heard().len() == 1
                &&& s.heard()[0] matches Some(f) && f.message == (V3Message::FeaturesAck { features: s.features() })
            },
    {
        if !matches!(self.probe.status, ProbeStatus::ReadyV3) {
            let mut message = String::new();
            push_str(&mut message, "cannot open ");
            push_str(&mut message, "filesystem");
            push_str(&mut message, " session after probe: ");
            self.probe.status.push_debug(&mut message);
            return Err(ServerError::UnexpectedMessage(message));
        }
        let mut reader = self.reader;
        let mut writer = self.writer;
        let request = V3Message::Features { features: requested_features };
        let ghost sent = seq![(2u64, request)];
        writer.write_fs_frame(2, &request)?;
        let frame = match reader.read_fs_frame()? {
            Some(frame) => frame,
            None => return Err(ServerError::PeerDisconnected),
        };
        let ghost heard = seq![Some(frame)];
        let features = features_reply(requested_features, &frame.message)?;
        Ok(FsSession::open(
            reader,
            writer,
            self.probe.remote_capabilities,
            self.probe.common_capabilities,
            features,
            Ghost(self.opening@),
            Ghost(sent),
            Ghost(heard),
        ))
    }
}

} // verus!
