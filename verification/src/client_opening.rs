//! The client end of a single-stream push or pull, from its handshake
//! through the remote side's scan.
//!
//! The client opens as the source of a push or the sink of a pull, reads
//! the server's handshake and its acknowledgement, sends the session
//! settings with the filter in the form the server understands, and then
//! takes the remote side's scan pages, acknowledging each, keeping what the
//! client's own filter includes. When the last page is in, the scan is
//! handed to the planner. This module decides every frame and judges every
//! answer; the embedding program moves the frames.

use vstd::prelude::*;
use crate::client_session::{expect_ack_for, page_taken, server_handshake, ScanIntake, ACK_SCAN};
use crate::data_session::id_after;
use crate::error::ServerError;
use crate::filter::FilterSet;
use crate::protocol::{
    CompressionMode, Message, Role, CAP_FILTER_RULES, CAP_UNIX_MODES, CAP_VERSION_NEGOTIATION, CAP_ZSTD,
    DEFAULT_UNACKNOWLEDGED_WINDOW, MAX_COMPLETE_PAYLOAD, MAX_DATA_SEGMENT,
};
use crate::scan::FileEntry;
use crate::sink_session::is_unexpected;
use crate::text::push_str;
use crate::transfer::{filter_for_peer, local_filter, own_filter, peer_filter, LocalSyncOptions, WireFilter};

verus! {

/// The per-run choices of a push or pull that its opening carries.
#[derive(Debug, Clone, Copy)]
pub struct OpeningSettings {
    /// The job's identifier.
    pub job_id: [u8; 16],
    /// Whether to ask for compressed data.
    pub compress: bool,
    /// The compression level to ask for.
    pub compression_level: i32,
    /// Whether this end keeps Unix permission bits.
    pub unix_modes: bool,
    /// Whether the receiving side deletes what the source lacks.
    pub delete: bool,
    /// Whether files are compared by content.
    pub checksum: bool,
    /// Whether written files are read back and checked.
    pub paranoid: bool,
    /// Whether nothing is changed, only reported.
    pub dry_run: bool,
}

/// The capabilities a push or pull advertises.
pub open spec fn client_capabilities(unix_modes: bool) -> u32 {
    CAP_ZSTD | CAP_VERSION_NEGOTIATION | CAP_FILTER_RULES | (if unix_modes {
        CAP_UNIX_MODES
    } else {
        0
    })
}

/// The handshake a push (the client as the source) or a pull (the client as
/// the sink) opens with.
pub open spec fn opening_handshake(settings: OpeningSettings, role: Role) -> Message {
    Message::Handshake {
        role,
        capabilities: client_capabilities(settings.unix_modes),
        max_payload: MAX_COMPLETE_PAYLOAD,
        max_segment: MAX_DATA_SEGMENT,
        window: DEFAULT_UNACKNOWLEDGED_WINDOW,
        job_id: settings.job_id,
        compression: if settings.compress {
            CompressionMode::Zstd
        } else {
            CompressionMode::Uncompressed
        },
        compression_level: settings.compression_level,
    }
}

/// The stream count a session asks for: the option, or one when it does
/// not fit in a byte.
pub open spec fn wire_streams(streams: usize) -> u8 {
    if streams <= 255 {
        streams as u8
    } else {
        1
    }
}

/// The settings a push or pull sends, with the filter in the given wire form.
pub open spec fn opening_config(settings: OpeningSettings, streams: usize, wire: WireFilter) -> Message {
    Message::SessionConfig {
        streams: wire_streams(streams),
        batch_bytes: 33554432u64,
        chunk_bytes: 16777216u64,
        window: DEFAULT_UNACKNOWLEDGED_WINDOW,
        delete: settings.delete,
        checksum: settings.checksum,
        paranoid: settings.paranoid,
        dry_run: settings.dry_run,
        exclude_patterns: wire.exclude_patterns,
        filter_rules: wire.rules,
    }
}

/// A push or pull opens in the role it was given, asking for compressed data
/// at the chosen level exactly when compression was asked for, under the
/// job's identifier, with the protocol's payload, segment and window limits.
pub proof fn lemma_opening_handshake_says_what_was_asked(settings: OpeningSettings, role: Role)
    ensures
        opening_handshake(settings, role) matches Message::Handshake {
            role: r,
            max_payload,
            max_segment,
            window,
            job_id,
            compression,
            compression_level,
            ..
        } && r == role && job_id == settings.job_id && compression_level == settings.compression_level
            && (compression == CompressionMode::Zstd <==> settings.compress) && (compression
            == CompressionMode::Uncompressed <==> !settings.compress) && max_payload == MAX_COMPLETE_PAYLOAD
            && max_segment == MAX_DATA_SEGMENT && window == DEFAULT_UNACKNOWLEDGED_WINDOW,
{
}

/// The settings a push or pull opens with reach the server unchanged: the
/// session configuration carries each of the client's choices in its own
/// field, and the filter in the form chosen for the peer.
pub proof fn lemma_opening_config_carries_the_settings(settings: OpeningSettings, streams: usize, wire: WireFilter)
    ensures
        opening_config(settings, streams, wire) matches Message::SessionConfig {
            delete,
            checksum,
            paranoid,
            dry_run,
            exclude_patterns,
            filter_rules,
            ..
        } && delete == settings.delete && checksum == settings.checksum && paranoid == settings.paranoid
            && dry_run == settings.dry_run && exclude_patterns == wire.exclude_patterns && filter_rules
            == wire.rules,
        opening_config(settings, streams, wire) matches Message::SessionConfig { streams: n, .. } && (if streams
            <= 255 {
            n as usize == streams
        } else {
            n == 1
        }),
{
}

/// The acknowledgement of scan page `message_id`.
pub open spec fn scan_ack(message_id: u64) -> Message {
    Message::Ack { acknowledged_id: message_id, acknowledged_type: ACK_SCAN }
}

/// Where a push or pull stands.
#[derive(Debug, Clone, Copy, PartialEq, Eq, Structural)]
pub enum OpeningPhase {
    /// Nothing sent yet.
    Opening,
    /// The handshake was sent; the server's is awaited.
    AwaitHandshake,
    /// The server's handshake arrived; its acknowledgement is awaited.
    AwaitHandshakeAck,
    /// The settings were sent; their acknowledgement is awaited.
    AwaitConfigAck,
    /// The remote side's scan pages are being taken.
    Scan,
    /// The scan was handed to the planner.
    Planning,
    /// The session failed.
    Failed,
}

/// What the embedding program hands the session.
pub enum OpeningEvent {
    /// Begin the session.
    Start,
    /// The next frame the server sent.
    Received { message_id: u64, message: Message },
}

/// What the session asks the embedding program to do next.
pub enum OpeningAction {
    /// Write this frame, then hand back the server's next frame.
    Send { id: u64, message: Message },
    /// Hand back the server's next frame.
    Receive,
    /// Write the acknowledgement of the last scan page, then plan the
    /// transfer against the remote side's scan: its entries the client's
    /// filter keeps, and the mode and time of its root when the scan named
    /// it.
    Plan { ack_id: u64, ack: Message, entries: Vec<FileEntry>, root: Option<(u32, i64)> },
    /// End the session with this error.
    Fail(ServerError),
}

/// What the session does with the server's answer to its handshake.
pub open spec fn handshake_ack_step(before: ClientOpening, after: ClientOpening, message: Message, r: OpeningAction) -> bool {
    if message is Ack {
        let caps = before.remote_caps();
        &&& r is Send || r is Fail
        &&& r matches OpeningAction::Send { id, message: config } ==> {
            &&& id == before.next_id()
            &&& exists|wire: WireFilter| #[trigger] peer_filter(before.options(), caps, Ok(wire))
                && config == opening_config(before.settings(), before.options().streams, wire)
            &&& own_filter(before.options(), Ok(after.active()))
            &&& after.phase() == OpeningPhase::AwaitConfigAck
            &&& after.next_id() == id_after(before.next_id())
        }
        &&& r matches OpeningAction::Fail(e) ==> peer_filter(before.options(), caps, Err(e))
            || own_filter(before.options(), Err(e))
    } else {
        r matches OpeningAction::Fail(e) && is_unexpected(
            e,
            "expected Ack for Handshake, got "@ + message.spec_name(),
        )
    }
}

/// What the session does with one answer during the remote side's scan.
pub open spec fn scan_step(before: ClientOpening, after: ClientOpening, message_id: u64, message: Message, r: OpeningAction) -> bool {
    {
        let rules = before.active()@;
        &&& r is Send || r is Plan || r is Fail
        &&& r matches OpeningAction::Fail(e) ==> page_taken(
            before.intake(),
            after.intake(),
            message,
            rules,
            Err(e),
        )
        &&& r matches OpeningAction::Send { id, message: ack } ==> {
            &&& page_taken(before.intake(), after.intake(), message, rules, Ok(false))
            &&& id == before.next_id() && ack == scan_ack(message_id)
            &&& after.phase() == OpeningPhase::Scan
            &&& after.next_id() == id_after(before.next_id())
        }
        &&& r matches OpeningAction::Plan { ack_id, ack, entries, root } ==> {
            &&& exists|after: ScanIntake| #[trigger] page_taken(before.intake(), after, message, rules, Ok(true))
                && entries@ == after.spec_entries() && root == after.spec_root()
            &&& ack_id == before.next_id() && ack == scan_ack(message_id)
            &&& after.phase() == OpeningPhase::Planning
            &&& after.next_id() == id_after(before.next_id())
        }
    }
}

/// The client end of a push or pull, up to planning.
pub struct ClientOpening {
    role: Role,
    settings: OpeningSettings,
    options: LocalSyncOptions,
    phase: OpeningPhase,
    next_id: u64,
    compression: CompressionMode,
    remote_capabilities: u32,
    active: FilterSet,
    intake: ScanIntake,
}

fn unexpected(text: &str) -> (e: ServerError)
    ensures
        is_unexpected(e, text@),
{
    let mut m = String::new();
    push_str(&mut m, text);
    assert(m@ =~= text@);
    ServerError::UnexpectedMessage(m)
}

impl ClientOpening {
    /// Where the session stands.
    pub closed spec fn phase(&self) -> OpeningPhase {
        self.phase
    }

    /// The next free message number.
    pub closed spec fn next_id(&self) -> u64 {
        self.next_id
    }

    /// The compression the server chose.
    pub closed spec fn compression(&self) -> CompressionMode {
        self.compression
    }

    /// The capabilities the server advertised.
    pub closed spec fn remote_caps(&self) -> u32 {
        self.remote_capabilities
    }

    /// The push's or pull's settings.
    pub closed spec fn settings(&self) -> OpeningSettings {
        self.settings
    }

    /// The role the client takes: `Source` for a push, `Sink` for a pull.
    pub closed spec fn role(&self) -> Role {
        self.role
    }

    /// The transfer's options.
    pub closed spec fn options(&self) -> LocalSyncOptions {
        self.options
    }

    /// The filter the client applies to the remote side's scan.
    pub closed spec fn active(&self) -> FilterSet {
        self.active
    }

    /// What the session has taken of the remote side's scan.
    pub closed spec fn intake(&self) -> ScanIntake {
        self.intake
    }

    fn open(role: Role, settings: OpeningSettings, options: LocalSyncOptions) -> (r: ClientOpening)
        ensures
            r.role() == role,
            r.phase() == OpeningPhase::Opening,
            r.next_id() == 1,
            r.settings() == settings,
            r.options() == options,
            r.intake().spec_entries().len() == 0,
            r.intake().spec_root() is None,
    {
        ClientOpening {
            role,
            settings,
            options,
            phase: OpeningPhase::Opening,
            next_id: 1,
            compression: CompressionMode::Uncompressed,
            remote_capabilities: 0,
            active: FilterSet::from_rules(Vec::new()),
            intake: ScanIntake::new(),
        }
    }

    /// A push with these settings and options, before its handshake: the
    /// client is the source, and takes the destination's scan.
    pub fn for_push(settings: OpeningSettings, options: LocalSyncOptions) -> (r: ClientOpening)
        ensures
            r.role() == Role::Source,
            r.phase() == OpeningPhase::Opening,
            r.next_id() == 1,
            r.settings() == settings,
            r.options() == options,
            r.intake().spec_entries().len() == 0,
            r.intake().spec_root() is None,
    {
        ClientOpening::open(Role::Source, settings, options)
    }

    /// A pull with these settings and options, before its handshake: the
    /// client is the sink, and takes the source's scan.
    pub fn for_pull(settings: OpeningSettings, options: LocalSyncOptions) -> (r: ClientOpening)
        ensures
            r.role() == Role::Sink,
            r.phase() == OpeningPhase::Opening,
            r.next_id() == 1,
            r.settings() == settings,
            r.options() == options,
            r.intake().spec_entries().len() == 0,
            r.intake().spec_root() is None,
    {
        ClientOpening::open(Role::Sink, settings, options)
    }

    /// The compression the server chose.
    pub fn negotiated_compression(&self) -> (r: CompressionMode)
        ensures
            r == self.compression(),
    {
        self.compression
    }

    /// The capabilities the server advertised.
    pub fn remote_capabilities(&self) -> (r: u32)
        ensures
            r == self.remote_caps(),
    {
        self.remote_capabilities
    }

    /// The next free message number, for the frames that follow planning.
    pub fn next_message_id(&self) -> (r: u64)
        ensures
            r == self.next_id(),
    {
        self.next_id
    }

    fn take_id(&mut self) -> (id: u64)
        ensures
            id == old(self).next_id,
            final(self).next_id == id_after(id),
            final(self).phase == old(self).phase,
            final(self).settings == old(self).settings,
            final(self).role == old(self).role,
            final(self).options == old(self).options,
            final(self).compression == old(self).compression,
            final(self).remote_capabilities == old(self).remote_capabilities,
            final(self).active == old(self).active,
            final(self).intake == old(self).intake,
    {
        let id = self.next_id;
        self.next_id = if id == u64::MAX { id } else { id + 1 };
        id
    }

    fn fail(&mut self, error: ServerError) -> (r: OpeningAction)
        ensures
            r == OpeningAction::Fail(error),
            final(self).phase == OpeningPhase::Failed,
            final(self).next_id == old(self).next_id,
            final(self).settings == old(self).settings,
            final(self).role == old(self).role,
            final(self).options == old(self).options,
            final(self).compression == old(self).compression,
            final(self).remote_capabilities == old(self).remote_capabilities,
            final(self).active == old(self).active,
            final(self).intake == old(self).intake,
    {
        self.phase = OpeningPhase::Failed;
        OpeningAction::Fail(error)
    }

    fn on_handshake_ack(&mut self, message: Message) -> (r: OpeningAction)
        requires
            old(self).phase() == OpeningPhase::AwaitHandshakeAck,
        ensures
            final(self).settings() == old(self).settings(),
            final(self).role() == old(self).role(),
            final(self).options() == old(self).options(),
            r is Fail ==> final(self).phase() == OpeningPhase::Failed,
            handshake_ack_step(*old(self), *final(self), message, r),
    {
        if let Err(e) = expect_ack_for(&message, "Handshake") {
            proof {
                reveal_strlit("Handshake");
                reveal_strlit("expected Ack for ");
                reveal_strlit(", got ");
                reveal_strlit("expected Ack for Handshake, got ");
                assert("expected Ack for "@ + "Handshake"@ + ", got "@ =~= "expected Ack for Handshake, got "@);
            }
            return self.fail(e);
        }
        let wire = match filter_for_peer(&self.options, self.remote_capabilities) {
            Ok(wire) => wire,
            Err(e) => return self.fail(e),
        };
        let active = match local_filter(&self.options) {
            Ok(active) => active,
            Err(e) => return self.fail(e),
        };
        let ghost w = wire;
        assert(peer_filter(self.options, self.remote_capabilities, Ok(w)));
        assert(own_filter(self.options, Ok(active)));
        let id = self.take_id();
        let streams: u8 = if self.options.streams <= 255 { self.options.streams as u8 } else { 1 };
        let config = Message::SessionConfig {
            streams,
            batch_bytes: 32 * 1024 * 1024,
            chunk_bytes: 16 * 1024 * 1024,
            window: DEFAULT_UNACKNOWLEDGED_WINDOW,
            delete: self.settings.delete,
            checksum: self.settings.checksum,
            paranoid: self.settings.paranoid,
            dry_run: self.settings.dry_run,
            exclude_patterns: wire.exclude_patterns,
            filter_rules: wire.rules,
        };
        self.active = active;
        self.phase = OpeningPhase::AwaitConfigAck;
        proof {
            assert(config == opening_config(self.settings, self.options.streams, w));
            assert(peer_filter(old(self).options(), old(self).remote_caps(), Ok(w)) && config == opening_config(
                old(self).settings(),
                old(self).options().streams,
                w,
            ));
            assert(own_filter(old(self).options(), Ok(self.active())));
        }
        OpeningAction::Send { id, message: config }
    }

    fn on_scan_page(&mut self, message_id: u64, message: Message) -> (r: OpeningAction)
        requires
            old(self).phase() == OpeningPhase::Scan,
        ensures
            final(self).settings() == old(self).settings(),
            final(self).role() == old(self).role(),
            final(self).options() == old(self).options(),
            r is Fail ==> final(self).phase() == OpeningPhase::Failed,
            scan_step(*old(self), *final(self), message_id, message, r),
    {
        let ghost before = self.intake;
        let ghost m = message;
        let last = match self.intake.on_page(message, &self.active) {
            Ok(last) => last,
            Err(e) => return self.fail(e),
        };
        let id = self.take_id();
        let ack = Message::Ack { acknowledged_id: message_id, acknowledged_type: ACK_SCAN };
        if !last {
            return OpeningAction::Send { id, message: ack };
        }
        let ghost after = self.intake;
        let mut intake = ScanIntake::new();
        std::mem::swap(&mut intake, &mut self.intake);
        assert(intake == after);
        let root = intake.root();
        assert(root == after.spec_root());
        let destination = intake.into_entries();
        assert(destination@ == after.spec_entries());
        self.phase = OpeningPhase::Planning;
        assert(page_taken(before, after, m, self.active@, Ok(true)));
        assert(page_taken(old(self).intake(), after, m, old(self).active()@, Ok(true)) && destination@
            == after.spec_entries() && root == after.spec_root());
        OpeningAction::Plan { ack_id: id, ack, entries: destination, root }
    }

    /// Decide what follows one event.
    ///
    /// The session sends its handshake; the server's answer must be its
    /// handshake, whose compression and capabilities are kept, then an
    /// acknowledgement. The settings follow, with the filter in the form the
    /// server understands, and must be acknowledged. Each scan page is then
    /// taken through the client's own filter and acknowledged; after the
    /// last, the scan goes to the planner. A wrong answer, a filter
    /// that cannot be sent or applied, or an unsafe scan record ends the session
    /// with its error; so does an event the phase does not expect.
    pub fn on_event(&mut self, event: OpeningEvent) -> (r: OpeningAction)
        ensures
            final(self).settings() == old(self).settings(),
            final(self).role() == old(self).role(),
            final(self).options() == old(self).options(),
            r is Fail ==> final(self).phase() == OpeningPhase::Failed,
            match (old(self).phase(), event) {
                (OpeningPhase::Opening, OpeningEvent::Start) => {
                    &&& r == (OpeningAction::Send {
                        id: old(self).next_id(),
                        message: opening_handshake(old(self).settings(), old(self).role()),
                    })
                    &&& final(self).phase() == OpeningPhase::AwaitHandshake
                    &&& final(self).next_id() == id_after(old(self).next_id())
                },
                (OpeningPhase::AwaitHandshake, OpeningEvent::Received { message, .. }) => match message {
                    Message::Handshake { compression, capabilities, .. } => {
                        &&& r is Receive
                        &&& final(self).phase() == OpeningPhase::AwaitHandshakeAck
                        &&& final(self).compression() == compression
                        &&& final(self).remote_caps() == capabilities
                        &&& final(self).next_id() == old(self).next_id()
                    },
                    _ => r matches OpeningAction::Fail(e) && is_unexpected(
                        e,
                        "expected Server Handshake, got "@ + message.spec_name(),
                    ),
                },
                (OpeningPhase::AwaitHandshakeAck, OpeningEvent::Received { message, .. }) => handshake_ack_step(*old(self), *final(self), message, r),
                (OpeningPhase::AwaitConfigAck, OpeningEvent::Received { message, .. }) => if message is Ack {
                    &&& r is Receive
                    &&& final(self).phase() == OpeningPhase::Scan
                    &&& final(self).next_id() == old(self).next_id()
                } else {
                    r matches OpeningAction::Fail(e) && is_unexpected(
                        e,
                        "expected Ack for SessionConfig, got "@ + message.spec_name(),
                    )
                },
                (OpeningPhase::Scan, OpeningEvent::Received { message_id, message }) => scan_step(*old(self), *final(self), message_id, message, r),
                _ => r matches OpeningAction::Fail(e) && is_unexpected(e, "client session received an event out of order"@),
            },
    {
        match (self.phase, event) {
            (OpeningPhase::Opening, OpeningEvent::Start) => {
                let id = self.take_id();
                let capabilities = CAP_ZSTD | CAP_VERSION_NEGOTIATION | CAP_FILTER_RULES | if self.settings.unix_modes {
                    CAP_UNIX_MODES
                } else {
                    0
                };
                let message = Message::Handshake {
                    role: self.role,
                    capabilities,
                    max_payload: MAX_COMPLETE_PAYLOAD,
                    max_segment: MAX_DATA_SEGMENT,
                    window: DEFAULT_UNACKNOWLEDGED_WINDOW,
                    job_id: self.settings.job_id,
                    compression: if self.settings.compress {
                        CompressionMode::Zstd
                    } else {
                        CompressionMode::Uncompressed
                    },
                    compression_level: self.settings.compression_level,
                };
                self.phase = OpeningPhase::AwaitHandshake;
                OpeningAction::Send { id, message }
            },
            (OpeningPhase::AwaitHandshake, OpeningEvent::Received { message, .. }) => {
                match server_handshake(&message) {
                    Ok((compression, capabilities)) => {
                        self.compression = compression;
                        self.remote_capabilities = capabilities;
                        self.phase = OpeningPhase::AwaitHandshakeAck;
                        OpeningAction::Receive
                    },
                    Err(e) => self.fail(e),
                }
            },
            (OpeningPhase::AwaitHandshakeAck, OpeningEvent::Received { message, .. }) => self.on_handshake_ack(message),
            (OpeningPhase::AwaitConfigAck, OpeningEvent::Received { message, .. }) => {
                if let Err(e) = expect_ack_for(&message, "SessionConfig") {
                    proof {
                        reveal_strlit("SessionConfig");
                        reveal_strlit("expected Ack for ");
                        reveal_strlit(", got ");
                        reveal_strlit("expected Ack for SessionConfig, got ");
                        assert("expected Ack for "@ + "SessionConfig"@ + ", got "@ =~= "expected Ack for SessionConfig, got "@);
                    }
                    return self.fail(e);
                }
                self.phase = OpeningPhase::Scan;
                OpeningAction::Receive
            },
            (OpeningPhase::Scan, OpeningEvent::Received { message_id, message }) => self.on_scan_page(message_id, message),
            _ => self.fail(unexpected("client session received an event out of order")),
        }
    }
}

/// How a push to a server runs: over several data streams with one control
/// session, or as a single session that opens as below.
pub enum PushRoute {
    /// More than one stream was asked for.
    Streams,
    /// One session, as the source, from its handshake on.
    Single(ClientOpening),
}

/// The route a push to a server takes: several streams when more than one
/// is asked for, otherwise a single session in which the client is the
/// source.
pub fn sync_push_server(settings: OpeningSettings, options: LocalSyncOptions) -> (r: PushRoute)
    ensures
        r is Streams <==> options.streams > 1,
        r matches PushRoute::Single(s) ==> {
            &&& s.role() == Role::Source
            &&& s.phase() == OpeningPhase::Opening
            &&& s.next_id() == 1
            &&& s.settings() == settings
            &&& s.options() == options
            &&& s.intake().spec_entries().len() == 0
            &&& s.intake().spec_root() is None
        },
{
    if options.streams > 1 {
        PushRoute::Streams
    } else {
        PushRoute::Single(ClientOpening::for_push(settings, options))
    }
}

/// The session a pull from a server runs: a single one in which the client
/// is the sink, from its handshake on.
pub fn sync_pull_server(settings: OpeningSettings, options: LocalSyncOptions) -> (r: ClientOpening)
    ensures
        r.role() == Role::Sink,
        r.phase() == OpeningPhase::Opening,
        r.next_id() == 1,
        r.settings() == settings,
        r.options() == options,
        r.intake().spec_entries().len() == 0,
        r.intake().spec_root() is None,
{
    ClientOpening::for_pull(settings, options)
}

} // verus!
