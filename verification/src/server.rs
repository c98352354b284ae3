//! A server's configuration and the per-connection state its sessions share.

use vstd::prelude::*;
use crate::destination::{redirected, slash_count, validate_unique_destination_path, SeenPaths};
use crate::error::ServerError;
use crate::wire_path::{valid_wire_path, WirePath};
use crate::fs_server::{DEFAULT_FS_MAX_HANDLES, DEFAULT_FS_MAX_IN_FLIGHT, DEFAULT_FS_WORKERS};
use crate::protocol::{
    negotiate_protocol_version, spec_negotiated_version, CompressionMode, Frame, Message, Role,
    CAP_BROWSE_META, CAP_BROWSE_V2, CAP_DATA_ONLY, CAP_FILTER_RULES, CAP_FS_V3, CAP_UNIX_MODES,
    CAP_VERSION_NEGOTIATION, CAP_ZSTD, DEFAULT_UNACKNOWLEDGED_WINDOW, MAX_COMPLETE_PAYLOAD,
    MAX_DATA_SEGMENT,
};
use crate::filter::FilterSet;
use crate::text::push_str;
use crate::transfer::{filter_from_wire, wire_filter};

verus! {

/// The capabilities a server advertises by default: Unix modes only where
/// the platform has them.
pub open spec fn default_capabilities(unix_modes: bool) -> u32 {
    CAP_ZSTD | CAP_VERSION_NEGOTIATION | CAP_FILTER_RULES | CAP_BROWSE_META | CAP_FS_V3 | (if unix_modes {
        CAP_UNIX_MODES
    } else {
        0u32
    })
}

/// The compression a session uses: zstd when the client asks for it and
/// both ends advertise it, none otherwise.
pub fn negotiate_compression(requested: CompressionMode, local: u32, remote: u32) -> (r: CompressionMode)
    ensures
        r == (if requested == CompressionMode::Zstd && local & CAP_ZSTD != 0 && remote & CAP_ZSTD != 0 {
            CompressionMode::Zstd
        } else {
            CompressionMode::Uncompressed
        }),
{
    if requested == CompressionMode::Zstd && local & CAP_ZSTD != 0 && remote & CAP_ZSTD != 0 {
        CompressionMode::Zstd
    } else {
        CompressionMode::Uncompressed
    }
}

/// What the server runs after the opening handshake.
#[derive(Debug, Clone, Copy, PartialEq, Eq, Structural)]
pub enum SessionKind {
    /// A v3 filesystem session.
    Filesystem,
    /// A v2 browse session.
    Browse,
    /// The receiving end of a sync.
    Sink,
    /// The sending end of a sync.
    Source,
}

/// The server's answer to a client's opening handshake.
#[derive(Debug)]
pub struct HandshakeAnswer {
    /// The server's handshake and the number it goes out under.
    pub handshake: (u64, Message),
    /// The acknowledgement of the client's handshake and its number.
    pub ack: (u64, Message),
    /// The session that follows.
    pub kind: SessionKind,
    /// The compression the session uses.
    pub compression: CompressionMode,
    /// The compression level the client asked for.
    pub compression_level: i32,
}

/// The capabilities a server advertises to a client of `role`: a session
/// client always learns that browse v2 and version negotiation are offered.
pub open spec fn advertised_for(capabilities: u32, role: Role) -> u32 {
    if role == Role::Session {
        capabilities | CAP_BROWSE_V2 | CAP_VERSION_NEGOTIATION
    } else {
        capabilities
    }
}

/// The role the server takes opposite a client's.
pub open spec fn opposite_role(role: Role) -> Role {
    match role {
        Role::Source => Role::Sink,
        Role::Sink => Role::Source,
        Role::Session => Role::Session,
    }
}

/// A server instance: its root, what it advertises, the bounds of its
/// filesystem sessions, and the destinations its mutation sessions claimed.
pub struct Server {
    root: std::path::PathBuf,
    next_message_id: u64,
    seen_destinations: SeenPaths,
    capabilities: u32,
    fs_features: u64,
    fs_max_in_flight: usize,
    fs_workers: usize,
    fs_read_only: bool,
    fs_max_handles: usize,
}

impl Server {
    pub closed spec fn spec_capabilities(&self) -> u32 {
        self.capabilities
    }

    pub closed spec fn spec_fs_features(&self) -> u64 {
        self.fs_features
    }

    pub closed spec fn spec_fs_max_in_flight(&self) -> usize {
        self.fs_max_in_flight
    }

    pub closed spec fn spec_fs_workers(&self) -> usize {
        self.fs_workers
    }

    pub closed spec fn spec_fs_read_only(&self) -> bool {
        self.fs_read_only
    }

    pub closed spec fn spec_fs_max_handles(&self) -> usize {
        self.fs_max_handles
    }

    pub closed spec fn spec_next_id(&self) -> u64 {
        self.next_message_id
    }

    pub closed spec fn spec_root(&self) -> std::path::PathBuf {
        self.root
    }

    /// The server's invariant: its record of claimed destinations is sound
    /// and its session bounds are positive.
    pub closed spec fn wf(&self) -> bool {
        &&& self.seen_destinations.wf()
        &&& self.fs_max_in_flight > 0
        &&& self.fs_workers > 0
        &&& self.fs_max_handles > 0
    }

    /// A server rooted at `root` with the default capabilities, offering no
    /// optional filesystem feature and the default session bounds.
    pub fn new(root: std::path::PathBuf, unix_modes: bool) -> (r: Server)
        ensures
            r.wf(),
            r.spec_capabilities() == default_capabilities(unix_modes),
            r.spec_fs_features() == 0,
            r.spec_fs_max_in_flight() == DEFAULT_FS_MAX_IN_FLIGHT,
            r.spec_fs_workers() == DEFAULT_FS_WORKERS,
            !r.spec_fs_read_only(),
            r.spec_fs_max_handles() == DEFAULT_FS_MAX_HANDLES,
            r.spec_next_id() == 1000,
            r.spec_root() == root,
            r.seen()@ == Set::<Seq<u8>>::empty(),
    {
        let unix = if unix_modes { CAP_UNIX_MODES } else { 0u32 };
        Server {
            root,
            next_message_id: 1000,
            seen_destinations: SeenPaths::new(),
            capabilities: CAP_ZSTD | CAP_VERSION_NEGOTIATION | CAP_FILTER_RULES | CAP_BROWSE_META
                | CAP_FS_V3 | unix,
            fs_features: 0,
            fs_max_in_flight: DEFAULT_FS_MAX_IN_FLIGHT,
            fs_workers: DEFAULT_FS_WORKERS,
            fs_read_only: false,
            fs_max_handles: DEFAULT_FS_MAX_HANDLES,
        }
    }

    /// A server advertising exactly `capabilities`.
    pub fn new_with_capabilities(root: std::path::PathBuf, capabilities: u32) -> (r: Server)
        ensures
            r.wf(),
            r.spec_capabilities() == capabilities,
            r.spec_fs_features() == 0,
            !r.spec_fs_read_only(),
            r.spec_fs_max_handles() == DEFAULT_FS_MAX_HANDLES,
            r.spec_next_id() == 1000,
    {
        let mut server = Server::new(root, false);
        server.capabilities = capabilities;
        server
    }

    /// Serve the export read-only.
    pub fn read_only(self, read_only: bool) -> (r: Server)
        requires
            self.wf(),
        ensures
            r.wf(),
            r.spec_root() == self.spec_root(),
            r.spec_next_id() == self.spec_next_id(),
            r.seen() == self.seen(),
            r.spec_fs_read_only() == read_only,
            r.spec_capabilities() == self.spec_capabilities(),
            r.spec_fs_features() == self.spec_fs_features(),
            r.spec_fs_max_handles() == self.spec_fs_max_handles(),
            r.spec_fs_max_in_flight() == self.spec_fs_max_in_flight(),
            r.spec_fs_workers() == self.spec_fs_workers(),
    {
        let mut server = self;
        server.fs_read_only = read_only;
        server
    }

    /// Bound one filesystem session's concurrency: requests accepted but not
    /// yet answered, and the workers executing them. Neither may be zero,
    /// which would deadlock the session.
    pub fn with_fs_limits(self, max_in_flight: usize, workers: usize) -> (r: Server)
        requires
            self.wf(),
            max_in_flight > 0,
            workers > 0,
        ensures
            r.wf(),
            r.spec_root() == self.spec_root(),
            r.spec_next_id() == self.spec_next_id(),
            r.seen() == self.seen(),
            r.spec_fs_max_in_flight() == max_in_flight,
            r.spec_fs_workers() == workers,
            r.spec_fs_read_only() == self.spec_fs_read_only(),
            r.spec_capabilities() == self.spec_capabilities(),
            r.spec_fs_features() == self.spec_fs_features(),
            r.spec_fs_max_handles() == self.spec_fs_max_handles(),
    {
        let mut server = self;
        server.fs_max_in_flight = max_in_flight;
        server.fs_workers = workers;
        server
    }

    /// Bound the handles one filesystem session may hold; zero would make
    /// every open fail.
    pub fn with_fs_max_handles(self, max_handles: usize) -> (r: Server)
        requires
            self.wf(),
            max_handles > 0,
        ensures
            r.wf(),
            r.spec_root() == self.spec_root(),
            r.spec_next_id() == self.spec_next_id(),
            r.seen() == self.seen(),
            r.spec_fs_max_handles() == max_handles,
            r.spec_fs_read_only() == self.spec_fs_read_only(),
            r.spec_capabilities() == self.spec_capabilities(),
            r.spec_fs_features() == self.spec_fs_features(),
            r.spec_fs_max_in_flight() == self.spec_fs_max_in_flight(),
            r.spec_fs_workers() == self.spec_fs_workers(),
    {
        let mut server = self;
        server.fs_max_handles = max_handles;
        server
    }

    /// Advertise an optional filesystem-feature set; the negotiated set is
    /// its intersection with the client's.
    pub fn with_fs_features(self, features: u64) -> (r: Server)
        requires
            self.wf(),
        ensures
            r.wf(),
            r.spec_root() == self.spec_root(),
            r.spec_next_id() == self.spec_next_id(),
            r.seen() == self.seen(),
            r.spec_fs_features() == features,
            r.spec_fs_read_only() == self.spec_fs_read_only(),
            r.spec_capabilities() == self.spec_capabilities(),
            r.spec_fs_max_handles() == self.spec_fs_max_handles(),
            r.spec_fs_max_in_flight() == self.spec_fs_max_in_flight(),
            r.spec_fs_workers() == self.spec_fs_workers(),
    {
        let mut server = self;
        server.fs_features = features;
        server
    }

    /// The message number of the next frame this server sends; numbers
    /// count up and stop at the largest.
    pub fn next_id(&mut self) -> (r: u64)
        ensures
            r == old(self).spec_next_id(),
            final(self).spec_next_id() == (if r == u64::MAX { r } else { (r + 1) as u64 }),
            final(self).spec_capabilities() == old(self).spec_capabilities(),
            final(self).wf() == old(self).wf(),
            final(self).seen() == old(self).seen(),
    {
        let id = self.next_message_id;
        self.next_message_id = self.next_message_id.saturating_add(1);
        id
    }

    /// The root the server serves.
    pub fn root(&self) -> (r: &std::path::PathBuf)
        ensures
            *r == self.spec_root(),
    {
        &self.root
    }

    /// The capabilities the server advertises.
    pub fn capabilities(&self) -> (r: u32)
        ensures
            r == self.spec_capabilities(),
    {
        self.capabilities
    }

    /// The optional filesystem features the server offers.
    pub fn fs_features(&self) -> (r: u64)
        ensures
            r == self.spec_fs_features(),
    {
        self.fs_features
    }

    /// Whether the export is served read-only.
    pub fn fs_read_only(&self) -> (r: bool)
        ensures
            r == self.spec_fs_read_only(),
    {
        self.fs_read_only
    }

    /// The bound on open handles per filesystem session.
    pub fn fs_max_handles(&self) -> (r: usize)
        ensures
            r == self.spec_fs_max_handles(),
    {
        self.fs_max_handles
    }

    /// The bound on unanswered filesystem requests and the worker count.
    pub fn fs_limits(&self) -> (r: (usize, usize))
        ensures
            r == (self.spec_fs_max_in_flight(), self.spec_fs_workers()),
    {
        (self.fs_max_in_flight, self.fs_workers)
    }

    /// The destinations this server's mutation sessions claimed.
    pub closed spec fn seen(&self) -> SeenPaths {
        self.seen_destinations
    }

    /// Answers a client's opening handshake: the server's handshake and the
    /// acknowledgement to send, and the session that follows. A session
    /// client commits here to the v3 filesystem grammar when both ends offer
    /// it and to browse v2 otherwise; one that can have neither is refused.
    pub fn answer_handshake(&mut self, frame: &Frame) -> (r: Result<HandshakeAnswer, ServerError>)
        requires
            old(self).wf(),
        ensures
            final(self).wf(),
            final(self).spec_capabilities() == old(self).spec_capabilities(),
            final(self).seen() == old(self).seen(),
            !(frame.message is Handshake) ==> (r matches Err(ServerError::UnexpectedMessage(m))
                && m@ == "expected Handshake, got "@ + frame.message.spec_name()),
            frame.message matches Message::Handshake { role, capabilities, job_id, compression, compression_level, .. } ==> {
                let advertised = advertised_for(old(self).spec_capabilities(), role);
                let version = spec_negotiated_version(advertised, capabilities);
                if role == Role::Session && version < 2 {
                    r matches Err(ServerError::UnexpectedMessage(m))
                        && m@ == "session role requires negotiated protocol v2 or v3"@
                } else {
                    r matches Ok(a) && a.kind == (match role {
                        Role::Session => if version >= 3 { SessionKind::Filesystem } else { SessionKind::Browse },
                        Role::Source => SessionKind::Sink,
                        Role::Sink => SessionKind::Source,
                    }) && a.compression == (if compression == CompressionMode::Zstd && advertised & CAP_ZSTD != 0 && capabilities & CAP_ZSTD != 0 {
                        CompressionMode::Zstd
                    } else {
                        CompressionMode::Uncompressed
                    }) && a.compression_level == compression_level
                    && a.handshake.0 == old(self).spec_next_id()
                    && a.handshake.1 == (Message::Handshake {
                        role: opposite_role(role),
                        capabilities: advertised,
                        max_payload: MAX_COMPLETE_PAYLOAD,
                        max_segment: MAX_DATA_SEGMENT,
                        window: DEFAULT_UNACKNOWLEDGED_WINDOW,
                        job_id,
                        compression: a.compression,
                        compression_level,
                    })
                    && a.ack.1 == (Message::Ack { acknowledged_id: frame.message_id, acknowledged_type: 1 })
                }
            },
    {
        match &frame.message {
            Message::Handshake { role, capabilities, job_id, compression, compression_level, .. } => {
                let advertised = if *role == Role::Session {
                    self.capabilities | CAP_BROWSE_V2 | CAP_VERSION_NEGOTIATION
                } else {
                    self.capabilities
                };
                let chosen = negotiate_compression(*compression, advertised, *capabilities);
                let version = negotiate_protocol_version(advertised, *capabilities);
                if *role == Role::Session && version < 2 {
                    let mut m = String::new();
                    push_str(&mut m, "session role requires negotiated protocol v2 or v3");
                    return Err(ServerError::UnexpectedMessage(m));
                }
                let (server_role, kind) = match role {
                    Role::Source => (Role::Sink, SessionKind::Sink),
                    Role::Sink => (Role::Source, SessionKind::Source),
                    Role::Session => (Role::Session, if version >= 3 { SessionKind::Filesystem } else { SessionKind::Browse }),
                };
                let handshake = Message::Handshake {
                    role: server_role,
                    capabilities: advertised,
                    max_payload: MAX_COMPLETE_PAYLOAD,
                    max_segment: MAX_DATA_SEGMENT,
                    window: DEFAULT_UNACKNOWLEDGED_WINDOW,
                    job_id: *job_id,
                    compression: chosen,
                    compression_level: *compression_level,
                };
                let first = self.next_id();
                let second = self.next_id();
                Ok(HandshakeAnswer {
                    handshake: (first, handshake),
                    ack: (second, Message::Ack { acknowledged_id: frame.message_id, acknowledged_type: 1 }),
                    kind,
                    compression: chosen,
                    compression_level: *compression_level,
                })
            },
            other => {
                let mut m = String::new();
                push_str(&mut m, "expected Handshake, got ");
                push_str(&mut m, other.name());
                Err(ServerError::UnexpectedMessage(m))
            },
        }
    }

    /// Validates the destination of one mutation and claims it for this
    /// server (see [`validate_unique_destination_path`]).
    pub fn claim_destination(&mut self, path: &WirePath, symlinked: &[bool]) -> (r: Result<(), ServerError>)
        requires
            old(self).wf(),
        ensures
            final(self).wf(),
            r is Ok ==> final(self).seen()@ == old(self).seen()@.insert(path@),
            r is Err ==> final(self).seen()@ == old(self).seen()@,
            r is Ok <==> valid_wire_path(path@) && path@.len() > 0 && !redirected(
                slash_count(path@) + 1,
                symlinked@,
            ) && !old(self).seen()@.contains(path@),
            final(self).spec_capabilities() == old(self).spec_capabilities(),
            final(self).spec_next_id() == old(self).spec_next_id(),
    {
        validate_unique_destination_path(path, symlinked, &mut self.seen_destinations)
    }
}

/// How a sync session runs, as its client configured it.
pub struct SyncSettings {
    /// Read every published file back and compare digests.
    pub paranoid: bool,
    /// Delete what the sender asks to delete.
    pub delete: bool,
    /// Compare contents rather than sizes and times.
    pub checksum: bool,
    /// Only report, change nothing.
    pub dry_run: bool,
    /// The filter both ends apply to their scans.
    pub filter: FilterSet,
}

/// The sync session a server runs once its configuration is accepted.
pub enum SyncRoute {
    /// Write only the file data of a transfer another session controls.
    DataSink,
    /// Receive the transfer.
    Sink(SyncSettings),
    /// Send the transfer, comparing contents when `checksum` is set.
    Source { checksum: bool },
}

/// Accepts the session configuration that follows a sync client's
/// handshake, given the session the handshake settled on: it must come
/// next, and its filter must be readable. The answer is its acknowledgement
/// and the session to run: a receiving one only writes file data when the
/// client announced [`CAP_DATA_ONLY`].
pub fn accept_session_config(kind: SessionKind, client_capabilities: u32, frame: Frame) -> (r: Result<
    (SyncRoute, Message),
    ServerError,
>)
    requires
        kind == SessionKind::Sink || kind == SessionKind::Source,
    ensures
        !(frame.message is SessionConfig) ==> (r matches Err(ServerError::UnexpectedMessage(m))
            && m@ == "expected SessionConfig, got "@ + frame.message.spec_name()),
        frame.message matches Message::SessionConfig {
            paranoid,
            delete,
            checksum,
            dry_run,
            exclude_patterns,
            filter_rules,
            ..
        } ==> {
            let filter = wire_filter(
                exclude_patterns@.map_values(|l: Vec<u8>| l@),
                filter_rules@.map_values(|l: Vec<u8>| l@),
            );
            if filter is None {
                r matches Err(e) && e is FilterUnrepresentable
            } else {
                &&& r matches Ok((route, ack))
                &&& ack == (Message::Ack { acknowledged_id: frame.message_id, acknowledged_type: 2 })
                &&& if kind == SessionKind::Source {
                    route == (SyncRoute::Source { checksum })
                } else if client_capabilities & CAP_DATA_ONLY != 0 {
                    route is DataSink
                } else {
                    route matches SyncRoute::Sink(settings) && settings.paranoid == paranoid
                        && settings.delete == delete && settings.checksum == checksum
                        && settings.dry_run == dry_run && settings.filter@ == filter->Some_0
                }
            }
        },
{
    match frame.message {
        Message::SessionConfig {
            paranoid,
            delete,
            checksum,
            dry_run,
            exclude_patterns,
            filter_rules,
            ..
        } => {
            let filter = filter_from_wire(exclude_patterns.as_slice(), filter_rules.as_slice())?;
            let ack = Message::Ack { acknowledged_id: frame.message_id, acknowledged_type: 2 };
            let route = if kind == SessionKind::Source {
                SyncRoute::Source { checksum }
            } else if client_capabilities & CAP_DATA_ONLY != 0 {
                SyncRoute::DataSink
            } else {
                SyncRoute::Sink(SyncSettings { paranoid, delete, checksum, dry_run, filter })
            };
            Ok((route, ack))
        },
        other => {
            let mut m = String::new();
            push_str(&mut m, "expected SessionConfig, got ");
            push_str(&mut m, other.name());
            proof {
                reveal_strlit("expected SessionConfig, got ");
            }
            Err(ServerError::UnexpectedMessage(m))
        },
    }
}

} // verus!
