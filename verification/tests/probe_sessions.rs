use std::collections::VecDeque;

use xsync_core::browse::BrowseSession;
use xsync_core::error::ServerError;
use xsync_core::fs_client::FsSession;
use xsync_core::probe::{probe_fs_session, probe_session, ProbeStatus};
use xsync_core::protocol::{
    CompressionMode, Frame, Message, Role, V2Frame, V2Message, V3Frame, V3Message,
    CAP_BROWSE_META, CAP_BROWSE_V2, CAP_FS_V3, CAP_VERSION_NEGOTIATION,
    DEFAULT_UNACKNOWLEDGED_WINDOW, MAX_COMPLETE_PAYLOAD, MAX_DATA_SEGMENT,
};
use xsync_core::transport::{
    BrowseReader, BrowseWriter, FsReader, FsWriter, HandshakeReader, HandshakeWriter,
};

const FS_V3_CLIENT: u32 = CAP_BROWSE_V2 | CAP_VERSION_NEGOTIATION | CAP_FS_V3;
const FS_LOCKS: u64 = 0x1;
const FS_NOTIFY: u64 = 0x2;

/// A peer whose answers are written down in advance.
#[derive(Default)]
struct ScriptedPeer {
    handshake: VecDeque<Frame>,
    browse: VecDeque<V2Frame>,
    fs: VecDeque<V3Frame>,
}

impl HandshakeReader for ScriptedPeer {
    fn read_handshake_frame(&mut self) -> Result<Frame, ServerError> {
        self.handshake
            .pop_front()
            .ok_or(ServerError::Protocol("unexpected end of stream".to_owned()))
    }
}

impl BrowseReader for ScriptedPeer {
    fn read_browse_frame(&mut self) -> Result<Option<V2Frame>, ServerError> {
        Ok(self.browse.pop_front())
    }
}

impl FsReader for ScriptedPeer {
    fn read_fs_frame(&mut self) -> Result<Option<V3Frame>, ServerError> {
        Ok(self.fs.pop_front())
    }
}

/// Everything the client wrote.
#[derive(Default)]
struct Recorder {
    handshake: Vec<(u64, Message)>,
    browse: Vec<(u64, V2Message)>,
    fs: Vec<(u64, V3Message)>,
}

impl HandshakeWriter for Recorder {
    fn write_handshake_frame(&mut self, id: u64, message: &Message) -> Result<(), ServerError> {
        self.handshake.push((id, message.clone()));
        Ok(())
    }
}

impl BrowseWriter for Recorder {
    fn write_browse_frame(&mut self, id: u64, message: &V2Message) -> Result<(), ServerError> {
        self.browse.push((id, message.clone()));
        Ok(())
    }
}

impl FsWriter for Recorder {
    fn write_fs_frame(&mut self, id: u64, message: &V3Message) -> Result<(), ServerError> {
        self.fs.push((id, message.clone()));
        Ok(())
    }
}

fn handshake(capabilities: u32) -> Message {
    Message::Handshake {
        role: Role::Session,
        capabilities,
        max_payload: MAX_COMPLETE_PAYLOAD,
        max_segment: MAX_DATA_SEGMENT,
        window: DEFAULT_UNACKNOWLEDGED_WINDOW,
        job_id: [14; 16],
        compression: CompressionMode::Uncompressed,
        compression_level: 3,
    }
}

fn peer(capabilities: u32, granted: Option<u64>) -> ScriptedPeer {
    let mut peer = ScriptedPeer::default();
    peer.handshake.push_back(Frame { message_id: 100, message: handshake(capabilities) });
    peer.handshake.push_back(Frame {
        message_id: 101,
        message: Message::Ack { acknowledged_id: 1, acknowledged_type: 1 },
    });
    if let Some(features) = granted {
        peer.fs.push_back(V3Frame { message_id: 102, message: V3Message::FeaturesAck { features } });
    }
    peer
}

#[test]
fn probe_reports_ready_and_older_peers_without_reconnecting() {
    let ready = probe_session(
        peer(CAP_BROWSE_V2 | CAP_VERSION_NEGOTIATION, None),
        Recorder::default(),
        [15; 16],
    )
    .unwrap();
    assert_eq!(ready.probe.status, ProbeStatus::Ready);
    assert_eq!(ready.probe.selected_version, 2);
    assert_eq!(ready.probe.status.action(), "open the browse session");
    assert!(ready.into_browse_session().is_ok());

    let older = probe_session(peer(CAP_VERSION_NEGOTIATION, None), Recorder::default(), [16; 16])
        .unwrap();
    assert_eq!(older.probe.status, ProbeStatus::OlderPeer { selected_version: 1 });
    assert_eq!(
        older.probe.status.action(),
        "upgrade the remote xsync binary before browsing"
    );
    assert!(older.into_browse_session().is_err());
}

#[test]
fn fs_probe_selects_v3_and_leaves_the_browse_probe_alone() {
    let v2_peer = CAP_BROWSE_V2 | CAP_VERSION_NEGOTIATION;

    let ready = probe_fs_session(peer(FS_V3_CLIENT, None), Recorder::default(), [1; 16]).unwrap();
    assert_eq!(ready.probe.status, ProbeStatus::ReadyV3);
    assert_eq!(ready.probe.selected_version, 3);
    assert_eq!(ready.probe.status.action(), "open the filesystem session");
    assert!(ready.into_browse_session().is_err());

    let degraded = probe_fs_session(peer(v2_peer, None), Recorder::default(), [2; 16]).unwrap();
    assert_eq!(degraded.probe.status, ProbeStatus::Ready);
    assert_eq!(degraded.probe.selected_version, 2);
    assert!(degraded.into_fs_session(0).is_err());

    let unchanged = probe_session(peer(FS_V3_CLIENT, None), Recorder::default(), [3; 16]).unwrap();
    assert_eq!(unchanged.probe.status, ProbeStatus::Ready);
    assert_eq!(unchanged.probe.selected_version, 2);
    assert!(unchanged.into_browse_session().is_ok());
}

#[test]
fn fs_client_keeps_only_the_negotiated_feature_set() {
    let mut session = FsSession::connect(
        peer(FS_V3_CLIENT, Some(FS_LOCKS)),
        Recorder::default(),
        [4; 16],
        FS_LOCKS | FS_NOTIFY,
    )
    .unwrap();
    assert_eq!(session.negotiated_features(), FS_LOCKS);
    assert!(session.supports(FS_LOCKS));
    assert!(!session.supports(FS_NOTIFY));
    assert!(!session.supports(FS_LOCKS | FS_NOTIFY));
    session.require(FS_LOCKS, "locks").unwrap();
    let error = session.require(FS_NOTIFY, "notify").unwrap_err();
    assert!(error.to_string().contains("notify"), "{error:?}");
    assert!(session.keepalive(1).is_err(), "peer sent no keepalive ack");

    let Err(error) = FsSession::connect(
        peer(FS_V3_CLIENT, Some(FS_NOTIFY)),
        Recorder::default(),
        [5; 16],
        FS_LOCKS,
    ) else {
        panic!("accepted a feature the client did not request")
    };
    assert!(error.to_string().contains("did not request"), "{error:?}");
}

#[test]
fn browse_session_does_not_send_meta_verbs_to_an_older_peer() {
    let mut session = BrowseSession::connect(
        peer(CAP_BROWSE_V2 | CAP_VERSION_NEGOTIATION, None),
        Recorder::default(),
        [6; 16],
    )
    .unwrap();
    assert!(!session.supports_browse_meta());
    assert!(session.set_permissions(b"a".to_vec(), 0o600).is_err());
    assert!(session.set_mtime(b"a".to_vec(), 0).is_err());
    assert!(session.read_link(b"a".to_vec()).is_err());
    let (_, writer) = session.into_parts();
    assert!(writer.browse.is_empty(), "a refused verb must never reach the wire");
}

#[test]
fn browse_client_driver_negotiates_and_keeps_alive() {
    let mut script = peer(CAP_BROWSE_V2 | CAP_VERSION_NEGOTIATION | CAP_BROWSE_META, None);
    script.browse.push_back(V2Frame { message_id: 7, message: V2Message::KeepaliveAck { nonce: 42 } });
    let mut session = BrowseSession::connect(script, Recorder::default(), [7; 16]).unwrap();
    assert!(session.supports_browse_meta());
    session.keepalive(42).unwrap();
    let (_, writer) = session.into_parts();
    assert_eq!(writer.browse.len(), 1);
    assert_eq!(writer.browse[0].1, V2Message::Keepalive { nonce: 42 });
}

#[test]
fn browse_client_names_clean_peer_disconnect() {
    let mut session = BrowseSession::connect(
        peer(CAP_BROWSE_V2 | CAP_VERSION_NEGOTIATION, None),
        Recorder::default(),
        [8; 16],
    )
    .unwrap();
    assert_eq!(session.keepalive(1).unwrap_err(), ServerError::PeerDisconnected);
    assert_eq!(session.common_capabilities() & CAP_BROWSE_META, 0);
}

#[test]
fn browse_verbs_write_their_request_and_judge_the_reply_they_hear() {
    let mut script = peer(CAP_BROWSE_V2 | CAP_VERSION_NEGOTIATION | CAP_BROWSE_META, None);
    script.browse.push_back(V2Frame {
        message_id: 9,
        message: V2Message::ReadLinkResponse {
            related_id: 2,
            status: xsync_core::protocol::StatStatus::Missing,
            target: Vec::new(),
            error: Vec::new(),
        },
    });
    script.browse.push_back(V2Frame { message_id: 10, message: V2Message::KeepaliveAck { nonce: 4 } });
    script.browse.push_back(V2Frame { message_id: 11, message: V2Message::KeepaliveAck { nonce: 5 } });
    let mut session = BrowseSession::connect(script, Recorder::default(), [9; 16]).unwrap();
    assert_eq!(
        session.read_link(b"gone".to_vec()).unwrap_err(),
        ServerError::InvalidPath("gone".to_owned())
    );
    assert!(session.cancel(2).is_err(), "a keepalive ack is no cancellation acknowledgement");
    assert!(session.keepalive(6).is_err(), "the nonce must match");
    let (_, writer) = session.into_parts();
    assert_eq!(writer.handshake.len(), 1);
    assert_eq!(writer.handshake[0].0, 1);
    match &writer.handshake[0].1 {
        Message::Handshake { role, capabilities, job_id, compression_level, .. } => {
            assert_eq!(*role, Role::Session);
            assert_eq!(*capabilities, CAP_BROWSE_V2 | CAP_VERSION_NEGOTIATION | CAP_BROWSE_META);
            assert_eq!(*job_id, [9; 16]);
            assert_eq!(*compression_level, 3);
        }
        other => panic!("expected a handshake, got {other:?}"),
    }
    assert_eq!(
        writer.browse,
        vec![
            (2, V2Message::ReadLinkRequest { path: b"gone".to_vec() }),
            (3, V2Message::CancelRequest { related_id: 2 }),
            (4, V2Message::Keepalive { nonce: 6 }),
        ]
    );
}

#[test]
fn fs_client_writes_the_features_request_as_frame_two() {
    let session = FsSession::connect(
        peer(FS_V3_CLIENT, Some(FS_LOCKS)),
        Recorder::default(),
        [4; 16],
        FS_LOCKS | FS_NOTIFY,
    )
    .unwrap();
    let (_, writer) = session.into_parts();
    assert_eq!(writer.fs, vec![(2, V3Message::Features { features: FS_LOCKS | FS_NOTIFY })]);
    match &writer.handshake[0].1 {
        Message::Handshake { capabilities, .. } => {
            assert_eq!(*capabilities, CAP_BROWSE_V2 | CAP_VERSION_NEGOTIATION | CAP_BROWSE_META | CAP_FS_V3)
        }
        other => panic!("expected a handshake, got {other:?}"),
    }
}
