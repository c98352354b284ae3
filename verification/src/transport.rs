//! The framed streams a session runs over.
//!
//! A session only decides what to send and what a reply means; moving frames
//! is the embedding program's business. These traits are that seam, and they
//! promise nothing about what arrives: every contract that involves a reply
//! holds whatever the peer sent.

use vstd::prelude::*;
use crate::error::ServerError;
use crate::protocol::{Frame, Message, V2Frame, V2Message, V3Frame, V3Message};

verus! {

/// Reads frames of the v1 opening handshake.
pub trait HandshakeReader {
    /// The next frame; a clean end of stream is an error here.
    fn read_handshake_frame(&mut self) -> Result<Frame, ServerError>;
}

/// Writes frames of the v1 opening handshake.
pub trait HandshakeWriter {
    /// Encode, write and flush one frame.
    fn write_handshake_frame(&mut self, id: u64, message: &Message) -> Result<(), ServerError>;
}

/// Reads frames of the v2 browse session.
pub trait BrowseReader {
    /// The next frame, or `None` at a clean end of stream.
    fn read_browse_frame(&mut self) -> Result<Option<V2Frame>, ServerError>;
}

/// Writes frames of the v2 browse session.
pub trait BrowseWriter {
    /// Encode, write and flush one frame.
    fn write_browse_frame(&mut self, id: u64, message: &V2Message) -> Result<(), ServerError>;
}

/// Reads frames of the v3 filesystem session.
pub trait FsReader {
    /// The next frame, or `None` at a clean end of stream.
    fn read_fs_frame(&mut self) -> Result<Option<V3Frame>, ServerError>;
}

/// Writes frames of the v3 filesystem session.
pub trait FsWriter {
    /// Encode, write and flush one frame.
    fn write_fs_frame(&mut self, id: u64, message: &V3Message) -> Result<(), ServerError>;
}

/// What one exchange with the peer heard: at most one more answer from the
/// reader, each answer a frame or `None` for a clean end of stream. When
/// nothing more was heard the reader (or the writer before it) failed and
/// `r` is an error; a clean end of stream is `PeerDisconnected`.
pub open spec fn one_answer<F, T>(before: Seq<Option<F>>, after: Seq<Option<F>>, r: Result<T, ServerError>) -> bool {
    ||| after == before && r is Err
    ||| after.len() == before.len() + 1 && after.drop_last() == before && (after.last() is None ==> r matches Err(
        ServerError::PeerDisconnected,
    ))
}

/// The frame an exchange heard, when it heard one.
pub open spec fn answer_frame<F>(before: Seq<Option<F>>, after: Seq<Option<F>>) -> Option<F> {
    if after.len() == before.len() + 1 {
        after.last()
    } else {
        None
    }
}

} // verus!
