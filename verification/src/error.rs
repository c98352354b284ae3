//! The errors of the server, the sink and the source reader, each with a
//! stable machine-readable family and a human-readable message.

use vstd::prelude::*;
use crate::scan::EntryKind;
use crate::text::{decimal, push_decimal, push_str};

verus! {

/// Errors produced by verified sink operations.
#[derive(Debug, Clone, PartialEq, Eq)]
pub enum SinkError {
    /// A protocol path was empty, absolute, or contained traversal components.
    InvalidPath { path: String },
    /// An operation received the wrong filesystem object kind.
    WrongKind { path: String, expected: &'static str, actual: EntryKind },
    /// A requested chunk fell outside its declared file size.
    InvalidChunkRange { path: String, offset: u64, length: u64, size: u64 },
    /// Receiving bytes from the source failed.
    Receive { path: String, attempt: u8, source: String },
    /// Both the initial payload and retransmission failed verification.
    VerificationFailed { path: String, attempts: u8 },
    /// A filesystem operation failed.
    Io { operation: &'static str, path: String, source: String },
}

impl SinkError {
    /// The message shown for this error.
    pub open spec fn spec_text(&self) -> Seq<char> {
        match self {
            SinkError::InvalidPath { path } => "invalid protocol path '"@ + path@ + "'"@,
            SinkError::WrongKind { path, expected, actual } => "expected "@ + expected@
                + " entry for '"@ + path@ + "', got "@ + actual.spec_name(),
            SinkError::InvalidChunkRange { path, offset, length, size } =>
                "invalid chunk range for '"@ + path@ + "': offset "@ + decimal(*offset as nat)
                    + ", length "@ + decimal(*length as nat) + ", file size "@ + decimal(
                    *size as nat,
                ),
            SinkError::Receive { path, attempt, source } => "failed to receive '"@ + path@
                + "' on attempt "@ + decimal(*attempt as nat) + ": "@ + source@,
            SinkError::VerificationFailed { path, attempts } => "verification failed for '"@
                + path@ + "' after "@ + decimal(*attempts as nat) + " attempts"@,
            SinkError::Io { operation, path, source } => "cannot "@ + operation@ + " '"@ + path@
                + "': "@ + source@,
        }
    }

    /// The message shown for this error.
    pub fn to_string(&self) -> (r: String)
        ensures
            r@ == self.spec_text(),
    {
        let mut s = String::new();
        match self {
            SinkError::InvalidPath { path } => {
                push_str(&mut s, "invalid protocol path '");
                push_str(&mut s, path.as_str());
                push_str(&mut s, "'");
            },
            SinkError::WrongKind { path, expected, actual } => {
                push_str(&mut s, "expected ");
                push_str(&mut s, expected);
                push_str(&mut s, " entry for '");
                push_str(&mut s, path.as_str());
                push_str(&mut s, "', got ");
                push_str(&mut s, actual.name());
            },
            SinkError::InvalidChunkRange { path, offset, length, size } => {
                push_str(&mut s, "invalid chunk range for '");
                push_str(&mut s, path.as_str());
                push_str(&mut s, "': offset ");
                push_decimal(&mut s, *offset);
                push_str(&mut s, ", length ");
                push_decimal(&mut s, *length);
                push_str(&mut s, ", file size ");
                push_decimal(&mut s, *size);
            },
            SinkError::Receive { path, attempt, source } => {
                push_str(&mut s, "failed to receive '");
                push_str(&mut s, path.as_str());
                push_str(&mut s, "' on attempt ");
                push_decimal(&mut s, *attempt as u64);
                push_str(&mut s, ": ");
                push_str(&mut s, source.as_str());
            },
            SinkError::VerificationFailed { path, attempts } => {
                push_str(&mut s, "verification failed for '");
                push_str(&mut s, path.as_str());
                push_str(&mut s, "' after ");
                push_decimal(&mut s, *attempts as u64);
                push_str(&mut s, " attempts");
            },
            SinkError::Io { operation, path, source } => {
                push_str(&mut s, "cannot ");
                push_str(&mut s, operation);
                push_str(&mut s, " '");
                push_str(&mut s, path.as_str());
                push_str(&mut s, "': ");
                push_str(&mut s, source.as_str());
            },
        }
        s
    }
}

/// Errors produced while reading a source file under a stable-read contract.
#[derive(Debug, Clone, PartialEq, Eq)]
pub enum SourceReadError {
    /// The requested source entry is not a regular file.
    WrongKind { path: String, kind: EntryKind },
    /// The protocol-relative source path is unsafe.
    InvalidPath { path: String },
    /// The source disappeared during a read or refresh.
    Vanished { path: String },
    /// The source changed twice and cannot be read as one stable version.
    Unstable { path: String, attempts: u8 },
    /// Opening the source failed for a reason other than a detected race.
    Open { path: String, source: String },
    /// Reading the source failed.
    Read { path: String, source: String },
    /// A source metadata fingerprint could not be obtained.
    Fingerprint { path: String, source: String },
}

impl SourceReadError {
    /// The message shown for this error.
    pub open spec fn spec_text(&self) -> Seq<char> {
        match self {
            SourceReadError::WrongKind { path, kind } => "cannot read non-file source '"@ + path@
                + "' ("@ + kind.spec_name() + ")"@,
            SourceReadError::InvalidPath { path } => "invalid source path '"@ + path@ + "'"@,
            SourceReadError::Vanished { path } => "source file '"@ + path@
                + "' vanished during read"@,
            SourceReadError::Unstable { path, attempts } => "source file '"@ + path@
                + "' changed during read after "@ + decimal(*attempts as nat) + " attempts"@,
            SourceReadError::Open { path, source } => "cannot open source '"@ + path@ + "': "@
                + source@,
            SourceReadError::Read { path, source } => "cannot read source '"@ + path@ + "': "@
                + source@,
            SourceReadError::Fingerprint { path, source } => "cannot fingerprint source '"@
                + path@ + "': "@ + source@,
        }
    }

    /// The message shown for this error.
    pub fn to_string(&self) -> (r: String)
        ensures
            r@ == self.spec_text(),
    {
        let mut s = String::new();
        match self {
            SourceReadError::WrongKind { path, kind } => {
                push_str(&mut s, "cannot read non-file source '");
                push_str(&mut s, path.as_str());
                push_str(&mut s, "' (");
                push_str(&mut s, kind.name());
                push_str(&mut s, ")");
            },
            SourceReadError::InvalidPath { path } => {
                push_str(&mut s, "invalid source path '");
                push_str(&mut s, path.as_str());
                push_str(&mut s, "'");
            },
            SourceReadError::Vanished { path } => {
                push_str(&mut s, "source file '");
                push_str(&mut s, path.as_str());
                push_str(&mut s, "' vanished during read");
            },
            SourceReadError::Unstable { path, attempts } => {
                push_str(&mut s, "source file '");
                push_str(&mut s, path.as_str());
                push_str(&mut s, "' changed during read after ");
                push_decimal(&mut s, *attempts as u64);
                push_str(&mut s, " attempts");
            },
            SourceReadError::Open { path, source } => {
                push_str(&mut s, "cannot open source '");
                push_str(&mut s, path.as_str());
                push_str(&mut s, "': ");
                push_str(&mut s, source.as_str());
            },
            SourceReadError::Read { path, source } => {
                push_str(&mut s, "cannot read source '");
                push_str(&mut s, path.as_str());
                push_str(&mut s, "': ");
                push_str(&mut s, source.as_str());
            },
            SourceReadError::Fingerprint { path, source } => {
                push_str(&mut s, "cannot fingerprint source '");
                push_str(&mut s, path.as_str());
                push_str(&mut s, "': ");
                push_str(&mut s, source.as_str());
            },
        }
        s
    }
}

/// Errors produced by server operations and remote protocol sessions.
///
/// Failures that arise in layers below the session (framing, I/O, scanning,
/// planning, the resume journal) arrive here already rendered as text.
#[derive(Debug, Clone, PartialEq, Eq)]
pub enum ServerError {
    /// A protocol error occurred during encoding, decoding, or negotiation.
    Protocol(String),
    /// An underlying filesystem or I/O error occurred.
    Io(String),
    /// A scanner error occurred.
    Scan(String),
    /// A planner error occurred.
    Planner(String),
    /// Two source paths would become one file on this destination.
    PathCollision(String),
    /// A sink error occurred.
    Sink(SinkError),
    /// A source read error occurred.
    SourceRead(SourceReadError),
    /// A resume checkpoint journal error occurred.
    Journal(String),
    /// The destination path is invalid or attempts to escape the root.
    InvalidPath(String),
    /// A pre-existing symlink or escape attempt was detected.
    SymlinkEscape(String),
    /// Duplicate normalized destination path received in the same session.
    DuplicatePath(String),
    /// Unexpected message received for the current session state.
    UnexpectedMessage(String),
    /// The peer cannot represent the requested filter.
    FilterUnrepresentable(String),
    /// A `--delete` run was refused before removing anything.
    DeleteRefused(String),
    /// The remote server reported an error.
    RemoteError { code: u16, message: String },
    /// A browse-session frame was malformed or used the wrong message shape.
    Browse(String),
    /// A filesystem-session frame was malformed or used the wrong message shape.
    FsSession(String),
    /// The remote shell positively reported that xsync is unavailable.
    MissingRemoteXsync,
    /// The remote's argument parser refused a flag this build sent.
    RemoteFlagRejected,
    /// Provisioning a binary onto a remote that lacked one failed.
    Bootstrap(String),
    /// The remote was reached but its shell could not parse the server command.
    RemoteShellMismatch,
    /// A transport error occurred on the named stream.
    Transport { stream: usize, message: String },
    /// The persistent browse peer closed its stream cleanly.
    PeerDisconnected,
}

impl ServerError {
    /// The stable machine-readable family of an error.
    pub open spec fn spec_kind(&self) -> Seq<char> {
        match self {
            ServerError::Protocol(_) | ServerError::UnexpectedMessage(_) | ServerError::Browse(_)
            | ServerError::FsSession(_) => "protocol"@,
            ServerError::Io(_) | ServerError::Sink(_) | ServerError::SourceRead(_)
            | ServerError::Journal(_) => "io"@,
            ServerError::Scan(_) => "scan"@,
            ServerError::Planner(_) => "plan"@,
            ServerError::InvalidPath(_) | ServerError::SymlinkEscape(_)
            | ServerError::DuplicatePath(_) | ServerError::PathCollision(_) => "path"@,
            ServerError::RemoteError { .. } => "remote"@,
            ServerError::MissingRemoteXsync => "missing-remote-binary"@,
            ServerError::RemoteFlagRejected => "remote-flag-rejected"@,
            ServerError::Bootstrap(_) => "bootstrap"@,
            ServerError::RemoteShellMismatch => "remote-shell"@,
            ServerError::FilterUnrepresentable(_) => "filter-unrepresentable"@,
            ServerError::DeleteRefused(_) => "delete-refused"@,
            ServerError::Transport { .. } => "transport"@,
            ServerError::PeerDisconnected => "peer-disconnected"@,
        }
    }

    /// Stable machine-readable family for this error.
    ///
    /// Kept deliberately coarse and separate from the message: the message is
    /// for a human and may be reworded, while a consumer routing on failures
    /// needs something it can match on. Grouping is by what an operator would
    /// do about it.
    pub fn kind(&self) -> (r: &'static str)
        ensures
            r@ == self.spec_kind(),
    {
        match self {
            ServerError::Protocol(_) | ServerError::UnexpectedMessage(_) | ServerError::Browse(_)
            | ServerError::FsSession(_) => "protocol",
            ServerError::Io(_) | ServerError::Sink(_) | ServerError::SourceRead(_)
            | ServerError::Journal(_) => "io",
            ServerError::Scan(_) => "scan",
            ServerError::Planner(_) => "plan",
            ServerError::InvalidPath(_) | ServerError::SymlinkEscape(_)
            | ServerError::DuplicatePath(_) | ServerError::PathCollision(_) => "path",
            ServerError::RemoteError { .. } => "remote",
            ServerError::MissingRemoteXsync => "missing-remote-binary",
            ServerError::RemoteFlagRejected => "remote-flag-rejected",
            ServerError::Bootstrap(_) => "bootstrap",
            ServerError::RemoteShellMismatch => "remote-shell",
            ServerError::FilterUnrepresentable(_) => "filter-unrepresentable",
            ServerError::DeleteRefused(_) => "delete-refused",
            ServerError::Transport { .. } => "transport",
            ServerError::PeerDisconnected => "peer-disconnected",
        }
    }

    /// The message shown for an error.
    pub open spec fn spec_text(&self) -> Seq<char> {
        match self {
            ServerError::Protocol(m) => "protocol error: "@ + m@,
            ServerError::Io(m) => "I/O error: "@ + m@,
            ServerError::Scan(m) => "scanner error: "@ + m@,
            ServerError::Planner(m) => "planner error: "@ + m@,
            ServerError::PathCollision(m) => m@,
            ServerError::Sink(e) => "sink error: "@ + e.spec_text(),
            ServerError::SourceRead(e) => "source read error: "@ + e.spec_text(),
            ServerError::Journal(m) => "resume journal error: "@ + m@,
            ServerError::InvalidPath(m) => "invalid destination path '"@ + m@ + "'"@,
            ServerError::SymlinkEscape(m) => "symlink traversal escape detected for path '"@ + m@
                + "'"@,
            ServerError::DuplicatePath(m) => "duplicate destination path '"@ + m@ + "'"@,
            ServerError::UnexpectedMessage(m) => "unexpected protocol message: "@ + m@,
            ServerError::FilterUnrepresentable(m) => m@,
            ServerError::DeleteRefused(m) => m@,
            ServerError::RemoteError { code, message } => "remote error (code "@ + decimal(
                *code as nat,
            ) + "): "@ + message@,
            ServerError::Browse(m) => "v2 session error: "@ + m@,
            ServerError::FsSession(m) => "v3 session error: "@ + m@,
            ServerError::MissingRemoteXsync => "xs not found on remote host \u{2014} install it or check PATH"@,
            ServerError::RemoteFlagRejected => "remote rejected a command-line flag"@,
            ServerError::Bootstrap(m) => "remote bootstrap failed: "@ + m@,
            ServerError::RemoteShellMismatch => "remote shell could not run the xsync server command"@,
            ServerError::Transport { stream, message } => "transport error on stream "@ + decimal(
                *stream as nat,
            ) + ": "@ + message@,
            ServerError::PeerDisconnected => "browse peer disconnected"@,
        }
    }

    /// The message shown for this error.
    pub fn to_string(&self) -> (r: String)
        ensures
            r@ == self.spec_text(),
    {
        let mut s = String::new();
        match self {
            ServerError::Protocol(m) => {
                push_str(&mut s, "protocol error: ");
                push_str(&mut s, m.as_str());
            },
            ServerError::Io(m) => {
                push_str(&mut s, "I/O error: ");
                push_str(&mut s, m.as_str());
            },
            ServerError::Scan(m) => {
                push_str(&mut s, "scanner error: ");
                push_str(&mut s, m.as_str());
            },
            ServerError::Planner(m) => {
                push_str(&mut s, "planner error: ");
                push_str(&mut s, m.as_str());
            },
            ServerError::PathCollision(m) => {
                push_str(&mut s, m.as_str());
            },
            ServerError::Sink(e) => {
                push_str(&mut s, "sink error: ");
                let inner = e.to_string();
                push_str(&mut s, inner.as_str());
            },
            ServerError::SourceRead(e) => {
                push_str(&mut s, "source read error: ");
                let inner = e.to_string();
                push_str(&mut s, inner.as_str());
            },
            ServerError::Journal(m) => {
                push_str(&mut s, "resume journal error: ");
                push_str(&mut s, m.as_str());
            },
            ServerError::InvalidPath(m) => {
                push_str(&mut s, "invalid destination path '");
                push_str(&mut s, m.as_str());
                push_str(&mut s, "'");
            },
            ServerError::SymlinkEscape(m) => {
                push_str(&mut s, "symlink traversal escape detected for path '");
                push_str(&mut s, m.as_str());
                push_str(&mut s, "'");
            },
            ServerError::DuplicatePath(m) => {
                push_str(&mut s, "duplicate destination path '");
                push_str(&mut s, m.as_str());
                push_str(&mut s, "'");
            },
            ServerError::UnexpectedMessage(m) => {
                push_str(&mut s, "unexpected protocol message: ");
                push_str(&mut s, m.as_str());
            },
            ServerError::FilterUnrepresentable(m) => {
                push_str(&mut s, m.as_str());
            },
            ServerError::DeleteRefused(m) => {
                push_str(&mut s, m.as_str());
            },
            ServerError::RemoteError { code, message } => {
                push_str(&mut s, "remote error (code ");
                push_decimal(&mut s, *code as u64);
                push_str(&mut s, "): ");
                push_str(&mut s, message.as_str());
            },
            ServerError::Browse(m) => {
                push_str(&mut s, "v2 session error: ");
                push_str(&mut s, m.as_str());
            },
            ServerError::FsSession(m) => {
                push_str(&mut s, "v3 session error: ");
                push_str(&mut s, m.as_str());
            },
            ServerError::MissingRemoteXsync => {
                push_str(&mut s, "xs not found on remote host \u{2014} install it or check PATH");
            },
            ServerError::RemoteFlagRejected => {
                push_str(&mut s, "remote rejected a command-line flag");
            },
            ServerError::Bootstrap(m) => {
                push_str(&mut s, "remote bootstrap failed: ");
                push_str(&mut s, m.as_str());
            },
            ServerError::RemoteShellMismatch => {
                push_str(&mut s, "remote shell could not run the xsync server command");
            },
            ServerError::Transport { stream, message } => {
                push_str(&mut s, "transport error on stream ");
                push_decimal(&mut s, *stream as u64);
                push_str(&mut s, ": ");
                push_str(&mut s, message.as_str());
            },
            ServerError::PeerDisconnected => {
                push_str(&mut s, "browse peer disconnected");
            },
        }
        s
    }
}

} // verus!
