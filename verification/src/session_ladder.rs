//! Running a client session against a spawned server, learning from each
//! failed attempt: which shell family the remote runs, whether it accepts
//! structured logging, and whether it needs a binary provisioned.

use vstd::prelude::*;
use crate::error::ServerError;
use crate::remote::{opt_text, route_key, RemoteRegistry, RemoteShell};
use crate::text::{push_str, signed_decimal};

verus! {

/// How the server process ended, as the session sees it.
#[derive(Debug, Clone, Copy, PartialEq, Eq, Structural)]
pub struct ChildExit {
    /// The exit code, when the process exited with one.
    pub code: Option<i32>,
    /// Whether the process reported success.
    pub success: bool,
}

/// Whether the server process ended and reported failure.
pub open spec fn exited_unsuccessfully(exit: Option<ChildExit>) -> bool {
    match exit {
        Some(e) => !e.success,
        None => false,
    }
}

/// Whether the server process exited with this code.
pub open spec fn exited_with(exit: Option<ChildExit>, code: i32) -> bool {
    exit matches Some(e) && e.code == Some(code)
}

fn transport_error(text: &str) -> (r: ServerError)
    ensures
        r matches ServerError::Transport { stream, message } && stream == 0 && message@ == text@,
{
    let mut message = String::new();
    push_str(&mut message, text);
    ServerError::Transport { stream: 0, message }
}

/// Classifies how a session against a spawned server ended.
///
/// A stderr that says the remote has no `xs` wins. When the session failed
/// and the remote never sent a byte, and ssh did not report one of its own
/// failures (exit 255): exit 2 is the remote refusing a flag; exit 0, or any
/// exit of the POSIX form over the default ssh transport, is a shell that
/// never ran the server; the cmd form failing silently means no `xs`. A
/// session that succeeded while the server exited unsuccessfully is a
/// transport error.
pub fn classify_session_end<T>(
    result: Result<T, ServerError>,
    missing_binary: bool,
    silent: bool,
    exit: Option<ChildExit>,
    shell: RemoteShell,
    default_ssh: bool,
) -> (r: Result<T, ServerError>)
    ensures
        missing_binary ==> r == Err::<T, ServerError>(ServerError::MissingRemoteXsync),
        !missing_binary && result is Err && silent && !exited_with(exit, 255) && exited_with(exit, 2)
            ==> r == Err::<T, ServerError>(ServerError::RemoteFlagRejected),
        !missing_binary && result is Err && silent && !exited_with(exit, 255) && !exited_with(exit, 2)
            && (exited_with(exit, 0) || (default_ssh && shell == RemoteShell::Posix))
            ==> r == Err::<T, ServerError>(ServerError::RemoteShellMismatch),
        !missing_binary && result is Err && silent && !exited_with(exit, 255) && !exited_with(exit, 2)
            && !(exited_with(exit, 0) || (default_ssh && shell == RemoteShell::Posix)) && shell == RemoteShell::Windows
            ==> r == Err::<T, ServerError>(ServerError::MissingRemoteXsync),
        !missing_binary && !(result is Err && silent && !exited_with(exit, 255) && (exited_with(exit, 2)
            || exited_with(exit, 0) || (default_ssh && shell == RemoteShell::Posix) || shell == RemoteShell::Windows))
            ==> if result is Ok && exited_unsuccessfully(exit) {
                r matches Err(ServerError::Transport { stream, message }) && stream == 0
                    && message@ == "remote xsync exited with status "@ + match exit->0.code {
                    Some(c) => signed_decimal(c as int),
                    None => "unknown"@,
                }
            } else {
                r == result
            },
{
    if missing_binary {
        return Err(ServerError::MissingRemoteXsync);
    }
    let ssh_failed = match exit {
        Some(e) => e.code == Some(255i32),
        None => false,
    };
    let code_is = |c: i32| -> (b: bool)
        ensures
            b == exited_with(exit, c),
        {
            match exit {
                Some(e) => e.code == Some(c),
                None => false,
            }
        };
    if result.is_err() && silent && !ssh_failed {
        if code_is(2) {
            return Err(ServerError::RemoteFlagRejected);
        }
        if code_is(0) || (default_ssh && shell == RemoteShell::Posix) {
            return Err(ServerError::RemoteShellMismatch);
        }
        if shell == RemoteShell::Windows {
            return Err(ServerError::MissingRemoteXsync);
        }
    }
    match exit {
        Some(e) => {
            if !e.success && result.is_ok() {
                let mut message = String::new();
                push_str(&mut message, "remote xsync exited with status ");
                match e.code {
                    Some(c) => crate::text::push_signed(&mut message, c as i64),
                    None => push_str(&mut message, "unknown"),
                }
                return Err(ServerError::Transport { stream: 0, message });
            }
        },
        None => {},
    }
    result
}

/// Refuses a host name that ssh would read as an option.
pub fn check_remote_host(host: Option<&str>) -> (r: Result<(), ServerError>)
    ensures
        r is Err <==> (host matches Some(h) && h@.len() > 0 && h@[0] == '-'),
        r matches Err(e) ==> e matches ServerError::Transport { stream, message } && stream == 0
            && message@ == "remote host must not start with '-' (would be parsed as an ssh option)"@,
{
    match host {
        Some(h) => {
            let chars = crate::text::chars_of(h);
            if chars.len() > 0 && chars[0] == '-' {
                return Err(transport_error("remote host must not start with '-' (would be parsed as an ssh option)"));
            }
            Ok(())
        },
        None => Ok(()),
    }
}

/// Which check the next finished attempt goes through first.
#[derive(Debug, Clone, Copy, PartialEq, Eq, Structural)]
pub enum Rung {
    /// The first attempt: a silent POSIX form may mean a cmd.exe remote.
    Shell,
    /// The cmd form was tried: remember it unless it fared no better.
    AfterWindows,
    /// A refused flag drops structured logging and tries again.
    Flag,
    /// A missing binary may be provisioned once.
    Bootstrap,
    /// No further retry.
    Final,
}

/// The order of the rungs.
pub open spec fn rung_rank(r: Rung) -> int {
    match r {
        Rung::Shell => 0,
        Rung::AfterWindows => 1,
        Rung::Flag => 2,
        Rung::Bootstrap => 3,
        Rung::Final => 4,
    }
}

/// The rungs a retry can leave the ladder on.
pub open spec fn retry_rung(r: Rung) -> bool {
    r == Rung::AfterWindows || r == Rung::Bootstrap || r == Rung::Final
}

/// What to do after an attempt.
#[derive(Debug)]
pub enum LadderAction<T> {
    /// Run the session again with this shell family.
    Retry(RemoteShell),
    /// Provision a binary on the remote, remember where it went, and run the
    /// session again with this shell family.
    Bootstrap(RemoteShell),
    /// The session's outcome.
    Done(Result<T, ServerError>),
}

/// The retries of one session against one remote route.
pub struct SessionLadder {
    pub rung: Rung,
    pub shell: RemoteShell,
}

/// The outcome a session reports once no retry is left: a refused flag or
/// a silent shell that survived their retries become transport errors.
pub open spec fn final_outcome<T>(result: Result<T, ServerError>, r: Result<T, ServerError>) -> bool {
    match result {
        Err(ServerError::RemoteFlagRejected) => r matches Err(ServerError::Transport { stream, message })
            && stream == 0 && message@ == "remote rejected the server command line"@,
        Err(ServerError::RemoteShellMismatch) => r matches Err(ServerError::Transport { stream, message })
            && stream == 0 && message@ == "remote xsync server exited without completing the session"@,
        _ => r == result,
    }
}

impl SessionLadder {
    /// The first attempt, with the shell family learned for the route.
    pub fn new(shell: RemoteShell) -> (r: SessionLadder)
        ensures
            r.rung == Rung::Shell,
            r.shell == shell,
    {
        SessionLadder { rung: Rung::Shell, shell }
    }

    /// Decides what follows a finished attempt, recording in `registry` what
    /// the attempt taught about the route `(rsh, host)`.
    ///
    /// A silent POSIX form is retried once in the cmd form, which is
    /// remembered for the route whenever it got further; a refused flag
    /// drops structured logging for the route and is retried once; a missing
    /// binary is provisioned once when bootstrap is enabled and no program
    /// was provisioned for the route before. Every retry moves to a later
    /// rung, so a session makes at most four attempts.
    pub fn after_attempt<T>(
        &mut self,
        result: Result<T, ServerError>,
        registry: &mut RemoteRegistry,
        rsh: Option<&str>,
        host: &str,
        bootstrap_enabled: bool,
    ) -> (r: LadderAction<T>)
        ensures
            r is Done ==> final(self).rung == Rung::Final,
            r is Retry ==> final(self).rung != Rung::Final,
            !(r is Done) ==> rung_rank(final(self).rung) > rung_rank(old(self).rung)
                && retry_rung(final(self).rung),
            old(self).rung == Rung::Final ==> r is Done,
            old(self).rung == Rung::Shell && result == Err::<T, ServerError>(ServerError::RemoteShellMismatch)
                && old(self).shell == RemoteShell::Posix ==> r == LadderAction::<T>::Retry(RemoteShell::Windows)
                && final(self).shell == RemoteShell::Windows && *final(registry) == *old(registry),
            old(self).rung == Rung::AfterWindows && result != Err::<T, ServerError>(ServerError::RemoteShellMismatch)
                ==> final(registry).learned_shell(route_key(opt_text(rsh), host@)) == Some(RemoteShell::Windows),
            rung_rank(old(self).rung) <= 2 && !(old(self).rung == Rung::Shell && result
                == Err::<T, ServerError>(ServerError::RemoteShellMismatch) && old(self).shell == RemoteShell::Posix)
                && result == Err::<T, ServerError>(ServerError::RemoteFlagRejected) ==> r == LadderAction::<T>::Retry(old(self).shell)
                && final(registry).log_json_rejected(route_key(opt_text(rsh), host@)),
            r matches LadderAction::Bootstrap(s) ==> s == old(self).shell && bootstrap_enabled
                && result == Err::<T, ServerError>(ServerError::MissingRemoteXsync)
                && old(registry).learned_program(route_key(opt_text(rsh), host@)) is None,
            r matches LadderAction::Done(out) ==> final_outcome(result, out),
            final(self).shell == (if old(self).rung == Rung::Shell && result == Err::<T, ServerError>(ServerError::RemoteShellMismatch)
                && old(self).shell == RemoteShell::Posix { RemoteShell::Windows } else { old(self).shell }),
    {
        let mismatch = match &result {
            Err(ServerError::RemoteShellMismatch) => true,
            _ => false,
        };
        let flag = match &result {
            Err(ServerError::RemoteFlagRejected) => true,
            _ => false,
        };
        let missing = match &result {
            Err(ServerError::MissingRemoteXsync) => true,
            _ => false,
        };
        let mut rung = self.rung;
        if rung == Rung::Shell {
            if mismatch && self.shell == RemoteShell::Posix {
                self.shell = RemoteShell::Windows;
                self.rung = Rung::AfterWindows;
                return LadderAction::Retry(RemoteShell::Windows);
            }
            rung = Rung::Flag;
        }
        if rung == Rung::AfterWindows {
            if !mismatch {
                registry.remember_remote_shell(rsh, host, RemoteShell::Windows);
            }
            rung = Rung::Flag;
        }
        if rung == Rung::Flag {
            if flag {
                registry.remember_log_json_rejected(rsh, host);
                self.rung = Rung::Bootstrap;
                return LadderAction::Retry(self.shell);
            }
            rung = Rung::Bootstrap;
        }
        if rung == Rung::Bootstrap {
            if missing && bootstrap_enabled {
                match registry.remote_program_for(rsh, host) {
                    None => {
                        self.rung = Rung::Final;
                        return LadderAction::Bootstrap(self.shell);
                    },
                    Some(_) => {},
                }
            }
        }
        self.rung = Rung::Final;
        let out = match result {
            Err(ServerError::RemoteFlagRejected) => Err(transport_error("remote rejected the server command line")),
            Err(ServerError::RemoteShellMismatch) => Err(transport_error("remote xsync server exited without completing the session")),
            other => other,
        };
        LadderAction::Done(out)
    }
}

/// A session makes at most four attempts: starting on the first rung, every
/// retry climbs to a later rung among the three a retry can reach.
pub proof fn lemma_at_most_four_attempts(rungs: Seq<Rung>)
    requires
        rungs.len() >= 1,
        rungs[0] == Rung::Shell,
        forall|i: int| 1 <= i < rungs.len() ==> retry_rung(#[trigger] rungs[i]),
        forall|i: int| 0 <= i < rungs.len() - 1 ==> rung_rank(#[trigger] rungs[i + 1]) > rung_rank(rungs[i]),
    ensures
        rungs.len() <= 4,
{
    if rungs.len() > 4 {
        assert(retry_rung(rungs[1]) && retry_rung(rungs[2]) && retry_rung(rungs[3]) && retry_rung(rungs[4]));
        assert(rung_rank(rungs[0int + 1]) > rung_rank(rungs[0int]));
        assert(rung_rank(rungs[1int + 1]) > rung_rank(rungs[1int]));
        assert(rung_rank(rungs[2int + 1]) > rung_rank(rungs[2int]));
        assert(rung_rank(rungs[3int + 1]) > rung_rank(rungs[3int]));
    }
}

} // verus!
