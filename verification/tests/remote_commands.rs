use xsync_core::error::ServerError;
use xsync_core::remote::{RemoteRegistry, RemoteShell, ServerCommandStep};
use xsync_core::remote_output::{shell_probe_answered, shell_probes};
use xsync_core::session_ladder::{check_remote_host, classify_session_end, ChildExit, LadderAction, Rung, SessionLadder};

#[test]
fn remote_shell_is_remembered_per_host_and_rsh() {
    // The learned family must not leak between hosts: one Windows box in a
    // script must not push every later POSIX host down the cmd.exe path.
    let mut registry = RemoteRegistry::new();
    registry.remember_remote_shell(None, "winbox.example", RemoteShell::Windows);
    assert_eq!(
        registry.remote_shell_for(None, "winbox.example"),
        RemoteShell::Windows
    );
    assert_eq!(
        registry.remote_shell_for(None, "linuxbox.example"),
        RemoteShell::Posix,
        "an unrelated host must still start from the POSIX default"
    );
    // A different -e command against the same host is a different route and
    // does not inherit the answer.
    assert_eq!(
        registry.remote_shell_for(Some("ssh -p 2222"), "winbox.example"),
        RemoteShell::Posix
    );
}

#[test]
fn default_remote_shell_is_ssh_over_host() {
    let registry = RemoteRegistry::new();
    let (program, args) = registry
        .remote_server_command_with_shell("/dest", None, Some("user@mars"), RemoteShell::Posix, "xs")
        .unwrap();
    assert_eq!(program, "ssh");
    assert_eq!(
        args,
        [
            "user@mars",
            "PATH=\"$HOME/.local/bin:$PATH\" 'xs' '--server' '/dest'"
        ]
    );
}

#[test]
fn explicit_rsh_replaces_the_shell_but_preserves_host_and_args() {
    let registry = RemoteRegistry::new();
    let (program, args) = registry
        .remote_server_command_with_shell(
            "/dest",
            Some("myrsh -oK=1"),
            Some("host"),
            RemoteShell::Posix,
            "xs",
        )
        .unwrap();
    assert_eq!(program, "myrsh");
    assert_eq!(
        args,
        [
            "-oK=1",
            "host",
            "PATH=\"$HOME/.local/bin:$PATH\" 'xs' '--server' '/dest'"
        ]
    );
}

#[test]
fn remote_path_is_shell_quoted_as_one_command() {
    let registry = RemoteRegistry::new();
    let (_, args) = registry
        .remote_server_command_with_shell(
            "/dst'; touch XSYNC_INJECTION; echo '",
            None,
            Some("host"),
            RemoteShell::Posix,
            "xs",
        )
        .unwrap();
    assert_eq!(
        args,
        [
            "host",
            "PATH=\"$HOME/.local/bin:$PATH\" 'xs' '--server' '/dst'\\''; touch XSYNC_INJECTION; echo '\\'''"
        ]
    );
}

#[test]
fn remote_home_path_is_expanded_by_the_remote_shell() {
    let registry = RemoteRegistry::new();
    let (_, args) = registry
        .remote_server_command_with_shell("~", None, Some("host"), RemoteShell::Posix, "xs")
        .unwrap();
    assert_eq!(
        args,
        [
            "host",
            "PATH=\"$HOME/.local/bin:$PATH\" 'xs' '--server' \"$HOME\""
        ]
    );

    let (_, args) = registry
        .remote_server_command_with_shell("~/nested", None, Some("host"), RemoteShell::Posix, "xs")
        .unwrap();
    assert_eq!(
        args,
        [
            "host",
            "PATH=\"$HOME/.local/bin:$PATH\" 'xs' '--server' \"$HOME\"/'nested'"
        ]
    );
}

#[test]
fn windows_remote_uses_cmd_syntax_not_posix() {
    let registry = RemoteRegistry::new();
    let (program, args) = registry
        .remote_server_command_with_shell("C:/backup", None, Some("winbox"), RemoteShell::Windows, "xs")
        .unwrap();
    assert_eq!(program, "ssh");
    assert_eq!(
        args,
        [
            "winbox",
            "set \"PATH=%USERPROFILE%\\.local\\bin;%PATH%\" & \"xs\" --server \"C:/backup\""
        ]
    );
}

#[test]
fn windows_remote_expands_home_with_userprofile() {
    let registry = RemoteRegistry::new();
    let (_, args) = registry
        .remote_server_command_with_shell("~", None, Some("winbox"), RemoteShell::Windows, "xs")
        .unwrap();
    assert!(
        args[1].ends_with("\"xs\" --server \"%USERPROFILE%\""),
        "{}",
        args[1]
    );

    let (_, args) = registry
        .remote_server_command_with_shell("~/backup", None, Some("winbox"), RemoteShell::Windows, "xs")
        .unwrap();
    assert!(
        args[1].ends_with("\"xs\" --server \"%USERPROFILE%\\backup\""),
        "{}",
        args[1]
    );
}

#[test]
fn windows_remote_refuses_paths_cmd_quoting_cannot_express() {
    let registry = RemoteRegistry::new();
    for hostile in [
        r"C:/%USERPROFILE%/evil",
        r#"C:/dest" & del /q C:\important & echo "#,
    ] {
        let result = registry.remote_server_command_with_shell(
            hostile,
            None,
            Some("winbox"),
            RemoteShell::Windows,
            "xs",
        );
        assert!(
            matches!(result, Err(ServerError::InvalidPath(_))),
            "expected refusal for {hostile:?}"
        );
    }
}

#[test]
fn windows_and_posix_forms_differ_for_the_same_path() {
    let registry = RemoteRegistry::new();
    let posix = registry
        .remote_server_command_with_shell("/data", None, Some("h"), RemoteShell::Posix, "xs")
        .unwrap();
    let windows = registry
        .remote_server_command_with_shell("/data", None, Some("h"), RemoteShell::Windows, "xs")
        .unwrap();
    assert_ne!(posix.1, windows.1);
    assert!(posix.1[1].starts_with("PATH="));
    assert!(windows.1[1].starts_with("set \"PATH="));
}

#[test]
fn no_host_runs_an_in_process_local_server() {
    let registry = RemoteRegistry::new();
    let (program, args) = registry
        .remote_server_command_with_shell("/dest", None, None, RemoteShell::Posix, "/usr/local/bin/xs")
        .unwrap();
    assert_ne!(program, "ssh");
    assert_eq!(args, ["--server", "/dest"]);
}

#[test]
fn a_learned_shell_and_program_shape_later_commands_for_that_route_only() {
    let mut registry = RemoteRegistry::new();
    registry.remember_remote_shell(None, "win", RemoteShell::Windows);
    let args = launch(&mut registry, "D:/x", "win");
    assert!(args[1].starts_with("set \"PATH="));
    registry.remember_remote_program(None, "posix", "/opt/xs".to_owned());
    assert_eq!(registry.bootstrapped_program(None, "posix"), Some("/opt/xs".to_owned()));
    assert_eq!(registry.bootstrapped_program(None, "other"), None);
    let args = launch(&mut registry, "/d", "posix");
    assert!(args[1].contains("'/opt/xs' '--server'"), "{}", args[1]);
}

#[test]
fn log_json_is_requested_until_a_route_rejects_it() {
    let mut registry = RemoteRegistry::new();
    registry.configure_remote_logging(true, false);
    assert!(registry.remote_accepts_log_json(None, "h"));
    let args = launch(&mut registry, "/d", "h");
    assert!(args[1].contains("--log-json"), "{}", args[1]);
    registry.remember_log_json_rejected(None, "h");
    assert!(!registry.remote_accepts_log_json(None, "h"));
    assert!(registry.remote_accepts_log_json(None, "g"));
    let args = launch(&mut registry, "/d", "h");
    assert!(!args[1].contains("--log-json"), "{}", args[1]);
}

#[test]
fn a_silent_failed_session_is_classified_by_how_the_server_exited() {
    let failed: Result<u8, ServerError> = Err(ServerError::PeerDisconnected);
    let exit = |code| Some(ChildExit { code: Some(code), success: code == 0 });
    assert_eq!(
        classify_session_end(failed.clone(), true, false, exit(1), RemoteShell::Posix, true),
        Err(ServerError::MissingRemoteXsync)
    );
    assert_eq!(
        classify_session_end(failed.clone(), false, true, exit(2), RemoteShell::Posix, true),
        Err(ServerError::RemoteFlagRejected)
    );
    assert_eq!(
        classify_session_end(failed.clone(), false, true, exit(0), RemoteShell::Posix, false),
        Err(ServerError::RemoteShellMismatch)
    );
    assert_eq!(
        classify_session_end(failed.clone(), false, true, exit(1), RemoteShell::Windows, true),
        Err(ServerError::MissingRemoteXsync)
    );
    // ssh's own failure is never retried.
    assert_eq!(
        classify_session_end(failed.clone(), false, true, exit(255), RemoteShell::Posix, true),
        failed
    );
    let ok: Result<u8, ServerError> = Ok(7);
    assert_eq!(
        classify_session_end(ok.clone(), false, false, exit(3), RemoteShell::Posix, true),
        Err(ServerError::Transport { stream: 0, message: "remote xsync exited with status 3".to_owned() })
    );
    assert_eq!(classify_session_end(ok.clone(), false, false, exit(0), RemoteShell::Posix, true), ok);
    assert!(check_remote_host(Some("-oProxyCommand=x")).is_err());
    assert!(check_remote_host(Some("host")).is_ok());
    assert!(check_remote_host(None).is_ok());
}

#[test]
fn the_session_ladder_learns_the_shell_the_flag_and_a_missing_binary_once_each() {
    let mut registry = RemoteRegistry::new();
    let mut ladder = SessionLadder::new(RemoteShell::Posix);
    let first: Result<u8, ServerError> = Err(ServerError::RemoteShellMismatch);
    assert!(matches!(
        ladder.after_attempt(first, &mut registry, None, "win", true),
        LadderAction::Retry(RemoteShell::Windows)
    ));
    let second: Result<u8, ServerError> = Err(ServerError::RemoteFlagRejected);
    assert!(matches!(
        ladder.after_attempt(second, &mut registry, None, "win", true),
        LadderAction::Retry(RemoteShell::Windows)
    ));
    assert_eq!(registry.learned_remote_shell(None, "win"), RemoteShell::Windows);
    assert!(!registry.remote_accepts_log_json(None, "win"));
    let third: Result<u8, ServerError> = Err(ServerError::MissingRemoteXsync);
    assert!(matches!(
        ladder.after_attempt(third, &mut registry, None, "win", true),
        LadderAction::Bootstrap(RemoteShell::Windows)
    ));
    assert_eq!(ladder.rung, Rung::Final);
    let fourth: Result<u8, ServerError> = Err(ServerError::RemoteShellMismatch);
    match ladder.after_attempt(fourth, &mut registry, None, "win", true) {
        LadderAction::Done(Err(ServerError::Transport { message, .. })) => {
            assert_eq!(message, "remote xsync server exited without completing the session")
        }
        other => panic!("unexpected {other:?}"),
    }
}

#[test]
fn shell_family_is_probed_posix_first_and_recognised_by_its_marker() {
    let probes = shell_probes();
    assert_eq!(probes, vec![
        (RemoteShell::Posix, "printf 'XSYNCSHELLOK\n'"),
        (RemoteShell::Windows, "echo XSYNCSHELLOK"),
    ]);
    assert!(shell_probe_answered(b"XSYNCSHELLOK\r\n"));
    assert!(shell_probe_answered(b"banner\nXSYNCSHELLOK\n"));
    assert!(!shell_probe_answered(b"'printf' is not recognized"));
    assert!(!shell_probe_answered(b""));
}

#[test]
fn unknown_route_is_probed_once_before_the_server_command() {
    let mut registry = RemoteRegistry::new();
    let probes = match registry.remote_server_command("C:/backup", None, Some("winbox"), "xs").unwrap() {
        ServerCommandStep::ProbeShell(probes) => probes,
        ServerCommandStep::Launch(..) => panic!("an unknown route must be probed first"),
    };
    assert_eq!(probes.len(), 2);
    assert_eq!(probes[0].0, RemoteShell::Posix);
    assert_eq!(probes[0].1, "ssh");
    assert_eq!(probes[0].2, ["winbox", "printf 'XSYNCSHELLOK\n'"]);
    assert_eq!(probes[1].0, RemoteShell::Windows);
    assert_eq!(probes[1].2, ["winbox", "echo XSYNCSHELLOK"]);
    // cmd.exe cannot run the POSIX marker; it answers the second.
    assert!(!registry.record_shell_probe(None, "winbox", RemoteShell::Posix, b"'printf' is not recognized"));
    assert!(registry.record_shell_probe(None, "winbox", RemoteShell::Windows, b"XSYNCSHELLOK\r\n"));
    match registry.remote_server_command("C:/backup", None, Some("winbox"), "xs").unwrap() {
        ServerCommandStep::Launch(program, args) => {
            assert_eq!(program, "ssh");
            assert!(args[1].starts_with("set \"PATH="), "{args:?}");
        }
        ServerCommandStep::ProbeShell(_) => panic!("a route is probed once"),
    }
    // A route nobody answered is probed once too, then launched as POSIX.
    assert!(matches!(
        registry.remote_server_command("/dest", None, Some("silent"), "xs").unwrap(),
        ServerCommandStep::ProbeShell(_)
    ));
    assert!(!registry.record_shell_probe(None, "silent", RemoteShell::Posix, b""));
    match registry.remote_server_command("/dest", None, Some("silent"), "xs").unwrap() {
        ServerCommandStep::Launch(_, args) => assert!(!args[1].starts_with("set ")),
        ServerCommandStep::ProbeShell(_) => panic!("a route is probed once"),
    }
    // Without a host nothing is probed.
    assert!(matches!(
        registry.remote_server_command("/dest", None, None, "xs").unwrap(),
        ServerCommandStep::Launch(..)
    ));
}

/// The launch arguments for a route, answering its shell probe as POSIX
/// when one is asked for.
fn launch(registry: &mut RemoteRegistry, remote_path: &str, host: &str) -> Vec<String> {
    match registry.remote_server_command(remote_path, None, Some(host), "xs").unwrap() {
        ServerCommandStep::Launch(_, args) => args,
        ServerCommandStep::ProbeShell(_) => {
            assert!(registry.record_shell_probe(None, host, RemoteShell::Posix, b"XSYNCSHELLOK\n"));
            launch(registry, remote_path, host)
        }
    }
}
