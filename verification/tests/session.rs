use plan10::config::{Config, ServerDefinition};
use plan10::connect::{
    ConnectAction, ConnectEvent, ConnectFlow, ConnectState, ConnectionParameters,
};
use plan10::error::{CommandError, ConnectError, TransferError};
use plan10::platform::{expand_home};
use plan10::path::{join_path};
use plan10::pool::SshPool;
use plan10::ssh::{
    chmod_command, connection_test_command, connection_test_passed, directory_exists_command,
    exists_from, file_exists_command, mkdir_command, CommandResult, SystemInfo, SystemQuery,
};
use plan10::transfer::{
    directory_copy_steps, DirectoryStep, FileTransfer, LocalFile, TransferAction, TransferEvent,
    TransferState, REMOTE_FILE_MODE,
};

fn server(name: &str, host: &str, user: &str, port: u32) -> ServerDefinition {
    ServerDefinition {
        name: name.to_string(),
        host: host.to_string(),
        user: user.to_string(),
        port,
        ssh_key: None,
        tags: vec![],
        enabled: true,
        last_seen: None,
    }
}

fn params(key_path: Option<&str>) -> ConnectionParameters {
    ConnectionParameters {
        user: "ops".to_string(),
        host: "10.0.0.5".to_string(),
        port: 22,
        key_path: key_path.map(|p| p.to_string()),
    }
}

fn output(stdout: &str, exit_code: i32) -> CommandResult {
    CommandResult::new(stdout.to_string(), String::new(), exit_code)
}

#[test]
fn command_result_success_follows_the_exit_status() {
    let ok = CommandResult::new("out".to_string(), "err".to_string(), 0);
    assert!(ok.success);
    assert_eq!(ok.stdout, "out");
    assert_eq!(ok.stderr, "err");
    assert_eq!(ok.exit_code, 0);
    assert!(!CommandResult::new(String::new(), String::new(), 1).success);
    assert!(!CommandResult::new(String::new(), String::new(), -1).success);
}

#[test]
fn ensure_success_keeps_a_success_and_reports_a_failure() {
    let ok = CommandResult::new("out".to_string(), "warn\n".to_string(), 0);
    assert_eq!(ok.clone().ensure_success(), Ok(ok));
    let failed = CommandResult::new("out".to_string(), "  no such file \n".to_string(), 2);
    let error = failed.ensure_success().unwrap_err();
    assert_eq!(error, CommandError { exit_code: 2, stderr: "no such file".to_string() });
    assert_eq!(error.message(), "Command failed with exit code 2: no such file");
    let negative = CommandError { exit_code: -2147483648, stderr: String::new() };
    assert_eq!(negative.message(), "Command failed with exit code -2147483648: ");
}

#[test]
fn remote_predicates_are_shell_commands() {
    assert_eq!(mkdir_command("~/docs/a b"), "mkdir -p ~/docs/a b");
    assert_eq!(file_exists_command("~/server_setup.sh"), "test -f ~/server_setup.sh");
    assert_eq!(directory_exists_command("~/scripts"), "test -d ~/scripts");
    assert_eq!(chmod_command("~/scripts/temp"), "chmod +x ~/scripts/temp");
    assert_eq!(exists_from::<String>(Ok(output("", 0))), Ok(true));
    assert_eq!(exists_from::<String>(Ok(output("", 1))), Ok(false));
    assert_eq!(exists_from(Err("channel closed".to_string())), Err("channel closed".to_string()));
}

#[test]
fn connection_test_compares_the_echo() {
    assert_eq!(connection_test_command(), "echo 'connection test'");
    assert!(connection_test_passed(&output("connection test\n", 0)));
    assert!(connection_test_passed(&output("  connection test  ", 0)));
    assert!(!connection_test_passed(&output("connection test\n", 1)));
    assert!(!connection_test_passed(&output("connection  test\n", 0)));
    assert!(!connection_test_passed(&output("", 0)));
}

#[test]
fn system_info_is_folded_from_four_commands() {
    let mut query = SystemQuery::start("10.0.0.5");
    let answers = [
        ("uname -a", output("Darwin mac1 23.1.0\n", 0)),
        ("uptime", output(" 10:00  up 3 days\n", 0)),
        ("df -h /", output("", 1)),
        ("whoami", output("ops\n", 0)),
    ];
    for (command, answer) in &answers {
        assert_eq!(query.finish(), None);
        assert_eq!(query.pending(), Some(*command));
        query.record(answer);
    }
    assert_eq!(query.pending(), None);
    let expected = SystemInfo {
        hostname: "10.0.0.5".to_string(),
        uname: "Darwin mac1 23.1.0".to_string(),
        uptime: "10:00  up 3 days".to_string(),
        disk_usage: String::new(),
        current_user: "ops".to_string(),
    };
    assert_eq!(query.finish(), Some(expected.clone()));
    query.record(&output("late", 0));
    assert_eq!(query.finish(), Some(expected));
}

#[test]
fn system_query_that_is_given_up_yields_nothing() {
    let mut query = SystemQuery::start("10.0.0.5");
    query.record(&output("Darwin\n", 0));
    query.record(&output("up\n", 0));
    assert_eq!(query.pending(), Some("df -h /"));
    assert_eq!(query.finish(), None);
}

#[test]
fn parameters_merge_the_target_with_the_defaults() {
    let mut config = Config::with_server_name("laptop".to_string());
    let mut target = server("mac1", "10.0.0.5", "ops", 2222);
    let home = Some("/home/me".to_string());
    let resolved = ConnectionParameters::resolve_in(&target, &config, &home);
    assert_eq!(
        resolved,
        ConnectionParameters {
            user: "ops".to_string(),
            host: "10.0.0.5".to_string(),
            port: 2222,
            key_path: None,
        }
    );
    assert_eq!(resolved.address(), "10.0.0.5:2222");
    config.ssh.key_path = Some("~/.ssh/global".to_string());
    let resolved = ConnectionParameters::resolve_in(&target, &config, &home);
    assert_eq!(resolved.key_path, Some("/home/me/.ssh/global".to_string()));
    target.ssh_key = Some("/keys/own".to_string());
    let resolved = ConnectionParameters::resolve_in(&target, &config, &home);
    assert_eq!(resolved.key_path, Some("/keys/own".to_string()));
    assert_eq!(ConnectionParameters::resolve(&target, &config).key_path, resolved.key_path);
}

#[test]
fn tilde_is_expanded_to_the_home_directory() {
    let home = Some("/home/me".to_string());
    assert_eq!(expand_home("~/keys/id", &home), "/home/me/keys/id");
    assert_eq!(expand_home("~", &home), "/home/me");
    assert_eq!(expand_home("~other/keys", &home), "~other/keys");
    assert_eq!(expand_home("/abs/~/x", &home), "/abs/~/x");
    assert_eq!(expand_home("", &home), "");
    assert_eq!(expand_home("~/keys/id", &None), "~/keys/id");
    assert_eq!(expand_home("~\\keys", &home), "~\\keys");
    assert_eq!(join_path("/home/me", ".ssh"), "/home/me/.ssh");
    assert_eq!(join_path("/home/me/", ".ssh"), "/home/me/.ssh");
    assert_eq!(join_path("", ".ssh"), ".ssh");
    assert_eq!(join_path("/", "etc"), "/etc");
}

#[test]
fn missing_key_file_falls_through_to_the_agent() {
    let mut flow = ConnectFlow::start(params(Some("/keys/none")), 30);
    assert_eq!(
        flow.pending(),
        Some(ConnectAction::OpenTransport { address: "10.0.0.5:22".to_string(), timeout_secs: 30 })
    );
    flow.advance(ConnectEvent::TransportOpened);
    assert_eq!(flow.pending(), Some(ConnectAction::Handshake));
    flow.advance(ConnectEvent::HandshakeSucceeded);
    assert_eq!(
        flow.pending(),
        Some(ConnectAction::CheckKeyFile { path: "/keys/none".to_string() })
    );
    flow.advance(ConnectEvent::KeyFileMissing);
    assert_eq!(flow.outcome(), None);
    assert_eq!(flow.state, ConnectState::AwaitAgentAuth);
    assert_eq!(
        flow.pending(),
        Some(ConnectAction::AuthenticateWithAgent { user: "ops".to_string() })
    );
    flow.advance(ConnectEvent::Authenticated);
    assert_eq!(flow.outcome(), Some(Ok(())));
    assert_eq!(flow.pending(), None);
}

#[test]
fn key_is_tried_before_the_agent() {
    let mut flow = ConnectFlow::start(params(Some("/keys/id")), 30);
    flow.advance(ConnectEvent::TransportOpened);
    flow.advance(ConnectEvent::HandshakeSucceeded);
    flow.advance(ConnectEvent::KeyFilePresent);
    assert_eq!(
        flow.pending(),
        Some(ConnectAction::AuthenticateWithKey {
            user: "ops".to_string(),
            path: "/keys/id".to_string(),
        })
    );
    flow.advance(ConnectEvent::Authenticated);
    assert_eq!(flow.state, ConnectState::Connected);
    // a key that is refused leaves the agent to try
    let mut flow = ConnectFlow::start(params(Some("/keys/id")), 30);
    flow.advance(ConnectEvent::TransportOpened);
    flow.advance(ConnectEvent::HandshakeSucceeded);
    flow.advance(ConnectEvent::KeyFilePresent);
    flow.advance(ConnectEvent::NotAuthenticated("key rejected".to_string()));
    assert_eq!(flow.state, ConnectState::AwaitAgentAuth);
    assert_eq!(flow.outcome(), None);
    flow.advance(ConnectEvent::NotAuthenticated("agent has no identities".to_string()));
    let error = ConnectError::AuthenticationFailed {
        user: "ops".to_string(),
        host: "10.0.0.5".to_string(),
        detail: "agent has no identities".to_string(),
    };
    assert_eq!(flow.outcome(), Some(Err(error)));
    assert_eq!(
        flow.outcome().unwrap().unwrap_err().message(),
        "Authentication failed for user ops on 10.0.0.5: agent has no identities"
    );
    let silent = ConnectError::AuthenticationFailed {
        user: "ops".to_string(),
        host: "10.0.0.5".to_string(),
        detail: String::new(),
    };
    assert_eq!(silent.message(), "Authentication failed for user ops on 10.0.0.5");
}

#[test]
fn without_a_key_the_agent_is_asked_at_once() {
    let mut flow = ConnectFlow::start(params(None), 5);
    flow.advance(ConnectEvent::TransportOpened);
    flow.advance(ConnectEvent::HandshakeSucceeded);
    assert_eq!(flow.state, ConnectState::AwaitAgentAuth);
}

#[test]
fn connection_failures_are_named() {
    let mut flow = ConnectFlow::start(params(None), 5);
    assert_eq!(flow.detail, "");
    flow.advance(ConnectEvent::TransportTimedOut);
    assert_eq!(flow.outcome(), Some(Err(ConnectError::ConnectTimeout)));
    flow.advance(ConnectEvent::TransportOpened);
    flow.advance(ConnectEvent::TransportFailed("late".to_string()));
    assert_eq!(flow.outcome(), Some(Err(ConnectError::ConnectTimeout)));
    let mut flow = ConnectFlow::start(params(None), 5);
    flow.advance(ConnectEvent::TransportFailed("Connection refused (os error 111)".to_string()));
    let refused =
        ConnectError::ConnectionRefused { detail: "Connection refused (os error 111)".to_string() };
    assert_eq!(
        refused.message(),
        "Failed to connect to server: Connection refused (os error 111)"
    );
    assert_eq!(flow.outcome(), Some(Err(refused)));
    let mut flow = ConnectFlow::start(params(None), 5);
    flow.advance(ConnectEvent::Authenticated);
    flow.advance(ConnectEvent::HandshakeFailed("not yet".to_string()));
    assert_eq!(flow.state, ConnectState::AwaitTransport);
    assert_eq!(flow.detail, "");
    flow.advance(ConnectEvent::TransportOpened);
    flow.advance(ConnectEvent::HandshakeFailed("banner exchange failed".to_string()));
    let handshake = ConnectError::HandshakeFailed { detail: "banner exchange failed".to_string() };
    assert_eq!(handshake.message(), "SSH handshake failed: banner exchange failed");
    assert_eq!(flow.outcome(), Some(Err(handshake)));
    assert_eq!(ConnectError::ConnectTimeout.message(), "Connection timeout");
    assert_eq!(
        ConnectError::ConnectionRefused { detail: String::new() }.message(),
        "Failed to connect to server"
    );
    assert_eq!(
        ConnectError::HandshakeFailed { detail: String::new() }.message(),
        "SSH handshake failed"
    );
}

#[test]
fn file_transfer_goes_through_the_whole_handshake() {
    let mut transfer = FileTransfer::start("a.sh".to_string(), "~/a.sh".to_string());
    assert_eq!(transfer.pending(), Some(TransferAction::ReadLocal { path: "a.sh".to_string() }));
    transfer.advance(TransferEvent::LocalRead { size: 1234 });
    assert_eq!(REMOTE_FILE_MODE, 0o644);
    assert_eq!(
        transfer.pending(),
        Some(TransferAction::OpenRemote { path: "~/a.sh".to_string(), mode: 0o644, size: 1234 })
    );
    let expected = [
        TransferAction::WritePayload,
        TransferAction::SendEof,
        TransferAction::WaitEof,
        TransferAction::Close,
        TransferAction::WaitClose,
    ];
    for action in expected {
        transfer.advance(TransferEvent::Completed);
        assert_eq!(transfer.outcome(), None);
        assert_eq!(transfer.pending(), Some(action));
    }
    transfer.advance(TransferEvent::Completed);
    assert_eq!(transfer.state, TransferState::Done);
    assert_eq!(transfer.outcome(), Some(Ok(())));
    assert_eq!(transfer.pending(), None);
}

#[test]
fn file_transfer_failures() {
    let mut transfer = FileTransfer::start("a.sh".to_string(), "~/a.sh".to_string());
    transfer.advance(TransferEvent::LocalMissing("No such file or directory (os error 2)".to_string()));
    let error = TransferError::LocalFileNotFound {
        path: "a.sh".to_string(),
        detail: "No such file or directory (os error 2)".to_string(),
    };
    assert_eq!(
        error.message(),
        "Failed to read local file: a.sh: No such file or directory (os error 2)"
    );
    assert_eq!(transfer.outcome(), Some(Err(error)));
    assert_eq!(transfer.pending(), None);
    let mut transfer = FileTransfer::start("a.sh".to_string(), "~/a.sh".to_string());
    transfer.advance(TransferEvent::ProtocolError("too early".to_string()));
    assert_eq!(transfer.state, TransferState::AwaitLocalRead);
    assert_eq!(transfer.detail, "");
    transfer.advance(TransferEvent::LocalRead { size: 1 });
    transfer.advance(TransferEvent::Completed);
    transfer.advance(TransferEvent::ProtocolError("channel closed".to_string()));
    assert_eq!(
        transfer.outcome(),
        Some(Err(TransferError::TransferFailed {
            path: "~/a.sh".to_string(),
            detail: "channel closed".to_string(),
        }))
    );
    transfer.advance(TransferEvent::Completed);
    transfer.advance(TransferEvent::ProtocolError("again".to_string()));
    assert_eq!(transfer.state, TransferState::Failed);
    assert_eq!(transfer.detail, "channel closed");
    assert_eq!(
        TransferError::TransferFailed { path: "~/a.sh".to_string(), detail: String::new() }
            .message(),
        "Transfer failed: ~/a.sh"
    );
    assert_eq!(
        TransferError::LocalFileNotFound { path: "a.sh".to_string(), detail: String::new() }
            .message(),
        "Failed to read local file: a.sh"
    );
}

#[test]
fn directory_copy_creates_each_directory_before_its_file() {
    let files = vec![
        LocalFile { path: "docs/readme.md".to_string(), relative: "readme.md".to_string() },
        LocalFile { path: "docs/img/a.png".to_string(), relative: "img/a.png".to_string() },
    ];
    let make = |path: &str| DirectoryStep::MakeDirectory(path.to_string());
    let copy = |local: &str, remote: &str| DirectoryStep::CopyFile {
        local: local.to_string(),
        remote: remote.to_string(),
    };
    assert_eq!(
        directory_copy_steps("~/docs", &files),
        vec![
            make("~/docs"),
            make("~/docs"),
            copy("docs/readme.md", "~/docs/readme.md"),
            make("~/docs/img"),
            copy("docs/img/a.png", "~/docs/img/a.png"),
        ]
    );
    assert_eq!(
        directory_copy_steps("~/docs/", &files[..1].iter().map(|f| LocalFile {
            path: f.path.clone(),
            relative: f.relative.clone(),
        }).collect()),
        vec![make("~/docs/"), make("~/docs"), copy("docs/readme.md", "~/docs//readme.md")]
    );
    assert_eq!(directory_copy_steps("~/empty", &vec![]), vec![make("~/empty")]);
}

#[test]
fn pool_caches_one_session_per_endpoint() {
    let config = Config::with_server_name("laptop".to_string());
    let mut pool: SshPool<u32> = SshPool::new(config.clone());
    assert_eq!(pool.config(), &config);
    let a = server("a", "10.0.0.5", "ops", 22);
    let b = server("b", "10.0.0.5", "ops", 2222);
    let same_endpoint_as_a = server("c", "10.0.0.5", "ops", 22);
    assert_eq!(SshPool::<u32>::key_for(&a), "ops@10.0.0.5:22");
    assert_eq!(pool.get_connection(&a), None);
    pool.store_connection(&a, 1);
    pool.store_connection(&b, 2);
    assert_eq!(pool.len(), 2);
    assert_eq!(pool.get_connection(&a), Some(&1));
    assert_eq!(pool.get_connection(&b), Some(&2));
    assert_eq!(pool.get_connection(&same_endpoint_as_a), Some(&1));
    pool.store_connection(&same_endpoint_as_a, 3);
    assert_eq!(pool.len(), 2);
    assert_eq!(pool.get_connection(&a), Some(&3));
    pool.disconnect(&a);
    assert_eq!(pool.get_connection(&a), None);
    assert_eq!(pool.get_connection(&b), Some(&2));
    pool.disconnect(&a);
    assert_eq!(pool.len(), 1);
    pool.disconnect_all();
    assert_eq!(pool.len(), 0);
    assert_eq!(pool.get_connection(&b), None);
}
