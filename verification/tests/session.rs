use rax_ftp_server::client::handler::{end_session, handle_client, SessionAction};
use rax_ftp_server::client::registry::ClientRegistry;
use rax_ftp_server::client::state::Client;
use rax_ftp_server::config::StartupConfig;
use rax_ftp_server::error::types::{NavigateError, StorageError};
use rax_ftp_server::net::SocketAddress;
use rax_ftp_server::protocol::commands::{CommandResult, CommandStatus};
use rax_ftp_server::protocol::handlers::{
    finish_list, finish_listener_setup, finish_retr, finish_stor, handle_cmd_cwd, handle_cmd_del,
    handle_cmd_list, handle_cmd_port, handle_cmd_retr, handle_cmd_stor, handle_command, CommandStep,
    TransferKind,
};
use rax_ftp_server::protocol::parse_command;
use rax_ftp_server::server::connection::{admit_client, greeting, handle_new_client};
use rax_ftp_server::transfer::channel_registry::ChannelRegistry;
use rax_ftp_server::transfer::modes::TransferMode;
use rax_ftp_server::transfer::operations::ListenerOutcome;

fn startup() -> StartupConfig {
    StartupConfig {
        bind_address: "127.0.0.1".to_string(),
        control_port: 2121,
        data_port_min: 2122,
        data_port_max: 2222,
        server_root: "./server_root".to_string(),
        buffer_size: 8192,
        connection_timeout_secs: 10,
        max_retries: 3,
        max_command_length: 512,
        max_directory_depth: 3,
        max_username_length: 64,
        min_client_port: 1024,
    }
}

fn addr() -> SocketAddress {
    SocketAddress::v4(127, 0, 0, 1, 40000)
}

fn reply(step: CommandStep) -> CommandResult {
    match step {
        CommandStep::Reply(r) => r,
        other => panic!("expected a reply, got {:?}", other),
    }
}

fn message(r: &CommandResult) -> &str {
    r.message.as_deref().unwrap()
}

fn is_success(r: &CommandResult) -> bool {
    matches!(r.status, CommandStatus::Success)
}

fn failure_reason(r: &CommandResult) -> String {
    match &r.status {
        CommandStatus::Failure(m) => m.clone(),
        other => panic!("expected a failure, got {:?}", other),
    }
}

fn logged_in_client() -> Client {
    let cfg = startup();
    let mut c = Client::default();
    let mut reg = ChannelRegistry::new();
    handle_command(&mut c, &parse_command("USER alice"), &mut reg, &cfg);
    handle_command(&mut c, &parse_command("PASS alice123"), &mut reg, &cfg);
    c.set_client_addr(Some(addr()));
    c
}

#[test]
fn readme_login_session() {
    let cfg = startup();
    let mut c = Client::default();
    let mut reg = ChannelRegistry::new();
    assert_eq!(greeting(), "220 Welcome to RAX FTP Server\r\n");
    let r = handle_new_client(&mut c, "USER alice\r\n", &cfg);
    assert_eq!(message(&r), "331 Password required\r\n");
    let r = handle_new_client(&mut c, "PASS alice123\r\n", &cfg);
    assert_eq!(message(&r), "230 Login successful\r\n");
    assert!(c.is_logged_in());
    let r = reply(handle_command(&mut c, &parse_command("QUIT"), &mut reg, &cfg));
    assert!(matches!(r.status, CommandStatus::CloseConnection));
    assert_eq!(message(&r), "221 Goodbye\r\n");
    assert!(!c.is_logged_in());
}

#[test]
fn wrong_password_and_unknown_user() {
    let cfg = startup();
    let mut c = Client::default();
    let mut reg = ChannelRegistry::new();
    let r = reply(handle_command(&mut c, &parse_command("PASS secret"), &mut reg, &cfg));
    assert_eq!(message(&r), "530 Username not provided\r\n");
    let r = reply(handle_command(&mut c, &parse_command("USER mallory"), &mut reg, &cfg));
    assert_eq!(message(&r), "530 Unknown user 'mallory'\r\n");
    assert!(!c.is_user_valid());
    handle_command(&mut c, &parse_command("USER bob"), &mut reg, &cfg);
    let r = reply(handle_command(&mut c, &parse_command("PASS wrong"), &mut reg, &cfg));
    assert_eq!(message(&r), "530 Invalid password for user: bob\r\n");
    assert!(!c.is_logged_in());
    let r = reply(handle_command(&mut c, &parse_command("PASS bob123"), &mut reg, &cfg));
    assert_eq!(message(&r), "230 Login successful\r\n");
}

#[test]
fn login_phase_refuses_other_commands() {
    let cfg = startup();
    let mut c = Client::default();
    let r = handle_new_client(&mut c, "LIST\r\n", &cfg);
    assert_eq!(message(&r), "530 Please login with USER and PASS\r\n");
    assert_eq!(failure_reason(&r), "Authentication required");
}

#[test]
fn commands_need_login() {
    let cfg = startup();
    let mut reg = ChannelRegistry::new();
    for line in ["LIST", "PWD", "RETR a.txt", "STOR a.txt", "DEL a.txt", "CWD /x", "PASV"] {
        let mut c = Client::default();
        let r = reply(handle_command(&mut c, &parse_command(line), &mut reg, &cfg));
        assert_eq!(message(&r), "530 Not logged in\r\n", "{}", line);
        assert_eq!(failure_reason(&r), "Not logged in");
    }
    let mut c = Client::default();
    let r = reply(handle_command(&mut c, &parse_command("LOGOUT"), &mut reg, &cfg));
    assert_eq!(message(&r), "530 User not logged in\r\n");
    assert!(reg.list_addresses().is_empty());
}

#[test]
fn pwd_rax_and_unknown() {
    let cfg = startup();
    let mut c = logged_in_client();
    let mut reg = ChannelRegistry::new();
    let r = reply(handle_command(&mut c, &parse_command("PWD"), &mut reg, &cfg));
    assert_eq!(message(&r), "257 \"/\"\r\n");
    let r = reply(handle_command(&mut c, &parse_command("RAX"), &mut reg, &cfg));
    assert_eq!(message(&r), "200 Rax is the best\r\n");
    let r = reply(handle_command(&mut c, &parse_command("NOOP"), &mut reg, &cfg));
    assert_eq!(message(&r), "500 Syntax error, command unrecognized\r\n");
}

#[test]
fn readme_passive_mode_reply() {
    let cfg = startup();
    let mut c = logged_in_client();
    let mut reg = ChannelRegistry::new();
    let step = handle_command(&mut c, &parse_command("PASV"), &mut reg, &cfg);
    let (client_addr, data_socket, mode) = match step {
        CommandStep::BindListener { client_addr, data_socket, mode } => (client_addr, data_socket, mode),
        other => panic!("{:?}", other),
    };
    assert_eq!(client_addr, addr());
    assert_eq!(data_socket, SocketAddress::v4(127, 0, 0, 1, 2122));
    assert_eq!(mode, TransferMode::Passive);
    assert!(!c.is_data_channel_init());
    let r = finish_listener_setup(&mut c, &mut reg, client_addr, data_socket, mode, ListenerOutcome::Ready);
    assert_eq!(message(&r), "227 Entering Passive Mode (127,0,0,1,8,74)\r\n");
    assert!(c.is_data_channel_init());
    assert!(reg.contains(&addr()));
}

#[test]
fn passive_bind_failure_drops_channel() {
    let cfg = startup();
    let mut c = logged_in_client();
    let mut reg = ChannelRegistry::new();
    let step = handle_command(&mut c, &parse_command("PASV"), &mut reg, &cfg);
    let data_socket = match step {
        CommandStep::BindListener { data_socket, .. } => data_socket,
        other => panic!("{:?}", other),
    };
    assert!(reg.contains(&addr()));
    let r = finish_listener_setup(
        &mut c,
        &mut reg,
        addr(),
        data_socket,
        TransferMode::Passive,
        ListenerOutcome::BindFailed("address in use".to_string()),
    );
    assert_eq!(message(&r), "425 Can't bind to 127.0.0.1:2122: address in use\r\n");
    assert!(!reg.contains(&addr()));
    assert!(!c.is_data_channel_init());
    let r = finish_listener_setup(
        &mut c,
        &mut reg,
        addr(),
        data_socket,
        TransferMode::Passive,
        ListenerOutcome::ConfigurationFailed("bad".to_string()),
    );
    assert_eq!(message(&r), "425 Listener config failed: bad\r\n");
}

#[test]
fn readme_port_flow() {
    let cfg = startup();
    let mut c = logged_in_client();
    let mut reg = ChannelRegistry::new();
    let step = handle_command(&mut c, &parse_command("PORT 127.0.0.1:8080"), &mut reg, &cfg);
    match step {
        CommandStep::ParsePortAddress(a) => assert_eq!(a, "127.0.0.1:8080"),
        other => panic!("{:?}", other),
    }
    let target = SocketAddress::v4(127, 0, 0, 1, 8080);
    let (a, s) = handle_cmd_port(&c, &mut reg, Some(target)).unwrap();
    assert_eq!((a, s), (addr(), target));
    let r = finish_listener_setup(&mut c, &mut reg, a, s, TransferMode::Active, ListenerOutcome::Ready);
    assert_eq!(message(&r), "200 PORT command successful\r\n");
    assert_eq!(reg.get(&addr()).unwrap().data_socket(), Some(target));
}

#[test]
fn port_refusals() {
    let mut c = logged_in_client();
    let mut reg = ChannelRegistry::new();
    let r = handle_cmd_port(&c, &mut reg, None).unwrap_err();
    assert_eq!(message(&r), "501 Invalid address format\r\n");
    let r = handle_cmd_port(&c, &mut reg, Some(SocketAddress::v4(10, 0, 0, 2, 8080))).unwrap_err();
    assert_eq!(message(&r), "501 IP mismatch: expected 127.0.0.1, got 10.0.0.2\r\n");
    let r = handle_cmd_port(&c, &mut reg, Some(SocketAddress::v4(127, 0, 0, 1, 21))).unwrap_err();
    assert_eq!(message(&r), "501 Port 21 out of range (must be 1024-65535)\r\n");
    let s = SocketAddress::v4(127, 0, 0, 1, 9000);
    let (_, s2) = handle_cmd_port(&c, &mut reg, Some(s)).unwrap();
    let r = finish_listener_setup(
        &mut c,
        &mut reg,
        addr(),
        s2,
        TransferMode::Active,
        ListenerOutcome::BindFailed("denied".to_string()),
    );
    assert_eq!(message(&r), "425 Active mode setup failed\r\n");
    let anonymous = Client::default();
    let r = handle_cmd_port(&anonymous, &mut reg, Some(s)).unwrap_err();
    assert_eq!(message(&r), "530 Not logged in\r\n");
}

fn client_with_channel() -> (Client, ChannelRegistry) {
    let cfg = startup();
    let mut c = logged_in_client();
    let mut reg = ChannelRegistry::new();
    if let CommandStep::BindListener { client_addr, data_socket, mode } =
        handle_command(&mut c, &parse_command("PASV"), &mut reg, &cfg)
    {
        finish_listener_setup(&mut c, &mut reg, client_addr, data_socket, mode, ListenerOutcome::Ready);
    }
    (c, reg)
}

#[test]
fn transfers_need_a_data_channel() {
    let cfg = startup();
    let mut c = logged_in_client();
    let mut reg = ChannelRegistry::new();
    let r = reply(handle_command(&mut c, &parse_command("LIST"), &mut reg, &cfg));
    assert_eq!(message(&r), "425 Data channel not initialized\r\n");
}

#[test]
fn readme_list_flow() {
    let cfg = startup();
    let (mut c, mut reg) = client_with_channel();
    let step = handle_command(&mut c, &parse_command("LIST"), &mut reg, &cfg);
    match step {
        CommandStep::Transfer { kind: TransferKind::List, announcement } => {
            assert_eq!(announcement, "150 Opening ASCII mode data connection for file list\r\n")
        },
        other => panic!("{:?}", other),
    }
    let lines = vec![".|0|0".to_string(), "a.txt|5|100".to_string()];
    let (a, payload) = handle_cmd_list(&c, Ok(lines)).unwrap();
    assert_eq!(a, addr());
    assert_eq!(payload, ".|0|0\r\na.txt|5|100\r\n");
    reg.set_stream(&a, true);
    let r = finish_list(&mut reg, &a, true);
    assert_eq!(message(&r), "226 Directory send OK\r\n");
    let entry = reg.get(&a).unwrap();
    assert!(!entry.data_stream());
    assert!(entry.listener());
    let r = finish_list(&mut reg, &a, false);
    assert_eq!(message(&r), "426 Transfer failed\r\n");
    let r = handle_cmd_list(&c, Err(StorageError::DirectoryNotFound("/gone".to_string()))).unwrap_err();
    assert_eq!(message(&r), "550 /gone: Directory not found\r\n");
    let r = handle_cmd_list(&c, Err(StorageError::IoError("boom".to_string()))).unwrap_err();
    assert_eq!(message(&r), "550 I/O error: boom\r\n");
    let r = handle_cmd_list(&c, Err(StorageError::InvalidPath("x".to_string()))).unwrap_err();
    assert_eq!(message(&r), "550 Directory listing failed\r\n");
}

#[test]
fn retr_flow() {
    let cfg = startup();
    let (mut c, mut reg) = client_with_channel();
    match handle_command(&mut c, &parse_command("RETR report.txt"), &mut reg, &cfg) {
        CommandStep::Transfer { kind: TransferKind::Retrieve(f), announcement } => {
            assert_eq!(f, "report.txt");
            assert_eq!(announcement, "150 Opening BINARY mode data connection for file transfer\r\n");
        },
        other => panic!("{:?}", other),
    }
    let (a, p) = handle_cmd_retr(&c, Ok("./server_root/report.txt".to_string())).unwrap();
    assert_eq!((a, p.as_str()), (addr(), "./server_root/report.txt"));
    let r = handle_cmd_retr(&c, Err(StorageError::FileNotFound("/report.txt".to_string()))).unwrap_err();
    assert_eq!(message(&r), "550 /report.txt: File not found\r\n");
    let r = finish_retr(&mut reg, &a, None);
    assert_eq!(message(&r), "425 Failed to establish data connection\r\n");
    let r = finish_retr(&mut reg, &a, Some(Ok((CommandStatus::Success, "226 Transfer complete\r\n".to_string()))));
    assert!(is_success(&r));
    assert_eq!(message(&r), "226 Transfer complete\r\n");
    let r = finish_retr(
        &mut reg,
        &a,
        Some(Err((CommandStatus::Failure("451 Requested action aborted".to_string()), "x".to_string()))),
    );
    assert_eq!(message(&r), "426 Transfer failed\r\n");
    assert_eq!(failure_reason(&r), "451 Requested action aborted");
}

#[test]
fn stor_flow() {
    let (c, mut reg) = client_with_channel();
    let (a, p, t) = handle_cmd_stor(&c, Ok(("/r/a.txt".to_string(), "/r/a.txt.tmp".to_string()))).unwrap();
    assert_eq!((a, p.as_str(), t.as_str()), (addr(), "/r/a.txt", "/r/a.txt.tmp"));
    let r = handle_cmd_stor(&c, Err(StorageError::FileAlreadyExists("/a.txt".to_string()))).unwrap_err();
    assert_eq!(message(&r), "550 /a.txt: File already exists\r\n");
    let r = handle_cmd_stor(&c, Err(StorageError::UploadInProgress("/a.txt".to_string()))).unwrap_err();
    assert_eq!(message(&r), "550 /a.txt: Upload already in progress\r\n");
    let r = handle_cmd_stor(&c, Err(StorageError::NotADirectory("/a".to_string()))).unwrap_err();
    assert_eq!(message(&r), "550 File storage preparation failed\r\n");
    assert_eq!(message(&finish_stor(&mut reg, &a, true)), "226 Transfer complete\r\n");
    assert_eq!(message(&finish_stor(&mut reg, &a, false)), "426 Transfer failed\r\n");
    assert!(reg.contains(&a));
}

#[test]
fn del_and_cwd_flow() {
    let cfg = startup();
    let mut c = logged_in_client();
    let mut reg = ChannelRegistry::new();
    match handle_command(&mut c, &parse_command("DEL old.txt"), &mut reg, &cfg) {
        CommandStep::Delete(f) => assert_eq!(f, "old.txt"),
        other => panic!("{:?}", other),
    }
    assert_eq!(message(&handle_cmd_del(Ok(()))), "250 File deleted successfully\r\n");
    let r = handle_cmd_del(Err(StorageError::PermissionDenied("/old.txt".to_string())));
    assert_eq!(message(&r), "550 /old.txt: Permission denied\r\n");
    match handle_command(&mut c, &parse_command("CWD docs"), &mut reg, &cfg) {
        CommandStep::ChangeDirectory(p) => assert_eq!(p, "docs"),
        other => panic!("{:?}", other),
    }
    let r = handle_cmd_cwd(&mut c, Ok("/docs".to_string()));
    assert_eq!(message(&r), "250 Directory changed successfully\r\n");
    assert_eq!(c.current_virtual_path(), "/docs");
    let r = handle_cmd_cwd(&mut c, Err(NavigateError::PathTraversal("../..".to_string())));
    assert_eq!(message(&r), "550 Path traversal attempt: ../..\r\n");
    let r = handle_cmd_cwd(&mut c, Err(NavigateError::InvalidPath("x".to_string())));
    assert_eq!(message(&r), "550 Directory change failed\r\n");
    assert_eq!(c.current_virtual_path(), "/docs");
}

#[test]
fn logout_and_quit_release_channel() {
    let cfg = startup();
    let (mut c, mut reg) = client_with_channel();
    let r = reply(handle_command(&mut c, &parse_command("LOGOUT"), &mut reg, &cfg));
    assert_eq!(message(&r), "221 Logout successful\r\n");
    assert!(!reg.contains(&addr()));
    assert!(!c.is_logged_in());
    let (mut c, mut reg) = client_with_channel();
    reply(handle_command(&mut c, &parse_command("QUIT"), &mut reg, &cfg));
    assert!(!reg.contains(&addr()));
}

#[test]
fn session_lines() {
    let cfg = startup();
    let mut clients = ClientRegistry::new();
    let mut reg = ChannelRegistry::new();
    let long = "X".repeat(513);
    match handle_client(&mut clients, &mut reg, addr(), &long, &cfg) {
        SessionAction::Send(m) => assert_eq!(m, "500 Command too long\r\n"),
        other => panic!("{:?}", other),
    }
    match handle_client(&mut clients, &mut reg, addr(), "PWD\r\n", &cfg) {
        SessionAction::Close(Some(m)) => assert_eq!(m, "421 Client session not found\r\n"),
        other => panic!("{:?}", other),
    }
    assert!(admit_client(&mut clients, logged_in_client(), addr(), 10).is_ok());
    match handle_client(&mut clients, &mut reg, addr(), "PWD\r\n", &cfg) {
        SessionAction::Send(m) => assert_eq!(m, "257 \"/\"\r\n"),
        other => panic!("{:?}", other),
    }
    match handle_client(&mut clients, &mut reg, addr(), "PASV\r\n", &cfg) {
        SessionAction::Step(CommandStep::BindListener { .. }) => {},
        other => panic!("{:?}", other),
    }
    match handle_client(&mut clients, &mut reg, addr(), "QUIT\r\n", &cfg) {
        SessionAction::Close(Some(m)) => assert_eq!(m, "221 Goodbye\r\n"),
        other => panic!("{:?}", other),
    }
    end_session(&mut clients, &mut reg, &addr());
    assert_eq!(clients.len(), 0);
    assert!(!reg.contains(&addr()));
}

#[test]
fn admission_limit() {
    let mut clients = ClientRegistry::new();
    assert!(admit_client(&mut clients, logged_in_client(), addr(), 1).is_ok());
    assert_eq!(clients.get(&addr()).unwrap().client_addr(), Some(&addr()));
    let other = SocketAddress::v4(127, 0, 0, 1, 40001);
    let r = admit_client(&mut clients, logged_in_client(), other, 1);
    assert_eq!(r.unwrap_err(), "421 Too many connections. Try again later.\r\n");
    assert_eq!(clients.len(), 1);
}
