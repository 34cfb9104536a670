use rax_ftp_server::addr_map::AddressMap;
use rax_ftp_server::lite::auth::{validate_password as lite_validate_password, validate_user as lite_validate_user, AuthError};
use rax_ftp_server::lite::channel_registry::ChannelRegistry;
use rax_ftp_server::lite::client::Client;
use rax_ftp_server::lite::client_handler::{
    end_session, handle_client, session_output, take_commands, FrameOutcome, LiteSessionAction,
};
use rax_ftp_server::lite::command::{parse_command, Command, CommandData, CommandResult, CommandStatus};
use rax_ftp_server::lite::commands::parser::{parse_command as parse_reduced, Command as Reduced};
use rax_ftp_server::lite::commands::utils::require_auth;
use rax_ftp_server::lite::data_channel::{
    accept_retry_delay_ms, accept_step, return_listener, take_listener, AcceptAction, AcceptEvent, AcceptState,
};
use rax_ftp_server::lite::file_transfer::{handle_file_download, handle_file_upload, LiteDownloadEnd, LiteUploadEnd};
use rax_ftp_server::lite::handlers::{
    check_port, check_retrieve, check_store, finish_cwd, finish_delete, finish_list, finish_listener,
    finish_pwd, finish_transfer, handle_command, LiteStep,
};
use rax_ftp_server::lite::minimal::{parse_command as parse_minimal, Command as Minimal};
use rax_ftp_server::lite::server::{admit_client, command_socket, greeting, MAX_CLIENTS};
use rax_ftp_server::net::SocketAddress;
use rax_ftp_server::transfer::channel_registry::ChannelEntry;
use rax_ftp_server::transfer::modes::TransferMode;
use rax_ftp_server::transfer::operations::ListenerOutcome;

fn addr() -> SocketAddress {
    SocketAddress::v4(127, 0, 0, 1, 50000)
}

fn msg(r: &CommandResult) -> &str {
    r.message.as_deref().unwrap()
}

fn reply(s: LiteStep) -> CommandResult {
    match s {
        LiteStep::Reply(r) => r,
        other => panic!("{:?}", other),
    }
}

fn logged_in() -> Client {
    let reg = ChannelRegistry::new();
    let mut c = Client::default();
    c.set_client_addr(Some(addr()));
    handle_command(&mut c, &parse_command("USER alice"), &reg);
    handle_command(&mut c, &parse_command("PASS alice123"), &reg);
    c
}

#[test]
fn auth_error_parts() {
    let e = AuthError::new("Invalid username", "530");
    assert_eq!(e.message(), "Invalid username");
    assert_eq!(e.ftp_response(), "530");
    assert_eq!(lite_validate_user("bob").unwrap(), "331 Password required\r\n");
    assert_eq!(lite_validate_user("eve").unwrap_err().message(), "Invalid username");
    assert_eq!(lite_validate_password("bob", "bob123").unwrap(), "230 Login successful\r\n");
    assert_eq!(lite_validate_password("bob", "x").unwrap_err().message(), "Invalid password");
    assert_eq!(lite_validate_password("eve", "x").unwrap_err().message(), "Invalid username");
}

#[test]
fn parsers() {
    assert_eq!(parse_command("pasv"), Command::PASV());
    assert_eq!(parse_command("CWD"), Command::CWD(String::new()));
    assert_eq!(parse_command("del  a.txt "), Command::DEL("a.txt".into()));
    assert_eq!(parse_command("HELLO"), Command::UNKNOWN);
    assert_eq!(parse_reduced("  hello there "), Reduced::UNKNOWN("hello there".into()));
    assert_eq!(parse_reduced("DEL a"), Reduced::UNKNOWN("DEL a".into()));
    assert_eq!(parse_reduced("retr f"), Reduced::RETR("f".into()));
    assert_eq!(parse_reduced("PASV"), Reduced::PASV());
    assert_eq!(parse_minimal("q"), Minimal::Quit);
    assert_eq!(parse_minimal(" QUIT "), Minimal::Quit);
    assert_eq!(parse_minimal("quit"), Minimal::Unknown("quit".into()));
    assert_eq!(parse_minimal("USER  alice "), Minimal::User("alice".into()));
    assert_eq!(parse_minimal("PASS x"), Minimal::Pass("x".into()));
    assert_eq!(parse_minimal("USER"), Minimal::Unknown("USER".into()));
    assert_eq!(parse_minimal("LIST"), Minimal::List);
}

#[test]
fn login_and_basic_commands() {
    let reg = ChannelRegistry::new();
    let mut c = Client::default();
    let r = reply(handle_command(&mut c, &parse_command("PASS x"), &reg));
    assert_eq!(msg(&r), "530 Please enter the username first\r\n");
    let r = reply(handle_command(&mut c, &parse_command("USER eve"), &reg));
    assert_eq!(msg(&r), "530 Invalid username\r\n");
    let r = reply(handle_command(&mut c, &parse_command("LIST"), &reg));
    assert_eq!(msg(&r), "530 Not logged in\r\n");
    let mut c = logged_in();
    assert!(c.is_logged_in());
    assert!(matches!(handle_command(&mut c, &parse_command("LIST"), &reg), LiteStep::ListDirectory));
    assert!(matches!(handle_command(&mut c, &parse_command("PWD"), &reg), LiteStep::PrintDirectory));
    let r = reply(handle_command(&mut c, &parse_command("RAX"), &reg));
    assert_eq!(msg(&r), "200 Rax is the best\r\n");
    let r = reply(handle_command(&mut c, &parse_command("LOGOUT"), &reg));
    assert_eq!(msg(&r), "221 Logout successful\r\n");
    let r = reply(handle_command(&mut c, &parse_command("LOGOUT"), &reg));
    assert_eq!(msg(&r), "530 User Not logged in\r\n");
}

#[test]
fn file_command_gates() {
    let reg = ChannelRegistry::new();
    let mut c = logged_in();
    let r = reply(handle_command(&mut c, &parse_command("RETR a.txt"), &reg));
    assert_eq!(msg(&r), "530 Data channel not initialized\r\n");
    c.set_data_channel_init(true);
    let r = reply(handle_command(&mut c, &parse_command("RETR"), &reg));
    assert_eq!(msg(&r), "501 Syntax error in parameters or arguments\r\n");
    let r = reply(handle_command(&mut c, &parse_command("STOR ../x"), &reg));
    assert_eq!(msg(&r), "550 Filename invalid\r\n");
    let r = reply(handle_command(&mut c, &parse_command("STOR a|b"), &reg));
    assert_eq!(msg(&r), "550 Filename invalid\r\n");
    assert!(matches!(handle_command(&mut c, &parse_command("STOR a.txt"), &reg), LiteStep::StoreFile(ref f) if f == "a.txt"));
    let r = reply(handle_command(&mut c, &parse_command("DEL a/b"), &reg));
    assert_eq!(msg(&r), "550 Invalid filename\r\n");
    assert!(matches!(handle_command(&mut c, &parse_command("DEL a:b"), &reg), LiteStep::DeleteFile(ref f) if f == "a:b"));
    let r = reply(handle_command(&mut c, &parse_command("CWD"), &reg));
    assert_eq!(msg(&r), "501 Syntax error in parameters or arguments\r\n");
}

#[test]
fn completions() {
    let r = finish_list(Ok(vec!["a".into(), "b".into()]));
    assert_eq!(msg(&r), "226 Directory listing successful\r\n");
    assert!(matches!(r.data, Some(CommandData::DirectoryListing(ref v)) if v.len() == 2));
    assert_eq!(msg(&finish_list(Err("denied".into()))), "550 Failed to list directory\r\n");
    assert_eq!(msg(&finish_pwd(Ok("/tmp".into()))), "257 \"/tmp\"\r\n");
    assert_eq!(msg(&finish_pwd(Err("x".into()))), "550 Failed to get current directory\r\n");
    assert_eq!(msg(&finish_delete(Ok(()))), "250 File deleted successfully\r\n");
    assert!(matches!(finish_delete(Err("busy".into())).status, CommandStatus::Failure(ref m) if m == "busy"));
    assert_eq!(msg(&finish_cwd(Err("no".into()))), "550 Failed to change directory\r\n");
    let c = logged_in();
    assert_eq!(msg(&check_retrieve(&c, false).unwrap_err()), "550 File not found\r\n");
    assert_eq!(check_retrieve(&c, true).unwrap(), addr());
    assert_eq!(msg(&check_store(&c, true).unwrap_err()), "550 File already exists\r\n");
    assert_eq!(msg(&check_store(&Client::default(), false).unwrap_err()), "500 Internal server error\r\n");
    assert_eq!(msg(&finish_transfer(None)), "425 Can't open data connection\r\n");
    let up = handle_file_upload(LiteUploadEnd::CreateFailed);
    assert_eq!(msg(&finish_transfer(Some(up))), "550 Requested action not taken\r\n");
    let down = handle_file_download(LiteDownloadEnd::Completed);
    assert_eq!(msg(&finish_transfer(Some(down))), "226 Transfer complete\r\n");
    assert!(matches!(handle_file_download(LiteDownloadEnd::OpenFailed), Err((_, ref m)) if m == "550 Failed to open file\r\n"));
}

#[test]
fn passive_and_port() {
    let mut reg = ChannelRegistry::new();
    let mut c = logged_in();
    let s = match handle_command(&mut c, &parse_command("PASV"), &reg) {
        LiteStep::BindPassive(s) => s,
        other => panic!("{:?}", other),
    };
    assert_eq!(s.port, 2122);
    let r = finish_listener(&mut c, &mut reg, addr(), s, TransferMode::Passive, ListenerOutcome::Ready);
    assert_eq!(msg(&r), "227 Entering Passive Mode (127,0,0,1,8,74)\r\n");
    assert!(c.is_data_channel_init());
    let r = reply(handle_command(&mut c, &parse_command("PASV"), &reg));
    assert_eq!(msg(&r), "425 Data connection already initialized\r\n");
    assert!(matches!(handle_command(&mut c, &parse_command("PORT 127.0.0.1:3000"), &reg), LiteStep::ParsePort(_)));
    let r = check_port(&c, &reg, Some(SocketAddress::v4(127, 0, 0, 1, 3000))).unwrap_err();
    assert_eq!(msg(&r), "425 Data connection already initialized\r\n");
    let fresh = ChannelRegistry::new();
    assert_eq!(msg(&check_port(&c, &fresh, None).unwrap_err()), "501 Invalid address format. Use IP::PORT\r\n");
    assert_eq!(msg(&check_port(&c, &fresh, Some(SocketAddress::v4(10, 0, 0, 1, 3000))).unwrap_err()),
        "501 IP address in PORT must match control connection\r\n");
    assert_eq!(msg(&check_port(&c, &fresh, Some(SocketAddress::v4(127, 0, 0, 1, 80))).unwrap_err()),
        "501 Port must be between 1024 and 65535\r\n");
    assert_eq!(check_port(&c, &fresh, Some(SocketAddress::v4(127, 0, 0, 1, 3000))).unwrap().port, 3000);
    let mut fresh = fresh;
    let r = finish_listener(&mut c, &mut fresh, addr(), s, TransferMode::Active, ListenerOutcome::BindFailed("x".into()));
    assert_eq!(msg(&r), "425 Can't open data connection\r\n");
    assert!(!fresh.contains(&addr()));
}

#[test]
fn registry_and_listener_handoff() {
    let mut reg = ChannelRegistry::default();
    assert_eq!(ChannelRegistry::data_port_range(), 2122..2222);
    let mut e = ChannelEntry::default();
    e.set_data_socket(Some(SocketAddress::v4(127, 0, 0, 1, 2122)));
    e.set_listener(true);
    reg.insert(addr(), e);
    assert!(reg.is_socket_taken(&SocketAddress::v4(127, 0, 0, 1, 2122)));
    assert_eq!(reg.next_available_socket(), Some(SocketAddress::v4(127, 0, 0, 1, 2123)));
    assert!(take_listener(&mut reg, &addr()));
    assert!(!take_listener(&mut reg, &addr()));
    return_listener(&mut reg, &addr());
    assert!(reg.get(&addr()).unwrap().listener());
    assert_eq!(reg.list_addresses(), vec![addr()]);
    assert!(reg.remove(&addr()).is_some());
    assert_eq!(accept_retry_delay_ms(0), Some(100));
    assert_eq!(accept_retry_delay_ms(3), Some(800));
    assert_eq!(accept_retry_delay_ms(9), Some(51200));
    assert_eq!(accept_retry_delay_ms(10), None);
}

#[test]
fn framing() {
    let mut buf = String::new();
    match take_commands(&mut buf, "USER alice\r\nPASS ali") {
        FrameOutcome::Commands(v) => assert_eq!(v, vec!["USER alice".to_string()]),
        other => panic!("{:?}", other),
    }
    assert_eq!(buf, "PASS ali");
    match take_commands(&mut buf, "ce123\r\n  LIST  \r\n") {
        FrameOutcome::Commands(v) => assert_eq!(v, vec!["PASS alice123".to_string(), "LIST".to_string()]),
        other => panic!("{:?}", other),
    }
    assert_eq!(buf, "");
    let big = "x".repeat(600);
    assert!(matches!(take_commands(&mut buf, &big), FrameOutcome::TooLong));
    assert_eq!(buf, "");
}

#[test]
fn session_flow() {
    let reg = ChannelRegistry::new();
    let mut clients: AddressMap<Client> = AddressMap::new();
    match handle_client(&mut clients, &reg, addr(), "PWD") {
        LiteSessionAction::NotFound(m) => assert_eq!(m, "421 Client session not found\r\n"),
        other => panic!("{:?}", other),
    }
    assert!(admit_client(&mut clients, logged_in(), addr()).is_ok());
    assert!(matches!(handle_client(&mut clients, &reg, addr(), "pwd"), LiteSessionAction::Step(LiteStep::PrintDirectory)));
    let listing = finish_list(Ok(vec!["a".into(), "b".into()]));
    let (lines, close) = session_output(&listing);
    assert_eq!(lines, vec!["a\r\nb\r\n".to_string(), "226 Directory listing successful\r\n".to_string()]);
    assert!(!close);
    match handle_client(&mut clients, &reg, addr(), "QUIT") {
        LiteSessionAction::Step(LiteStep::Reply(r)) => {
            let (lines, close) = session_output(&r);
            assert_eq!(lines, vec!["221 Goodbye\r\n".to_string()]);
            assert!(close);
        },
        other => panic!("{:?}", other),
    }
    end_session(&mut clients, &addr());
    assert_eq!(clients.len(), 0);
}

#[test]
fn server_settings() {
    assert_eq!(command_socket(), "127.0.0.1:2121");
    assert_eq!(greeting(), "220 Welcome to the Rax FTP server\r\n");
    let mut clients: AddressMap<Client> = AddressMap::new();
    for i in 0..MAX_CLIENTS {
        assert!(admit_client(&mut clients, Client::default(), SocketAddress::v4(127, 0, 0, 1, 1000 + i as u16)).is_ok());
    }
    assert_eq!(admit_client(&mut clients, Client::default(), addr()).unwrap_err(),
        "421 Too many connections. Try again later.\r\n");
}

#[test]
fn login_check() {
    let (ok, m) = require_auth(&Client::default());
    assert!(!ok);
    assert_eq!(m.unwrap(), "530 Not logged in\r\n");
    let (ok, m) = require_auth(&logged_in());
    assert!(ok && m.is_none());
}

fn registry_with_listener() -> ChannelRegistry {
    let mut reg = ChannelRegistry::default();
    let mut e = ChannelEntry::default();
    e.set_data_socket(Some(SocketAddress::v4(127, 0, 0, 1, 2122)));
    e.set_listener(true);
    reg.insert(addr(), e);
    assert!(take_listener(&mut reg, &addr()));
    reg
}

#[test]
fn accept_polls_ten_times_then_gives_back() {
    let mut reg = registry_with_listener();
    let (mut state, action) = accept_step(&mut reg, &addr(), AcceptState::Configuring, AcceptEvent::Configured(true));
    assert_eq!(action, AcceptAction::Poll);
    let mut polls = 1;
    let mut delays = Vec::new();
    loop {
        let (next, action) = accept_step(&mut reg, &addr(), state, AcceptEvent::WouldBlock);
        state = next;
        match action {
            AcceptAction::PollAfter(ms) => {
                delays.push(ms);
                polls += 1;
                assert!(!reg.get(&addr()).unwrap().listener());
            }
            AcceptAction::GiveBackAfter(ms) => {
                delays.push(ms);
                break;
            }
            other => panic!("unexpected {:?}", other),
        }
    }
    assert_eq!(polls, 10);
    assert_eq!(delays, vec![100, 200, 400, 800, 1600, 3200, 6400, 12800, 25600, 51200]);
    assert_eq!(state, AcceptState::Done);
    assert!(reg.get(&addr()).unwrap().listener());
}

#[test]
fn accept_connects_or_gives_back() {
    let mut reg = registry_with_listener();
    let (s, _) = accept_step(&mut reg, &addr(), AcceptState::Configuring, AcceptEvent::Configured(true));
    let (s, a) = accept_step(&mut reg, &addr(), s, AcceptEvent::WouldBlock);
    assert_eq!(a, AcceptAction::PollAfter(100));
    let (s, a) = accept_step(&mut reg, &addr(), s, AcceptEvent::Accepted);
    assert_eq!((s, a), (AcceptState::Done, AcceptAction::Connected));
    assert!(!reg.get(&addr()).unwrap().listener());

    let mut reg = registry_with_listener();
    let (_, a) = accept_step(&mut reg, &addr(), AcceptState::Configuring, AcceptEvent::Configured(false));
    assert_eq!(a, AcceptAction::GiveBack);
    assert!(reg.get(&addr()).unwrap().listener());

    let mut reg = registry_with_listener();
    let (_, a) = accept_step(&mut reg, &addr(), AcceptState::Polling { attempt: 4 }, AcceptEvent::Failed);
    assert_eq!(a, AcceptAction::GiveBack);
    assert!(reg.get(&addr()).unwrap().listener());
}
