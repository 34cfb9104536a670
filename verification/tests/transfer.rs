use rax_ftp_server::client::state::Client;
use rax_ftp_server::error::types::TransferError;
use rax_ftp_server::net::SocketAddress;
use rax_ftp_server::protocol::commands::CommandStatus;
use rax_ftp_server::transfer::channel_registry::{ChannelEntry, ChannelRegistry};
use rax_ftp_server::transfer::data_channel::{
    data_connection_unavailable, listing_payload, setup_data_stream, validate_client_and_data_channel,
    DataStreamPlan,
};
use rax_ftp_server::transfer::file_ops::{
    accept_upload_chunk, handle_file_download, handle_file_upload, transient_retry_delay_ms, upload_begin,
    upload_step, DownloadEnd, UploadAction, UploadEnd, UploadEvent, UploadState, BUFFER_SIZE,
};
use rax_ftp_server::transfer::operations::{
    cleanup_data_channel, cleanup_data_stream_only, finish_data_channel_setup, setup_active_mode,
    setup_passive_mode, ListenerOutcome,
};

fn client(port: u16) -> SocketAddress {
    SocketAddress::v4(127, 0, 0, 1, port)
}

fn entry_on(socket: SocketAddress) -> ChannelEntry {
    let mut e = ChannelEntry::default();
    e.set_data_socket(Some(socket));
    e
}

#[test]
fn registry_basics() {
    let mut reg = ChannelRegistry::new();
    assert!(!reg.contains(&client(1)));
    reg.insert(client(1), entry_on(client(2122)));
    assert!(reg.contains(&client(1)));
    assert!(reg.is_socket_taken(&client(2122)));
    assert!(!reg.is_socket_taken(&client(2123)));
    // A socket held by another client is not handed out twice.
    reg.insert(client(2), entry_on(client(2122)));
    assert!(!reg.contains(&client(2)));
    reg.insert(client(2), entry_on(client(2124)));
    // A client's own socket does not block replacing its entry.
    let mut again = entry_on(client(2124));
    again.set_data_stream(true);
    reg.insert(client(2), again);
    assert!(reg.get(&client(2)).unwrap().data_stream());
    let mut addrs = reg.list_addresses();
    addrs.sort_by_key(|a| a.port);
    assert_eq!(addrs, vec![client(1), client(2)]);
    assert_eq!(reg.next_available_socket(), Some(client(2123)));
    assert_eq!(reg.remove(&client(1)).unwrap().data_socket(), Some(client(2122)));
    assert!(reg.remove(&client(1)).is_none());
    assert_eq!(reg.next_available_socket(), Some(client(2122)));
}

#[test]
fn passive_ports_are_distinct_and_replace() {
    let mut reg = ChannelRegistry::new();
    let a = setup_passive_mode(&mut reg, client(1)).unwrap().data_socket;
    let b = setup_passive_mode(&mut reg, client(2)).unwrap().data_socket;
    assert_eq!((a.port, b.port), (2122, 2123));
    // A new PASV replaces the client's previous channel.
    let a2 = setup_passive_mode(&mut reg, client(1)).unwrap().data_socket;
    assert_eq!(a2.port, 2122);
    assert_eq!(reg.list_addresses().len(), 2);
    let e = reg.get(&client(1)).unwrap();
    assert_eq!(e.owner_ip(), Some(client(1).ip));
    assert!(e.listener());
    assert!(!e.data_stream());
}

#[test]
fn passive_range_exhausted() {
    let mut reg = ChannelRegistry::new();
    for i in 0..100u16 {
        assert!(setup_passive_mode(&mut reg, client(10000 + i)).is_ok());
    }
    assert!(matches!(setup_passive_mode(&mut reg, client(1)), Err(TransferError::NoAvailablePort)));
    assert!(!reg.contains(&client(1)));
}

#[test]
fn active_mode_checks() {
    let mut reg = ChannelRegistry::new();
    assert!(matches!(setup_active_mode(&mut reg, client(1), None),
        Err(TransferError::InvalidPortCommand(ref m)) if m == "Invalid address format"));
    match setup_active_mode(&mut reg, client(1), Some(SocketAddress::v4(10, 0, 0, 1, 5000))) {
        Err(TransferError::IpMismatch { expected, provided }) => {
            assert_eq!((expected.as_str(), provided.as_str()), ("127.0.0.1", "10.0.0.1"))
        },
        other => panic!("{:?}", other),
    }
    assert!(matches!(setup_active_mode(&mut reg, client(1), Some(client(1023))),
        Err(TransferError::InvalidPortRange(1023))));
    let r = setup_active_mode(&mut reg, client(1), Some(client(1024))).unwrap();
    assert_eq!(r.data_socket, client(1024));
    assert_eq!(reg.get(&client(1)).unwrap().data_socket(), Some(client(1024)));
}

#[test]
fn listener_outcomes() {
    let mut reg = ChannelRegistry::new();
    let s = setup_passive_mode(&mut reg, client(1)).unwrap().data_socket;
    assert_eq!(finish_data_channel_setup(&mut reg, client(1), s, ListenerOutcome::Ready).unwrap(), s);
    assert!(reg.contains(&client(1)));
    match finish_data_channel_setup(&mut reg, client(1), s, ListenerOutcome::BindFailed("in use".into())) {
        Err(TransferError::PortBindingFailed(a, e)) => assert_eq!((a, e.as_str()), (s, "in use")),
        other => panic!("{:?}", other),
    }
    assert!(!reg.contains(&client(1)));
}

#[test]
fn stream_cleanup_keeps_channel() {
    let mut reg = ChannelRegistry::new();
    setup_passive_mode(&mut reg, client(1)).unwrap();
    reg.set_stream(&client(1), true);
    assert!(reg.get(&client(1)).unwrap().data_stream());
    cleanup_data_stream_only(&mut reg, &client(1));
    let e = reg.get(&client(1)).unwrap();
    assert!(!e.data_stream());
    assert!(e.listener());
    cleanup_data_stream_only(&mut reg, &client(9));
    cleanup_data_channel(&mut reg, &client(1));
    assert!(!reg.contains(&client(1)));
}

#[test]
fn data_stream_plans() {
    let mut reg = ChannelRegistry::new();
    assert_eq!(setup_data_stream(&reg, &client(1)), DataStreamPlan::Unavailable);
    reg.insert(client(1), entry_on(client(5000)));
    assert_eq!(setup_data_stream(&reg, &client(1)), DataStreamPlan::Connect(client(5000)));
    setup_passive_mode(&mut reg, client(2)).unwrap();
    assert_eq!(setup_data_stream(&reg, &client(2)), DataStreamPlan::Accept);
    reg.insert(client(3), ChannelEntry::default());
    assert_eq!(setup_data_stream(&reg, &client(3)), DataStreamPlan::Unavailable);
    assert!(matches!(data_connection_unavailable(),
        TransferError::DataChannelSetupFailed(ref m) if m == "Failed to establish data connection"));
}

#[test]
fn payloads() {
    assert_eq!(listing_payload(&vec![]), "\r\n");
    assert_eq!(listing_payload(&vec!["a".to_string()]), "a\r\n");
    let lines = vec![".|0|0".to_string(), "f|1|2".to_string(), "d/|0|3".to_string()];
    assert_eq!(listing_payload(&lines), lines.join("\r\n") + "\r\n");
}

#[test]
fn transfer_gate() {
    let mut c = Client::default();
    assert!(!validate_client_and_data_channel(&c));
    c.set_logged_in(true);
    assert!(!validate_client_and_data_channel(&c));
    c.set_data_channel_init(true);
    assert!(validate_client_and_data_channel(&c));
}

#[test]
fn upload_limits_and_retries() {
    let hundred: u64 = 100 * 1024 * 1024;
    assert_eq!(accept_upload_chunk(0, 8192, hundred), Some(8192));
    assert_eq!(accept_upload_chunk(hundred - 10, 10, hundred), Some(hundred));
    assert_eq!(accept_upload_chunk(hundred - 10, 11, hundred), None);
    assert_eq!(accept_upload_chunk(hundred, BUFFER_SIZE, hundred), None);
    // The limit is the configured one: 100 MiB passes under a limit of 500.
    let five_hundred: u64 = 500 * 1024 * 1024;
    assert_eq!(accept_upload_chunk(hundred, 1, five_hundred), Some(hundred + 1));
    assert_eq!(accept_upload_chunk(five_hundred, 1, five_hundred), None);
    assert_eq!(accept_upload_chunk(u64::MAX - 1, BUFFER_SIZE, u64::MAX), None);
    assert_eq!(transient_retry_delay_ms(0), Some(100));
    assert_eq!(transient_retry_delay_ms(2), Some(300));
    assert_eq!(transient_retry_delay_ms(3), None);
}

fn reply_of(r: Result<(CommandStatus, String), (CommandStatus, String)>) -> (bool, String) {
    match r {
        Ok((_, m)) => (true, m),
        Err((_, m)) => (false, m),
    }
}

#[test]
fn transfer_replies() {
    assert_eq!(reply_of(handle_file_upload(UploadEnd::Completed)), (true, "226 Transfer complete\r\n".into()));
    assert_eq!(reply_of(handle_file_upload(UploadEnd::TooLarge(100))),
        (false, "552 Insufficient storage space (file too large, max 100MB)\r\n".into()));
    assert_eq!(reply_of(handle_file_upload(UploadEnd::TooLarge(500))),
        (false, "552 Insufficient storage space (file too large, max 500MB)\r\n".into()));
    assert_eq!(reply_of(handle_file_upload(UploadEnd::CreateFailed)), (false, "550 Cannot create file\r\n".into()));
    assert_eq!(reply_of(handle_file_upload(UploadEnd::RenameFailed)),
        (false, "450 Requested file action not taken\r\n".into()));
    match handle_file_upload(UploadEnd::ReadFailed) {
        Err((CommandStatus::Failure(reason), m)) => {
            assert_eq!(reason, "426 Connection closed; transfer aborted");
            assert_eq!(m, "426 Connection closed; transfer aborted\r\n");
        },
        other => panic!("{:?}", other),
    }
    assert_eq!(reply_of(handle_file_download(DownloadEnd::OpenFailed)), (false, "550 Failed to open file\r\n".into()));
    assert_eq!(reply_of(handle_file_download(DownloadEnd::ReadFailed)), (false, "451 Requested action aborted\r\n".into()));
    assert_eq!(reply_of(handle_file_download(DownloadEnd::WriteFailed)),
        (false, "426 Connection closed; transfer aborted\r\n".into()));
    assert_eq!(reply_of(handle_file_download(DownloadEnd::Completed)), (true, "226 Transfer complete\r\n".into()));
}

#[test]
fn entry_takes() {
    let mut e = entry_on(client(2122));
    e.set_data_stream(true);
    e.set_listener(true);
    assert!(e.take_data_stream());
    assert!(!e.data_stream());
    assert!(e.take_listener());
    assert!(!e.take_listener());
    assert_eq!(e.take_data_socket(), Some(client(2122)));
    assert_eq!(e.data_socket(), None);
    e.set_owner_ip(Some(client(1).ip));
    e.cleanup_all();
    assert_eq!(e.owner_ip(), None);
}

#[test]
fn entry_socket_change() {
    let mut e = entry_on(client(2122));
    if let Some(s) = e.data_socket_mut() {
        s.port = 2130;
    }
    assert_eq!(e.data_socket(), Some(client(2130)));
    let mut empty = ChannelEntry::default();
    assert!(empty.data_socket_mut().is_none());
}

/// Feeds events to an upload until it ends; returns the actions taken.
fn run_upload(max_mb: u64, events: &[UploadEvent]) -> Vec<UploadAction> {
    let mut state = upload_begin(max_mb);
    let mut actions = Vec::new();
    for e in events {
        let (next, a) = upload_step(state, *e);
        state = next;
        actions.push(a);
    }
    actions
}

#[test]
fn upload_completes_after_rename() {
    let a = run_upload(1, &[
        UploadEvent::Created(true),
        UploadEvent::Read(Some(10)),
        UploadEvent::Written(true),
        UploadEvent::Read(Some(0)),
        UploadEvent::Flushed(true),
        UploadEvent::Renamed(true),
    ]);
    assert_eq!(a, vec![
        UploadAction::Read,
        UploadAction::Write(10),
        UploadAction::Read,
        UploadAction::Flush,
        UploadAction::Rename,
        UploadAction::End(UploadEnd::Completed),
    ]);
}

#[test]
fn upload_failures_remove_the_temp_file() {
    assert_eq!(run_upload(1, &[UploadEvent::Created(false)]), vec![UploadAction::End(UploadEnd::CreateFailed)]);
    let a = run_upload(1, &[
        UploadEvent::Created(true),
        UploadEvent::Read(None),
        UploadEvent::Read(None),
        UploadEvent::Read(None),
        UploadEvent::Read(None),
    ]);
    assert_eq!(a, vec![
        UploadAction::Read,
        UploadAction::RetryAfter(100),
        UploadAction::RetryAfter(200),
        UploadAction::RetryAfter(300),
        UploadAction::RemoveTempAndEnd(UploadEnd::ReadFailed),
    ]);
    let a = run_upload(1, &[UploadEvent::Created(true), UploadEvent::Read(Some(5)), UploadEvent::Written(false)]);
    assert_eq!(a[2], UploadAction::RemoveTempAndEnd(UploadEnd::WriteFailed));
    let a = run_upload(1, &[UploadEvent::Created(true), UploadEvent::Read(Some(0)), UploadEvent::Flushed(false)]);
    assert_eq!(a[2], UploadAction::RemoveTempAndEnd(UploadEnd::FlushFailed));
    let a = run_upload(1, &[
        UploadEvent::Created(true),
        UploadEvent::Read(Some(0)),
        UploadEvent::Flushed(true),
        UploadEvent::Renamed(false),
    ]);
    assert_eq!(a[3], UploadAction::RemoveTempAndEnd(UploadEnd::RenameFailed));
}

#[test]
fn upload_limit_is_the_configured_one() {
    // One MiB fits a limit of one MiB; one byte more does not.
    let (s, a) = upload_step(UploadState::Receiving { max_mb: 1, received: 1048576 - 8192, retries: 0 },
        UploadEvent::Read(Some(8192)));
    assert_eq!(a, UploadAction::Write(8192));
    assert_eq!(s, UploadState::Writing { max_mb: 1, received: 1048576 });
    let (s, a) = upload_step(UploadState::Receiving { max_mb: 1, received: 1048576, retries: 0 },
        UploadEvent::Read(Some(1)));
    assert_eq!(a, UploadAction::RemoveTempAndEnd(UploadEnd::TooLarge(1)));
    assert_eq!(s, UploadState::Finished);
    let (_, a) = upload_step(UploadState::Receiving { max_mb: 500, received: 200 * 1048576, retries: 0 },
        UploadEvent::Read(Some(1)));
    assert_eq!(a, UploadAction::Write(1));
}
