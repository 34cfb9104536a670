//! The command handlers of an FTP session: each command's effect on the
//! client state and the data channel registry, and the reply it produces.
//! Commands whose work touches the file system or the network are handed
//! back to the caller as a request; the caller performs it and passes the
//! outcome to the matching completion function.
use crate::auth::credentials::stored_password;
use crate::auth::validator::{password_check, user_check, valid_input, validate_password, validate_user};
use crate::client::state::{username_problem, Client, ClientView};
use crate::config::StartupConfig;
use crate::error::types::{AuthError, AuthErrorView};
use crate::protocol::commands::{
    coded, coded_failure, failure, failure_reply, success, success_reply, Command, CommandResult,
    CommandResultView, CommandStatus, StatusView,
};
use crate::client::state::virtual_path_problem;
use crate::error::types::{NavigateError, StorageError, TransferErrorView};
use crate::net::{host_port_text, host_port_to_string, SocketAddress};
use crate::protocol::commands::CommandView;
use crate::protocol::replies::{
    cwd_error_reason, cwd_error_reply, delete_error_reason, delete_error_reply, list_error_reason,
    list_error_reply, pasv_error_reason, pasv_error_reply, port_error_reply, port_error_reply_spec,
    retrieve_error_reason, retrieve_error_reply, store_error_reason, store_error_reply,
};
use crate::storage::operations::string_seqs;
use crate::text::{chars_of, extend_chars, string_from_chars};
use crate::transfer::channel_registry::{
    first_free_port, loopback_socket, socket_taken, ChannelEntryView, ChannelRegistry,
};
use crate::transfer::data_channel::{crlf_joined, listing_payload, validate_client_and_data_channel};
use crate::transfer::file_ops::TransferReply;
use crate::transfer::modes::TransferMode;
use crate::transfer::operations::{
    active_mode_spec, bound_entry, lemma_first_free_port, cleanup_data_stream_only, finish_data_channel_setup,
    register_spec, setup_active_mode, setup_passive_mode, ListenerOutcome,
};
use vstd::prelude::*;

verus! {

/// The reason reported when a user name is refused.
pub open spec fn user_error_text(e: AuthErrorView) -> Seq<char> {
    match e {
        AuthErrorView::InvalidUsername(u) => "Invalid username: "@ + u,
        AuthErrorView::UserNotFound(u) => "Unknown user '"@ + u + "'"@,
        AuthErrorView::MalformedInput(_) => "Malformed input"@,
        _ => "Authentication error"@,
    }
}

/// The reason reported when a password is refused.
pub open spec fn pass_error_text(e: AuthErrorView) -> Seq<char> {
    match e {
        AuthErrorView::InvalidPassword(u) => "Invalid password for user: "@ + u,
        AuthErrorView::UserNotFound(u) => "Unknown user '"@ + u + "'"@,
        AuthErrorView::MalformedInput(_) => "Malformed input"@,
        _ => "Authentication failed"@,
    }
}

/// What `USER name` does to a client and replies. An accepted name marks the
/// user valid, not logged in, and records the name (unless it exceeds the
/// configured length); a refused one clears all three.
pub open spec fn user_outcome(c: ClientView, name: Seq<char>, max: usize) -> (
    ClientView,
    CommandResultView,
) {
    match user_check(name) {
        Ok(()) => (
            ClientView {
                is_user_valid: true,
                is_logged_in: false,
                username: if username_problem(name, max) is None {
                    Some(name)
                } else {
                    c.username
                },
                ..c
            },
            success_reply("331 Password required\r\n"@),
        ),
        Err(e) => (
            ClientView { is_user_valid: false, is_logged_in: false, username: None, ..c },
            coded_failure("530"@, user_error_text(e)),
        ),
    }
}

/// What `PASS password` does to a client and replies: it needs an accepted
/// user name, and logs the client in exactly when the password is the one
/// stored for that name.
pub open spec fn pass_outcome(c: ClientView, password: Seq<char>) -> (ClientView, CommandResultView) {
    if !c.is_user_valid {
        (c, failure_reply("Username not provided"@, "530 Username not provided\r\n"@))
    } else {
        match c.username {
            None => (c, failure_reply("Username not set"@, "530 Username not set\r\n"@)),
            Some(u) => match password_check(u, password) {
                Ok(()) => (
                    ClientView { is_logged_in: true, ..c },
                    success_reply("230 Login successful\r\n"@),
                ),
                Err(e) => (
                    ClientView { is_logged_in: false, ..c },
                    coded_failure("530"@, pass_error_text(e)),
                ),
            },
        }
    }
}

fn user_error_chars(e: &AuthError) -> (v: Vec<char>)
    ensures
        v@ == user_error_text(e@),
{
    match e {
        AuthError::InvalidUsername(u) => {
            let mut v = chars_of("Invalid username: ");
            extend_chars(&mut v, &chars_of(u.as_str()));
            v
        },
        AuthError::UserNotFound(u) => {
            let mut v = chars_of("Unknown user '");
            extend_chars(&mut v, &chars_of(u.as_str()));
            extend_chars(&mut v, &chars_of("'"));
            v
        },
        AuthError::MalformedInput(_) => chars_of("Malformed input"),
        _ => chars_of("Authentication error"),
    }
}

fn pass_error_chars(e: &AuthError) -> (v: Vec<char>)
    ensures
        v@ == pass_error_text(e@),
{
    match e {
        AuthError::InvalidPassword(u) => {
            let mut v = chars_of("Invalid password for user: ");
            extend_chars(&mut v, &chars_of(u.as_str()));
            v
        },
        AuthError::UserNotFound(u) => {
            let mut v = chars_of("Unknown user '");
            extend_chars(&mut v, &chars_of(u.as_str()));
            extend_chars(&mut v, &chars_of("'"));
            v
        },
        AuthError::MalformedInput(_) => chars_of("Malformed input"),
        _ => chars_of("Authentication failed"),
    }
}

/// Handles the USER command.
pub fn handle_cmd_user(client: &mut Client, username: &str, config: &StartupConfig) -> (r: CommandResult)
    ensures
        (final(client)@, r@) == user_outcome(old(client)@, username@, config.max_username_length),
{
    match validate_user(username) {
        Ok(()) => {
            client.set_user_valid(true);
            client.set_logged_in(false);
            let _ = client.set_username(Some(string_from_chars(&chars_of(username))), config);
            success("331 Password required\r\n")
        },
        Err(e) => {
            client.set_user_valid(false);
            client.set_logged_in(false);
            let _ = client.set_username(None, config);
            coded("530", &user_error_chars(&e))
        },
    }
}

/// Handles the PASS command.
pub fn handle_cmd_pass(client: &mut Client, password: &str) -> (r: CommandResult)
    ensures
        (final(client)@, r@) == pass_outcome(old(client)@, password@),
{
    if !client.is_user_valid() {
        return failure("Username not provided", "530 Username not provided\r\n");
    }
    let username = match client.username() {
        Some(u) => u.clone(),
        None => {
            return failure("Username not set", "530 Username not set\r\n");
        },
    };
    match validate_password(username.as_str(), password) {
        Ok(()) => {
            client.set_logged_in(true);
            success("230 Login successful\r\n")
        },
        Err(e) => {
            client.set_logged_in(false);
            coded("530", &pass_error_chars(&e))
        },
    }
}

/// What a command does during the login phase: `USER` and `PASS` are
/// handled, anything else is refused.
pub open spec fn auth_command_outcome(c: ClientView, cmd: crate::protocol::commands::CommandView, max: usize) -> (
    ClientView,
    CommandResultView,
) {
    match cmd {
        crate::protocol::commands::CommandView::USER(u) => user_outcome(c, u, max),
        crate::protocol::commands::CommandView::PASS(p) => pass_outcome(c, p),
        _ => (
            c,
            failure_reply("Authentication required"@, "530 Please login with USER and PASS\r\n"@),
        ),
    }
}

/// Handles a command during the login phase.
pub fn handle_auth_command(client: &mut Client, command: &Command, config: &StartupConfig) -> (r: CommandResult)
    ensures
        (final(client)@, r@) == auth_command_outcome(old(client)@, command@, config.max_username_length),
{
    match command {
        Command::USER(username) => handle_cmd_user(client, username.as_str(), config),
        Command::PASS(password) => handle_cmd_pass(client, password.as_str()),
        _ => failure("Authentication required", "530 Please login with USER and PASS\r\n"),
    }
}

/// The registry after a client's data channel is released: its entry is
/// removed when the client's address is known.
pub open spec fn release_channel(
    m: Map<SocketAddress, ChannelEntryView>,
    c: ClientView,
) -> Map<SocketAddress, ChannelEntryView> {
    match c.client_addr {
        Some(a) => m.remove(a),
        None => m,
    }
}

/// The reply to `QUIT`.
pub open spec fn quit_reply() -> CommandResultView {
    CommandResultView { status: StatusView::CloseConnection, message: Some("221 Goodbye\r\n"@) }
}

/// Handles the QUIT command: releases the client's data channel, logs the
/// client out, and asks for the connection to close.
pub fn handle_cmd_quit(client: &mut Client, channel_registry: &mut ChannelRegistry) -> (r: CommandResult)
    ensures
        final(client)@ == crate::client::state::fresh_client(),
        final(channel_registry)@ == release_channel(old(channel_registry)@, old(client)@),
        r@ == quit_reply(),
{
    if let Some(addr) = client.client_addr() {
        let a = *addr;
        channel_registry.cleanup_all(&a);
    }
    client.logout();
    CommandResult {
        status: CommandStatus::CloseConnection,
        message: Some(string_from_chars(&chars_of("221 Goodbye\r\n"))),
    }
}

/// The reply to a command that needs a logged-in client from one that is not.
pub open spec fn not_logged_in_reply() -> CommandResultView {
    failure_reply("Not logged in"@, "530 Not logged in\r\n"@)
}

/// The reply to `PWD`: the current directory, quoted, for a logged-in
/// client.
pub open spec fn pwd_reply(c: ClientView) -> CommandResultView {
    if !c.is_logged_in {
        not_logged_in_reply()
    } else {
        success_reply("257 \""@ + c.current_virtual_path + "\"\r\n"@)
    }
}

/// Handles the PWD command.
pub fn handle_cmd_pwd(client: &Client) -> (r: CommandResult)
    ensures
        r@ == pwd_reply(client@),
{
    if !client.is_logged_in() {
        return failure("Not logged in", "530 Not logged in\r\n");
    }
    let mut m = chars_of("257 \"");
    extend_chars(&mut m, &chars_of(client.current_virtual_path()));
    extend_chars(&mut m, &chars_of("\"\r\n"));
    CommandResult { status: CommandStatus::Success, message: Some(string_from_chars(&m)) }
}

/// What `LOGOUT` does: a logged-in client has its data channel released
/// and is logged out; the connection stays open.
pub open spec fn logout_outcome(c: ClientView, m: Map<SocketAddress, ChannelEntryView>) -> (
    ClientView,
    Map<SocketAddress, ChannelEntryView>,
    CommandResultView,
) {
    if !c.is_logged_in {
        (c, m, failure_reply("Not logged in"@, "530 User not logged in\r\n"@))
    } else {
        (
            crate::client::state::fresh_client(),
            release_channel(m, c),
            success_reply("221 Logout successful\r\n"@),
        )
    }
}

/// Handles the LOGOUT command.
pub fn handle_cmd_logout(client: &mut Client, channel_registry: &mut ChannelRegistry) -> (r: CommandResult)
    ensures
        (final(client)@, final(channel_registry)@, r@) == logout_outcome(
            old(client)@,
            old(channel_registry)@,
        ),
{
    if !client.is_logged_in() {
        return failure("Not logged in", "530 User not logged in\r\n");
    }
    if let Some(addr) = client.client_addr() {
        let a = *addr;
        channel_registry.cleanup_all(&a);
    }
    client.logout();
    success("221 Logout successful\r\n")
}

/// Handles the custom RAX command.
pub fn handle_cmd_rax() -> (r: CommandResult)
    ensures
        r@ == success_reply("200 Rax is the best\r\n"@),
{
    success("200 Rax is the best\r\n")
}

/// Handles unknown or unsupported commands.
pub fn handle_cmd_unknown() -> (r: CommandResult)
    ensures
        r@ == failure_reply("Unknown command"@, "500 Syntax error, command unrecognized\r\n"@),
{
    failure("Unknown command", "500 Syntax error, command unrecognized\r\n")
}

/// What kind of data transfer a command asks for.
#[derive(Debug, Clone)]
pub enum TransferKind {
    /// `LIST`: the current directory's listing.
    List,
    /// `RETR name`: a file download.
    Retrieve(String),
    /// `STOR name`: a file upload.
    Store(String),
}

/// The mathematical value of a [`TransferKind`].
pub enum TransferKindView {
    List,
    Retrieve(Seq<char>),
    Store(Seq<char>),
}

impl View for TransferKind {
    type V = TransferKindView;

    open spec fn view(&self) -> TransferKindView {
        match self {
            TransferKind::List => TransferKindView::List,
            TransferKind::Retrieve(f) => TransferKindView::Retrieve(f@),
            TransferKind::Store(f) => TransferKindView::Store(f@),
        }
    }
}

/// What the session does next after a command was handled: send a reply,
/// or carry out the file-system or network work the command needs and pass
/// its outcome to the matching completion function.
#[derive(Debug)]
pub enum CommandStep {
    /// The command is done; send this reply.
    Reply(CommandResult),
    /// A data transfer may start: send the announcement (a 150 reply), then
    /// carry it out ([`handle_cmd_list`], [`handle_cmd_retr`],
    /// [`handle_cmd_stor`]).
    Transfer { kind: TransferKind, announcement: String },
    /// Delete this file for a logged-in client ([`handle_cmd_del`]).
    Delete(String),
    /// Change to this directory for a logged-in client ([`handle_cmd_cwd`]).
    ChangeDirectory(String),
    /// Read the argument of `PORT` as a socket address and pass it to
    /// [`handle_cmd_port`].
    ParsePortAddress(String),
    /// Bind a listener on the data socket just registered for the client,
    /// and report how it went to [`finish_listener_setup`].
    BindListener { client_addr: SocketAddress, data_socket: SocketAddress, mode: TransferMode },
}

/// The mathematical value of a [`CommandStep`].
pub enum CommandStepView {
    Reply(CommandResultView),
    Transfer { kind: TransferKindView, announcement: Seq<char> },
    Delete(Seq<char>),
    ChangeDirectory(Seq<char>),
    ParsePortAddress(Seq<char>),
    BindListener { client_addr: SocketAddress, data_socket: SocketAddress, mode: TransferMode },
}

impl View for CommandStep {
    type V = CommandStepView;

    open spec fn view(&self) -> CommandStepView {
        match self {
            CommandStep::Reply(r) => CommandStepView::Reply(r@),
            CommandStep::Transfer { kind, announcement } => CommandStepView::Transfer {
                kind: kind@,
                announcement: announcement@,
            },
            CommandStep::Delete(f) => CommandStepView::Delete(f@),
            CommandStep::ChangeDirectory(p) => CommandStepView::ChangeDirectory(p@),
            CommandStep::ParsePortAddress(a) => CommandStepView::ParsePortAddress(a@),
            CommandStep::BindListener { client_addr, data_socket, mode } => CommandStepView::BindListener {
                client_addr: *client_addr,
                data_socket: *data_socket,
                mode: *mode,
            },
        }
    }
}

/// The announcement sent before a directory listing.
pub open spec fn list_announcement() -> Seq<char> {
    "150 Opening ASCII mode data connection for file list\r\n"@
}

/// The announcement sent before a file transfer.
pub open spec fn file_announcement() -> Seq<char> {
    "150 Opening BINARY mode data connection for file transfer\r\n"@
}

/// The reply when a client's own address is not known.
pub open spec fn addr_unknown_reply() -> CommandResultView {
    failure_reply("Client address unknown"@, "530 Client address unknown\r\n"@)
}

/// Whether a client may start a data transfer: the refusal, if any. It must
/// be logged in and have set up a data channel.
pub open spec fn transfer_gate(c: ClientView) -> Option<CommandResultView> {
    if c.is_logged_in && c.is_data_channel_init {
        None
    } else if !c.is_logged_in {
        Some(not_logged_in_reply())
    } else {
        Some(failure_reply("Data channel not initialized"@, "425 Data channel not initialized\r\n"@))
    }
}

fn transfer_step(client: &Client, kind: TransferKind, announcement: &str) -> (r: CommandStep)
    ensures
        r@ == match transfer_gate(client@) {
            Some(x) => CommandStepView::Reply(x),
            None => CommandStepView::Transfer { kind: kind@, announcement: announcement@ },
        },
{
    if !validate_client_and_data_channel(client) {
        if !client.is_logged_in() {
            return CommandStep::Reply(failure("Not logged in", "530 Not logged in\r\n"));
        }
        return CommandStep::Reply(
            failure("Data channel not initialized", "425 Data channel not initialized\r\n"),
        );
    }
    CommandStep::Transfer { kind, announcement: string_from_chars(&chars_of(announcement)) }
}

/// What starting passive mode does: for a logged-in client with a known
/// address, its previous data channel is dropped and the first free
/// loopback socket of the passive range is registered for it; the caller
/// then binds a listener there.
pub open spec fn pasv_begin(c: ClientView, m: Map<SocketAddress, ChannelEntryView>) -> (
    Map<SocketAddress, ChannelEntryView>,
    Result<(SocketAddress, SocketAddress), CommandResultView>,
) {
    if !c.is_logged_in {
        (m, Err(not_logged_in_reply()))
    } else {
        match c.client_addr {
            None => (m, Err(addr_unknown_reply())),
            Some(a) => match first_free_port(m.remove(a), 2122) {
                None => (
                    m.remove(a),
                    Err(coded_failure("425"@, pasv_error_reason(TransferErrorView::NoAvailablePort))),
                ),
                Some(p) => (
                    m.remove(a).insert(a, bound_entry(a, loopback_socket(p))),
                    Ok((a, loopback_socket(p))),
                ),
            },
        }
    }
}

/// Starts passive mode (`PASV`) for a client. On success returns the
/// client's address and the data socket to bind.
pub fn handle_cmd_pasv(client: &Client, channel_registry: &mut ChannelRegistry) -> (r: Result<
    (SocketAddress, SocketAddress),
    CommandResult,
>)
    ensures
        ({
            let (m, x) = pasv_begin(client@, old(channel_registry)@);
            &&& final(channel_registry)@ == m
            &&& match x {
                Ok(p) => r == Ok::<(SocketAddress, SocketAddress), CommandResult>(p),
                Err(v) => r matches Err(y) && y@ == v,
            }
        }),
{
    if !client.is_logged_in() {
        return Err(failure("Not logged in", "530 Not logged in\r\n"));
    }
    let client_addr = match client.client_addr() {
        Some(a) => *a,
        None => {
            return Err(failure("Client address unknown", "530 Client address unknown\r\n"));
        },
    };
    match setup_passive_mode(channel_registry, client_addr) {
        Ok(res) => Ok((client_addr, res.data_socket)),
        Err(e) => Err(pasv_error_reply(&e)),
    }
}

/// What starting active mode does, given the address named by `PORT` as
/// read by the caller (none when it is not a socket address): for a
/// logged-in client with a known address, its previous data channel is
/// dropped and the named socket, if acceptable, is registered for it; the
/// caller then binds a listener there.
pub open spec fn port_begin(
    c: ClientView,
    m: Map<SocketAddress, ChannelEntryView>,
    requested: Option<SocketAddress>,
) -> (Map<SocketAddress, ChannelEntryView>, Result<(SocketAddress, SocketAddress), CommandResultView>) {
    if !c.is_logged_in {
        (m, Err(not_logged_in_reply()))
    } else {
        match c.client_addr {
            None => (m, Err(addr_unknown_reply())),
            Some(a) => match active_mode_spec(a, requested) {
                Err(e) => (m.remove(a), Err(port_error_reply_spec(e))),
                Ok(s) => (register_spec(m.remove(a), a, s), Ok((a, s))),
            },
        }
    }
}

/// Starts active mode (`PORT`) for a client, given the socket address its
/// argument names. On success returns the client's address and the data
/// socket to bind.
pub fn handle_cmd_port(
    client: &Client,
    channel_registry: &mut ChannelRegistry,
    requested: Option<SocketAddress>,
) -> (r: Result<(SocketAddress, SocketAddress), CommandResult>)
    ensures
        ({
            let (m, x) = port_begin(client@, old(channel_registry)@, requested);
            &&& final(channel_registry)@ == m
            &&& match x {
                Ok(p) => r == Ok::<(SocketAddress, SocketAddress), CommandResult>(p),
                Err(v) => r matches Err(y) && y@ == v,
            }
        }),
{
    if !client.is_logged_in() {
        return Err(failure("Not logged in", "530 Not logged in\r\n"));
    }
    let client_addr = match client.client_addr() {
        Some(a) => *a,
        None => {
            return Err(failure("Client address unknown", "530 Client address unknown\r\n"));
        },
    };
    match setup_active_mode(channel_registry, client_addr, requested) {
        Ok(res) => Ok((client_addr, res.data_socket)),
        Err(e) => Err(port_error_reply(&e)),
    }
}

/// The transfer error a failed listener set-up reports.
pub open spec fn listener_error(data_socket: SocketAddress, outcome: ListenerOutcome) -> TransferErrorView {
    match outcome {
        ListenerOutcome::BindFailed(e) => TransferErrorView::PortBindingFailed(data_socket, e@),
        ListenerOutcome::ConfigurationFailed(e) => TransferErrorView::ListenerConfigurationFailed(e@),
        ListenerOutcome::Ready => TransferErrorView::NoAvailablePort,
    }
}

/// The reply once the listener of a data channel is ready.
pub open spec fn listener_ready_reply(mode: TransferMode, data_socket: SocketAddress) -> CommandResultView {
    match mode {
        TransferMode::Passive => success_reply(
            "227 Entering Passive Mode ("@ + host_port_text(data_socket) + ")\r\n"@,
        ),
        TransferMode::Active => success_reply("200 PORT command successful\r\n"@),
    }
}

/// The reply when the listener of a data channel could not be set up.
pub open spec fn listener_failed_reply(mode: TransferMode, e: TransferErrorView) -> CommandResultView {
    match mode {
        TransferMode::Passive => coded_failure("425"@, pasv_error_reason(e)),
        TransferMode::Active => port_error_reply_spec(e),
    }
}

/// Completes `PASV` or `PORT` once the caller tried to bind the listener:
/// on success the client's data channel counts as set up; on failure its
/// registration is dropped again.
pub fn finish_listener_setup(
    client: &mut Client,
    channel_registry: &mut ChannelRegistry,
    client_addr: SocketAddress,
    data_socket: SocketAddress,
    mode: TransferMode,
    outcome: ListenerOutcome,
) -> (r: CommandResult)
    ensures
        outcome is Ready ==> {
            &&& final(client)@ == (ClientView { is_data_channel_init: true, ..old(client)@ })
            &&& final(channel_registry)@ == old(channel_registry)@
            &&& r@ == listener_ready_reply(mode, data_socket)
        },
        !(outcome is Ready) ==> {
            &&& final(client)@ == old(client)@
            &&& final(channel_registry)@ == old(channel_registry)@.remove(client_addr)
            &&& r@ == listener_failed_reply(mode, listener_error(data_socket, outcome))
        },
{
    let ghost o = outcome;
    match finish_data_channel_setup(channel_registry, client_addr, data_socket, outcome) {
        Ok(s) => {
            client.set_data_channel_init(true);
            match mode {
                TransferMode::Passive => {
                    let mut m = chars_of("227 Entering Passive Mode (");
                    extend_chars(&mut m, &chars_of(host_port_to_string(s).as_str()));
                    extend_chars(&mut m, &chars_of(")\r\n"));
                    CommandResult { status: CommandStatus::Success, message: Some(string_from_chars(&m)) }
                },
                TransferMode::Active => success("200 PORT command successful\r\n"),
            }
        },
        Err(e) => {
            assert(e@ == listener_error(data_socket, o));
            match mode {
                TransferMode::Passive => pasv_error_reply(&e),
                TransferMode::Active => port_error_reply(&e),
            }
        },
    }
}

/// The reply when the announcement of a data transfer could not be sent.
pub fn announcement_failed() -> (r: CommandResult)
    ensures
        r@ == failure_reply("Send failed"@, "421 Service not available\r\n"@),
{
    failure("Send failed", "421 Service not available\r\n")
}

/// Carries a `LIST` on once the announcement is sent, given the listing of
/// the current directory: returns the client's address and what is to be
/// sent over the data connection, or the reply that ends the command.
pub fn handle_cmd_list(client: &Client, listing: Result<Vec<String>, StorageError>) -> (r: Result<
    (SocketAddress, String),
    CommandResult,
>)
    ensures
        match client@.client_addr {
            None => r matches Err(x) && x@ == addr_unknown_reply(),
            Some(a) => match listing {
                Err(e) => r matches Err(x) && x@ == coded_failure("550"@, list_error_reason(e@)),
                Ok(lines) => r matches Ok((b, payload)) && b == a && payload@ == crlf_joined(
                    string_seqs(lines@),
                ),
            },
        },
{
    let client_addr = match client.client_addr() {
        Some(a) => *a,
        None => {
            return Err(failure("Client address unknown", "530 Client address unknown\r\n"));
        },
    };
    match listing {
        Err(e) => Err(list_error_reply(&e)),
        Ok(lines) => Ok((client_addr, listing_payload(&lines))),
    }
}

/// Completes a `LIST` once the listing was sent over the data connection
/// (or not): the data stream is dropped, the channel kept.
pub fn finish_list(channel_registry: &mut ChannelRegistry, client_addr: &SocketAddress, sent: bool) -> (r:
    CommandResult)
    ensures
        final(channel_registry)@ == stream_closed(old(channel_registry)@, *client_addr),
        sent ==> r@ == success_reply("226 Directory send OK\r\n"@),
        !sent ==> r@ == failure_reply("Transfer failed"@, "426 Transfer failed\r\n"@),
{
    cleanup_data_stream_only(channel_registry, client_addr);
    if sent {
        success("226 Directory send OK\r\n")
    } else {
        failure("Transfer failed", "426 Transfer failed\r\n")
    }
}

/// The registry once a client's data stream is dropped.
pub open spec fn stream_closed(m: Map<SocketAddress, ChannelEntryView>, a: SocketAddress) -> Map<
    SocketAddress,
    ChannelEntryView,
> {
    if m.dom().contains(a) {
        m.insert(a, ChannelEntryView { has_stream: false, ..m[a] })
    } else {
        m
    }
}

/// Carries a `RETR` on once the announcement is sent, given what preparing
/// the retrieval gave: returns the client's address and the real path to
/// send, or the reply that ends the command.
pub fn handle_cmd_retr(client: &Client, prepared: Result<String, StorageError>) -> (r: Result<
    (SocketAddress, String),
    CommandResult,
>)
    ensures
        match prepared {
            Err(e) => r matches Err(x) && x@ == coded_failure("550"@, retrieve_error_reason(e@)),
            Ok(path) => match client@.client_addr {
                None => r matches Err(x) && x@ == addr_unknown_reply(),
                Some(a) => r matches Ok((b, p)) && b == a && p@ == path@,
            },
        },
{
    let path = match prepared {
        Err(e) => {
            return Err(retrieve_error_reply(&e));
        },
        Ok(p) => p,
    };
    match client.client_addr() {
        Some(a) => Ok((*a, path)),
        None => Err(failure("Client address unknown", "530 Client address unknown\r\n")),
    }
}

/// The reply when no data connection could be opened for a download.
pub open spec fn no_data_connection_reply() -> CommandResultView {
    failure_reply("Failed to establish data connection"@, "425 Failed to establish data connection\r\n"@)
}

/// Completes a `RETR`: `download` is none when no data connection could be
/// opened, and otherwise how the download ended. After a download the data
/// stream is dropped and the status it ended with is kept.
pub fn finish_retr(
    channel_registry: &mut ChannelRegistry,
    client_addr: &SocketAddress,
    download: Option<Result<TransferReply, TransferReply>>,
) -> (r: CommandResult)
    ensures
        match download {
            None => final(channel_registry)@ == old(channel_registry)@ && r@
                == no_data_connection_reply(),
            Some(Ok((s, _))) => final(channel_registry)@ == stream_closed(
                old(channel_registry)@,
                *client_addr,
            ) && r@ == (CommandResultView { status: s@, message: Some("226 Transfer complete\r\n"@) }),
            Some(Err((s, _))) => final(channel_registry)@ == stream_closed(
                old(channel_registry)@,
                *client_addr,
            ) && r@ == (CommandResultView { status: s@, message: Some("426 Transfer failed\r\n"@) }),
        },
{
    match download {
        None => failure("Failed to establish data connection", "425 Failed to establish data connection\r\n"),
        Some(Ok((status, _))) => {
            cleanup_data_stream_only(channel_registry, client_addr);
            CommandResult { status, message: Some(string_from_chars(&chars_of("226 Transfer complete\r\n"))) }
        },
        Some(Err((status, _))) => {
            cleanup_data_stream_only(channel_registry, client_addr);
            CommandResult { status, message: Some(string_from_chars(&chars_of("426 Transfer failed\r\n"))) }
        },
    }
}

/// Carries a `STOR` on once the announcement is sent, given what preparing
/// the upload gave: returns the client's address, the real path and the
/// temporary path, or the reply that ends the command.
pub fn handle_cmd_stor(client: &Client, prepared: Result<(String, String), StorageError>) -> (r: Result<
    (SocketAddress, String, String),
    CommandResult,
>)
    ensures
        match prepared {
            Err(e) => r matches Err(x) && x@ == coded_failure("550"@, store_error_reason(e@)),
            Ok((path, temp)) => match client@.client_addr {
                None => r matches Err(x) && x@ == addr_unknown_reply(),
                Some(a) => r matches Ok((b, p, t)) && b == a && p@ == path@ && t@ == temp@,
            },
        },
{
    let (path, temp) = match prepared {
        Err(e) => {
            return Err(store_error_reply(&e));
        },
        Ok(p) => p,
    };
    match client.client_addr() {
        Some(a) => Ok((*a, path, temp)),
        None => Err(failure("Client address unknown", "530 Client address unknown\r\n")),
    }
}

/// Completes a `STOR` once the upload ended (or no data connection could be
/// opened): the data stream is dropped, the channel kept.
pub fn finish_stor(channel_registry: &mut ChannelRegistry, client_addr: &SocketAddress, uploaded: bool) -> (r:
    CommandResult)
    ensures
        final(channel_registry)@ == stream_closed(old(channel_registry)@, *client_addr),
        uploaded ==> r@ == success_reply("226 Transfer complete\r\n"@),
        !uploaded ==> r@ == failure_reply("Transfer failed"@, "426 Transfer failed\r\n"@),
{
    cleanup_data_stream_only(channel_registry, client_addr);
    if uploaded {
        success("226 Transfer complete\r\n")
    } else {
        failure("Transfer failed", "426 Transfer failed\r\n")
    }
}

/// Completes a `DEL` given how deleting the file went.
pub fn handle_cmd_del(deleted: Result<(), StorageError>) -> (r: CommandResult)
    ensures
        match deleted {
            Ok(()) => r@ == success_reply("250 File deleted successfully\r\n"@),
            Err(e) => r@ == coded_failure("550"@, delete_error_reason(e@)),
        },
{
    match deleted {
        Ok(()) => success("250 File deleted successfully\r\n"),
        Err(e) => delete_error_reply(&e),
    }
}

/// Completes a `CWD` given what changing the directory gave: on success the
/// client's current directory becomes the new one.
pub fn handle_cmd_cwd(client: &mut Client, changed: Result<String, NavigateError>) -> (r: CommandResult)
    ensures
        match changed {
            Ok(v) => r@ == success_reply("250 Directory changed successfully\r\n"@) && final(client)@
                == (if virtual_path_problem(v@) is None {
                ClientView { current_virtual_path: v@, ..old(client)@ }
            } else {
                old(client)@
            }),
            Err(e) => r@ == coded_failure("550"@, cwd_error_reason(e@)) && final(client)@ == old(
                client,
            )@,
        },
{
    match changed {
        Ok(v) => {
            let _ = client.set_current_virtual_path(v);
            success("250 Directory changed successfully\r\n")
        },
        Err(e) => cwd_error_reply(&e),
    }
}

/// What handling a command does to the client and the data channel
/// registry, and what the session does next.
pub open spec fn command_step_spec(
    c: ClientView,
    m: Map<SocketAddress, ChannelEntryView>,
    cmd: CommandView,
    max: usize,
) -> (ClientView, Map<SocketAddress, ChannelEntryView>, CommandStepView) {
    match cmd {
        CommandView::QUIT => (
            crate::client::state::fresh_client(),
            release_channel(m, c),
            CommandStepView::Reply(quit_reply()),
        ),
        CommandView::USER(u) => {
            let (c2, r) = user_outcome(c, u, max);
            (c2, m, CommandStepView::Reply(r))
        },
        CommandView::PASS(p) => {
            let (c2, r) = pass_outcome(c, p);
            (c2, m, CommandStepView::Reply(r))
        },
        CommandView::LIST => (c, m, match transfer_gate(c) {
            Some(x) => CommandStepView::Reply(x),
            None => CommandStepView::Transfer {
                kind: TransferKindView::List,
                announcement: list_announcement(),
            },
        }),
        CommandView::PWD => (c, m, CommandStepView::Reply(pwd_reply(c))),
        CommandView::LOGOUT => {
            let (c2, m2, r) = logout_outcome(c, m);
            (c2, m2, CommandStepView::Reply(r))
        },
        CommandView::RETR(f) => (c, m, match transfer_gate(c) {
            Some(x) => CommandStepView::Reply(x),
            None => CommandStepView::Transfer {
                kind: TransferKindView::Retrieve(f),
                announcement: file_announcement(),
            },
        }),
        CommandView::STOR(f) => (c, m, match transfer_gate(c) {
            Some(x) => CommandStepView::Reply(x),
            None => CommandStepView::Transfer {
                kind: TransferKindView::Store(f),
                announcement: file_announcement(),
            },
        }),
        CommandView::DEL(f) => (c, m, if c.is_logged_in {
            CommandStepView::Delete(f)
        } else {
            CommandStepView::Reply(not_logged_in_reply())
        }),
        CommandView::CWD(p) => (c, m, if c.is_logged_in {
            CommandStepView::ChangeDirectory(p)
        } else {
            CommandStepView::Reply(not_logged_in_reply())
        }),
        CommandView::PASV => {
            let (m2, x) = pasv_begin(c, m);
            (c, m2, match x {
                Err(r) => CommandStepView::Reply(r),
                Ok((a, s)) => CommandStepView::BindListener {
                    client_addr: a,
                    data_socket: s,
                    mode: TransferMode::Passive,
                },
            })
        },
        CommandView::PORT(a) => (c, m, CommandStepView::ParsePortAddress(a)),
        CommandView::RAX => (c, m, CommandStepView::Reply(success_reply("200 Rax is the best\r\n"@))),
        CommandView::UNKNOWN => (
            c,
            m,
            CommandStepView::Reply(
                failure_reply("Unknown command"@, "500 Syntax error, command unrecognized\r\n"@),
            ),
        ),
    }
}

/// Dispatches a command received from a client: commands that need no
/// outside work are carried out and answered; for the others the step
/// says what the session has to do next.
pub fn handle_command(
    client: &mut Client,
    command: &Command,
    channel_registry: &mut ChannelRegistry,
    config: &StartupConfig,
) -> (r: CommandStep)
    ensures
        (final(client)@, final(channel_registry)@, r@) == command_step_spec(
            old(client)@,
            old(channel_registry)@,
            command@,
            config.max_username_length,
        ),
{
    match command {
        Command::QUIT => CommandStep::Reply(handle_cmd_quit(client, channel_registry)),
        Command::USER(u) => CommandStep::Reply(handle_cmd_user(client, u.as_str(), config)),
        Command::PASS(p) => CommandStep::Reply(handle_cmd_pass(client, p.as_str())),
        Command::LIST => transfer_step(
            client,
            TransferKind::List,
            "150 Opening ASCII mode data connection for file list\r\n",
        ),
        Command::PWD => CommandStep::Reply(handle_cmd_pwd(client)),
        Command::LOGOUT => CommandStep::Reply(handle_cmd_logout(client, channel_registry)),
        Command::RETR(f) => transfer_step(
            client,
            TransferKind::Retrieve(string_from_chars(&chars_of(f.as_str()))),
            "150 Opening BINARY mode data connection for file transfer\r\n",
        ),
        Command::STOR(f) => transfer_step(
            client,
            TransferKind::Store(string_from_chars(&chars_of(f.as_str()))),
            "150 Opening BINARY mode data connection for file transfer\r\n",
        ),
        Command::DEL(f) => {
            if client.is_logged_in() {
                CommandStep::Delete(string_from_chars(&chars_of(f.as_str())))
            } else {
                CommandStep::Reply(failure("Not logged in", "530 Not logged in\r\n"))
            }
        },
        Command::CWD(p) => {
            if client.is_logged_in() {
                CommandStep::ChangeDirectory(string_from_chars(&chars_of(p.as_str())))
            } else {
                CommandStep::Reply(failure("Not logged in", "530 Not logged in\r\n"))
            }
        },
        Command::PASV => match handle_cmd_pasv(client, channel_registry) {
            Err(r) => CommandStep::Reply(r),
            Ok((a, s)) => CommandStep::BindListener {
                client_addr: a,
                data_socket: s,
                mode: TransferMode::Passive,
            },
        },
        Command::PORT(a) => CommandStep::ParsePortAddress(string_from_chars(&chars_of(a.as_str()))),
        Command::RAX => CommandStep::Reply(handle_cmd_rax()),
        Command::UNKNOWN => CommandStep::Reply(handle_cmd_unknown()),
    }
}

/// A client is logged in only as a valid user whose name is in the
/// credential store.
pub open spec fn login_consistent(c: ClientView) -> bool {
    c.is_logged_in ==> c.is_user_valid && c.username is Some && stored_password(c.username->0) is Some
}

/// During the login phase, a client becomes logged in only through a `PASS`
/// carrying exactly the password stored for the user name it holds; and
/// every login-phase command keeps a consistent login state consistent.
pub proof fn law_login_needs_stored_password(
    c: ClientView,
    cmd: crate::protocol::commands::CommandView,
    max: usize,
)
    ensures
        ({
            let c2 = auth_command_outcome(c, cmd, max).0;
            !c.is_logged_in && c2.is_logged_in ==> {
                &&& cmd is PASS
                &&& c.is_user_valid
                &&& c.username is Some
                &&& stored_password(c.username->0) == Some(cmd->PASS_0)
            }
        }),
        login_consistent(c) ==> login_consistent(auth_command_outcome(c, cmd, max).0),
{
}

/// A password sent before any user name was accepted changes nothing and
/// is refused.
pub proof fn law_pass_needs_user(c: ClientView, password: Seq<char>)
    requires
        !c.is_user_valid,
    ensures
        pass_outcome(c, password).0 == c,
        pass_outcome(c, password).1.status is Failure,
{
}

/// `USER` always leaves the client logged out, whether or not the name is
/// accepted; an accepted name is one of the credential store.
pub proof fn law_user_logs_out(c: ClientView, name: Seq<char>, max: usize)
    ensures
        !user_outcome(c, name, max).0.is_logged_in,
        user_outcome(c, name, max).0.is_user_valid <==> stored_password(name) is Some && user_check(
            name,
        ) is Ok,
{
}

/// An accepted `USER` name within the length limit becomes the client's user
/// name, replacing any earlier one, and a `PASS` that follows logs the
/// client in as that user exactly when it carries the password stored for
/// that name.
pub proof fn law_user_names_the_client(c: ClientView, name: Seq<char>, password: Seq<char>, max: usize)
    requires
        user_check(name) is Ok,
        username_problem(name, max) is None,
    ensures
        ({
            let (c2, r) = user_outcome(c, name, max);
            let (c3, r3) = pass_outcome(c2, password);
            &&& c2.username == Some(name)
            &&& c2.is_user_valid
            &&& !c2.is_logged_in
            &&& c2.current_virtual_path == c.current_virtual_path
            &&& r == success_reply("331 Password required\r\n"@)
            &&& c3.username == Some(name)
            &&& (c3.is_logged_in <==> (valid_input(password) && stored_password(name) == Some(password)))
            &&& (c3.is_logged_in ==> r3 == success_reply("230 Login successful\r\n"@))
        }),
{
}

/// `PWD` answers a logged-in client with its current virtual directory,
/// quoted, and changes nothing; a client that is not logged in is refused.
pub proof fn law_pwd_quotes_directory(c: ClientView, m: Map<SocketAddress, ChannelEntryView>, max: usize)
    ensures
        c.is_logged_in ==> command_step_spec(c, m, CommandView::PWD, max) == (
            c,
            m,
            CommandStepView::Reply(success_reply("257 \""@ + c.current_virtual_path + "\"\r\n"@)),
        ),
        c.is_logged_in ==> pwd_reply(c) == success_reply("257 \""@ + c.current_virtual_path + "\"\r\n"@),
        !c.is_logged_in ==> pwd_reply(c).status is Failure,
{
}

/// A logged-in client's file commands act on the very name it sent, and
/// change neither the client nor the registry before their outside work:
/// `DEL f` removes `f`, `CWD p` moves to `p`, and, once a data channel is
/// set up, `RETR f` sends `f`, `STOR f` receives `f` and `LIST` lists the
/// current directory.
pub proof fn law_file_commands_act_on_their_argument(
    c: ClientView,
    m: Map<SocketAddress, ChannelEntryView>,
    f: Seq<char>,
    max: usize,
)
    requires
        c.is_logged_in,
    ensures
        command_step_spec(c, m, CommandView::DEL(f), max) == (c, m, CommandStepView::Delete(f)),
        command_step_spec(c, m, CommandView::CWD(f), max) == (c, m, CommandStepView::ChangeDirectory(f)),
        c.is_data_channel_init ==> command_step_spec(c, m, CommandView::RETR(f), max) == (
            c,
            m,
            CommandStepView::Transfer { kind: TransferKindView::Retrieve(f), announcement: file_announcement() },
        ),
        c.is_data_channel_init ==> command_step_spec(c, m, CommandView::STOR(f), max) == (
            c,
            m,
            CommandStepView::Transfer { kind: TransferKindView::Store(f), announcement: file_announcement() },
        ),
        c.is_data_channel_init ==> command_step_spec(c, m, CommandView::LIST, max) == (
            c,
            m,
            CommandStepView::Transfer { kind: TransferKindView::List, announcement: list_announcement() },
        ),
        !c.is_data_channel_init ==> command_step_spec(c, m, CommandView::RETR(f), max).2 is Reply,
{
}

/// `PORT` with an acceptable address (on the client's own IP, port at least
/// 1024, held by no other client) registers exactly that address as the
/// client's data socket, and the caller binds a listener there.
pub proof fn law_port_registers_requested_socket(
    c: ClientView,
    m: Map<SocketAddress, ChannelEntryView>,
    s: SocketAddress,
)
    requires
        c.is_logged_in,
        c.client_addr matches Some(a) && s.ip == a.ip && s.port >= 1024 && !socket_taken(m.remove(a), s),
    ensures
        ({
            let a = c.client_addr->0;
            let (m2, x) = port_begin(c, m, Some(s));
            &&& x == Ok::<(SocketAddress, SocketAddress), CommandResultView>((a, s))
            &&& m2.dom().contains(a)
            &&& m2[a].data_socket == Some(s)
            &&& m2[a].owner_ip == Some(a.ip)
        }),
{
    let a = c.client_addr->0;
    assert(m.remove(a).remove(a) =~= m.remove(a));
}

/// Once the listener is ready, `PASV` answers with the data socket in RFC
/// 959 host-port form and `PORT` confirms; both are successes.
pub proof fn law_listener_ready_names_socket(s: SocketAddress)
    ensures
        listener_ready_reply(TransferMode::Passive, s) == success_reply(
            "227 Entering Passive Mode ("@ + host_port_text(s) + ")\r\n"@,
        ),
        listener_ready_reply(TransferMode::Active, s) == success_reply("200 PORT command successful\r\n"@),
{
}

/// A client that is not logged in gets no service beyond logging in: every
/// command that touches files, directories or data channels is answered
/// with a refusal and changes neither the client nor the registry.
pub proof fn law_commands_need_login(
    c: ClientView,
    m: Map<SocketAddress, ChannelEntryView>,
    cmd: CommandView,
    max: usize,
)
    requires
        !c.is_logged_in,
        cmd is LIST || cmd is PWD || cmd is RETR || cmd is STOR || cmd is DEL || cmd is CWD
            || cmd is PASV,
    ensures
        command_step_spec(c, m, cmd, max) == (c, m, CommandStepView::Reply(not_logged_in_reply())),
{
}

/// Active mode only ever registers a data socket on the client's own IP
/// address, with a port of at least 1024.
pub proof fn law_port_stays_on_client_ip(
    c: ClientView,
    m: Map<SocketAddress, ChannelEntryView>,
    requested: Option<SocketAddress>,
)
    ensures
        port_begin(c, m, requested).1 matches Ok((a, s)) ==> {
            &&& c.client_addr == Some(a)
            &&& s.ip == a.ip
            &&& s.port >= 1024
        },
{
}

/// Passive mode hands a client a loopback socket of the passive port range
/// that no other client holds, and the client then holds exactly that
/// socket; other clients' channels are left as they were.
pub proof fn law_pasv_socket_is_free(c: ClientView, m: Map<SocketAddress, ChannelEntryView>)
    ensures
        pasv_begin(c, m).1 matches Ok((a, s)) ==> {
            &&& 2122 <= s.port < 2222
            &&& s == loopback_socket(s.port)
            &&& forall|b: SocketAddress| #[trigger] m.dom().contains(b) && b != a ==> m[b].data_socket
                != Some(s)
            &&& pasv_begin(c, m).0[a] == bound_entry(a, s)
        },
        forall|b: SocketAddress|
            #[trigger] m.dom().contains(b) && Some(b) != c.client_addr ==> pasv_begin(c, m).0.dom().contains(b)
                && pasv_begin(c, m).0[b] == m[b],
{
    if c.is_logged_in && c.client_addr is Some {
        let a = c.client_addr->0;
        lemma_first_free_port(m.remove(a), 2122);
        if let Some(p) = first_free_port(m.remove(a), 2122) {
            let s = loopback_socket(p);
            assert forall|b: SocketAddress| #[trigger] m.dom().contains(b) && b != a implies m[b].data_socket
                != Some(s) by {
                assert(m.remove(a).dom().contains(b));
                if m[b].data_socket == Some(s) {
                    assert(socket_taken(m.remove(a), s));
                }
            }
        }
    }
}

/// Data channels persist across transfers: finishing a transfer only
/// closes the client's data stream, keeping its data socket, its listener
/// and its owner, and leaves every other client's channel untouched.
pub proof fn law_transfer_keeps_channel(m: Map<SocketAddress, ChannelEntryView>, a: SocketAddress)
    ensures
        stream_closed(m, a).dom() == m.dom(),
        m.dom().contains(a) ==> {
            &&& !stream_closed(m, a)[a].has_stream
            &&& stream_closed(m, a)[a].data_socket == m[a].data_socket
            &&& stream_closed(m, a)[a].has_listener == m[a].has_listener
            &&& stream_closed(m, a)[a].owner_ip == m[a].owner_ip
        },
        forall|b: SocketAddress| #[trigger] m.dom().contains(b) && b != a ==> stream_closed(m, a)[b] == m[b],
{
    if m.dom().contains(a) {
        assert(stream_closed(m, a).dom() =~= m.dom());
    }
}

/// Leaving a session, by `QUIT` or by `LOGOUT` of a logged-in client,
/// releases the client's data channel and resets the client to a fresh
/// state.
pub proof fn law_leaving_releases_channel(
    c: ClientView,
    m: Map<SocketAddress, ChannelEntryView>,
    cmd: CommandView,
    max: usize,
)
    requires
        cmd is QUIT || (cmd is LOGOUT && c.is_logged_in),
        c.client_addr is Some,
    ensures
        !command_step_spec(c, m, cmd, max).1.dom().contains(c.client_addr->0),
        command_step_spec(c, m, cmd, max).0 == crate::client::state::fresh_client(),
{
}

/// A client's command changes no other client's data channel: entries of
/// addresses other than the client's own are kept as they were.
pub proof fn law_commands_touch_only_own_channel(
    c: ClientView,
    m: Map<SocketAddress, ChannelEntryView>,
    cmd: CommandView,
    max: usize,
    b: SocketAddress,
)
    requires
        Some(b) != c.client_addr,
    ensures
        command_step_spec(c, m, cmd, max).1.dom().contains(b) == m.dom().contains(b),
        m.dom().contains(b) ==> command_step_spec(c, m, cmd, max).1[b] == m[b],
{
}

} // verus!
