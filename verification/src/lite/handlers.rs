//! The command handlers of the lite server: each command's effect on the
//! client and the data channel registry, and its reply. Work on the file
//! system or the network is handed back to the caller as a step; the
//! caller performs it and passes the outcome to the matching completion
//! function.
use crate::client::state::{contains_dot_dot, has_dot_dot};
use crate::lite::auth::{lite_password_check, lite_user_check, validate_password, validate_user};
use crate::lite::channel_registry::ChannelRegistry;
use crate::lite::client::{blank_client, Client, LiteClientView};
use crate::lite::command::{Command, CommandData, CommandResult, CommandStatus};
use crate::net::{host_port_text, host_port_to_string, SocketAddress};
use crate::protocol::commands::{CommandView, StatusView};
use crate::storage::operations::string_seqs;
use crate::text::{chars_of, contains_char, extend_chars, string_from_chars};
use crate::transfer::channel_registry::{
    first_free_port, loopback_socket, ChannelEntry, ChannelEntryView,
};
use crate::transfer::modes::TransferMode;
use crate::transfer::operations::ListenerOutcome;
use vstd::prelude::*;

verus! {

/// The mathematical value of a command result of the lite server.
pub struct LiteResultView {
    pub status: StatusView,
    pub message: Option<Seq<char>>,
    pub data: Option<Seq<Seq<char>>>,
}

impl View for CommandStatus {
    type V = StatusView;

    open spec fn view(&self) -> StatusView {
        match self {
            CommandStatus::Success => StatusView::Success,
            CommandStatus::Failure(r) => StatusView::Failure(r@),
            CommandStatus::CloseConnection => StatusView::CloseConnection,
        }
    }
}

impl View for CommandResult {
    type V = LiteResultView;

    open spec fn view(&self) -> LiteResultView {
        LiteResultView {
            status: self.status@,
            message: match self.message {
                Some(m) => Some(m@),
                None => None,
            },
            data: match self.data {
                Some(CommandData::DirectoryListing(v)) => Some(string_seqs(v@)),
                None => None,
            },
        }
    }
}

/// A result with a status and a reply line, and no data.
pub open spec fn lite_reply(status: StatusView, message: Seq<char>) -> LiteResultView {
    LiteResultView { status, message: Some(message), data: None }
}

/// A successful result with a reply line.
pub open spec fn lite_ok(message: Seq<char>) -> LiteResultView {
    lite_reply(StatusView::Success, message)
}

/// A failed result with its reason and a reply line.
pub open spec fn lite_fail(reason: Seq<char>, message: Seq<char>) -> LiteResultView {
    lite_reply(StatusView::Failure(reason), message)
}

fn reply_ok(message: &str) -> (r: CommandResult)
    ensures
        r@ == lite_ok(message@),
{
    CommandResult {
        status: CommandStatus::Success,
        message: Some(string_from_chars(&chars_of(message))),
        data: None,
    }
}

fn reply_fail(reason: &str, message: &str) -> (r: CommandResult)
    ensures
        r@ == lite_fail(reason@, message@),
{
    CommandResult {
        status: CommandStatus::Failure(string_from_chars(&chars_of(reason))),
        message: Some(string_from_chars(&chars_of(message))),
        data: None,
    }
}

/// The reply to a command that needs a login, from a client without one.
pub open spec fn lite_not_logged_in() -> LiteResultView {
    lite_fail("Not logged in"@, "530 Not logged in\r\n"@)
}

/// What the session does next after a command of the lite server.
#[derive(Debug)]
pub enum LiteStep {
    /// The command is done; send this reply.
    Reply(CommandResult),
    /// List the served directory ([`finish_list`]).
    ListDirectory,
    /// Read the working directory ([`finish_pwd`]).
    PrintDirectory,
    /// Check that this file exists ([`check_retrieve`]), then send it.
    RetrieveFile(String),
    /// Check that this file does not exist ([`check_store`]), then receive it.
    StoreFile(String),
    /// Remove this file ([`finish_delete`]).
    DeleteFile(String),
    /// Change the working directory to this path ([`finish_cwd`]).
    ChangeDirectory(String),
    /// Bind a listener on this data socket ([`finish_listener`]).
    BindPassive(SocketAddress),
    /// Read the argument of `PORT` as a socket address ([`check_port`]).
    ParsePort(String),
}

/// The mathematical value of a [`LiteStep`].
pub enum LiteStepView {
    Reply(LiteResultView),
    ListDirectory,
    PrintDirectory,
    RetrieveFile(Seq<char>),
    StoreFile(Seq<char>),
    DeleteFile(Seq<char>),
    ChangeDirectory(Seq<char>),
    BindPassive(SocketAddress),
    ParsePort(Seq<char>),
}

impl View for LiteStep {
    type V = LiteStepView;

    open spec fn view(&self) -> LiteStepView {
        match self {
            LiteStep::Reply(r) => LiteStepView::Reply(r@),
            LiteStep::ListDirectory => LiteStepView::ListDirectory,
            LiteStep::PrintDirectory => LiteStepView::PrintDirectory,
            LiteStep::RetrieveFile(f) => LiteStepView::RetrieveFile(f@),
            LiteStep::StoreFile(f) => LiteStepView::StoreFile(f@),
            LiteStep::DeleteFile(f) => LiteStepView::DeleteFile(f@),
            LiteStep::ChangeDirectory(p) => LiteStepView::ChangeDirectory(p@),
            LiteStep::BindPassive(s) => LiteStepView::BindPassive(*s),
            LiteStep::ParsePort(a) => LiteStepView::ParsePort(a@),
        }
    }
}

/// Whether a file name may not be used for a transfer: it holds `..`, a
/// path separator or a character that is not allowed in file names.
pub open spec fn unsafe_transfer_name(f: Seq<char>) -> bool {
    ||| has_dot_dot(f)
    ||| f.contains('/')
    ||| f.contains('\\')
    ||| f.contains(':')
    ||| f.contains('*')
    ||| f.contains('?')
    ||| f.contains('"')
    ||| f.contains('<')
    ||| f.contains('>')
    ||| f.contains('|')
}

fn is_unsafe_transfer_name(f: &str) -> (b: bool)
    ensures
        b == unsafe_transfer_name(f@),
{
    let v = chars_of(f);
    contains_dot_dot(&v) || contains_char(&v, '/') || contains_char(&v, '\\') || contains_char(&v, ':')
        || contains_char(&v, '*') || contains_char(&v, '?') || contains_char(&v, '"') || contains_char(
        &v,
        '<',
    ) || contains_char(&v, '>') || contains_char(&v, '|')
}

/// The refusal of a file transfer before any file is touched, if any.
pub open spec fn lite_file_gate(c: LiteClientView, f: Seq<char>) -> Option<LiteResultView> {
    if !c.is_logged_in {
        Some(lite_not_logged_in())
    } else if !c.is_data_channel_init {
        Some(lite_fail("Data channel not initialized"@, "530 Data channel not initialized\r\n"@))
    } else if f.len() == 0 {
        Some(lite_fail("Missing filename"@, "501 Syntax error in parameters or arguments\r\n"@))
    } else if unsafe_transfer_name(f) {
        Some(lite_fail("Invalid filename"@, "550 Filename invalid\r\n"@))
    } else {
        None
    }
}

fn file_gate(client: &Client, f: &str) -> (r: Option<CommandResult>)
    ensures
        match lite_file_gate(client@, f@) {
            None => r is None,
            Some(x) => r matches Some(y) && y@ == x,
        },
{
    if !client.is_logged_in() {
        return Some(reply_fail("Not logged in", "530 Not logged in\r\n"));
    }
    if !client.is_data_channel_init() {
        return Some(reply_fail("Data channel not initialized", "530 Data channel not initialized\r\n"));
    }
    if f.is_empty() {
        return Some(reply_fail("Missing filename", "501 Syntax error in parameters or arguments\r\n"));
    }
    if is_unsafe_transfer_name(f) {
        return Some(reply_fail("Invalid filename", "550 Filename invalid\r\n"));
    }
    None
}

/// What `USER name` does and replies.
pub open spec fn lite_user_outcome(c: LiteClientView, u: Seq<char>) -> (LiteClientView, LiteResultView) {
    match lite_user_check(u) {
        Ok(m) => (
            LiteClientView { is_user_valid: true, is_logged_in: false, username: Some(u), ..c },
            lite_ok(m),
        ),
        Err((msg, code)) => (
            LiteClientView { is_user_valid: false, is_logged_in: false, username: None, ..c },
            lite_fail(msg, code + seq![' '] + msg + seq!['\r', '\n']),
        ),
    }
}

/// What `PASS password` does and replies.
pub open spec fn lite_pass_outcome(c: LiteClientView, p: Seq<char>) -> (LiteClientView, LiteResultView) {
    if c.is_user_valid && c.username is Some {
        match lite_password_check(c.username->0, p) {
            Ok(m) => (LiteClientView { is_logged_in: true, ..c }, lite_ok(m)),
            Err((msg, code)) => (
                LiteClientView { is_logged_in: false, ..c },
                lite_fail(msg, code + seq![' '] + msg + seq!['\r', '\n']),
            ),
        }
    } else {
        (c, lite_fail("Username not provided"@, "530 Please enter the username first\r\n"@))
    }
}

fn auth_failure(e: crate::lite::auth::AuthError) -> (r: CommandResult)
    ensures
        r@ == lite_fail(
            e.message_view(),
            e.code_view() + seq![' '] + e.message_view() + seq!['\r', '\n'],
        ),
{
    let mut m = chars_of(e.ftp_response());
    m.push(' ');
    extend_chars(&mut m, &chars_of(e.message()));
    m.push('\r');
    m.push('\n');
    assert(m@ =~= e.code_view() + seq![' '] + e.message_view() + seq!['\r', '\n']);
    CommandResult {
        status: CommandStatus::Failure(string_from_chars(&chars_of(e.message()))),
        message: Some(string_from_chars(&m)),
        data: None,
    }
}

fn handle_cmd_user(client: &mut Client, username: &str) -> (r: CommandResult)
    ensures
        (final(client)@, r@) == lite_user_outcome(old(client)@, username@),
{
    match validate_user(username) {
        Ok(response) => {
            client.set_user_valid(true);
            client.set_logged_in(false);
            client.set_username(Some(string_from_chars(&chars_of(username))));
            reply_ok(response)
        },
        Err(e) => {
            client.set_user_valid(false);
            client.set_logged_in(false);
            client.set_username(None);
            auth_failure(e)
        },
    }
}

fn handle_cmd_pass(client: &mut Client, password: &str) -> (r: CommandResult)
    ensures
        (final(client)@, r@) == lite_pass_outcome(old(client)@, password@),
{
    if client.is_user_valid() {
        let name = match client.username() {
            Some(u) => Some(u.clone()),
            None => None,
        };
        if let Some(username) = name {
            match validate_password(username.as_str(), password) {
                Ok(response) => {
                    client.set_logged_in(true);
                    return reply_ok(response);
                },
                Err(e) => {
                    client.set_logged_in(false);
                    return auth_failure(e);
                },
            }
        }
    }
    reply_fail("Username not provided", "530 Please enter the username first\r\n")
}

/// What setting up passive mode does before the listener is bound: a
/// logged-in client without a data channel is given the first free socket
/// of the passive range.
pub open spec fn lite_pasv_spec(c: LiteClientView, m: Map<SocketAddress, ChannelEntryView>) -> LiteStepView {
    if !c.is_logged_in {
        LiteStepView::Reply(lite_not_logged_in())
    } else if m.dom().contains(c.client_addr->0) {
        LiteStepView::Reply(
            lite_fail("Data channel already initialized"@, "425 Data connection already initialized\r\n"@),
        )
    } else {
        match first_free_port(m, 2122) {
            Some(p) => LiteStepView::BindPassive(loopback_socket(p)),
            None => LiteStepView::Reply(lite_fail("No available port"@, "425 Can't open data connection\r\n"@)),
        }
    }
}

/// What a command does to the client and replies, or what the session does
/// next. The registry is not changed before a listener is bound.
pub open spec fn lite_step_spec(
    c: LiteClientView,
    m: Map<SocketAddress, ChannelEntryView>,
    cmd: CommandView,
) -> (LiteClientView, LiteStepView) {
    match cmd {
        CommandView::QUIT => (
            blank_client(),
            LiteStepView::Reply(lite_reply(StatusView::CloseConnection, "221 Goodbye\r\n"@)),
        ),
        CommandView::USER(u) => {
            let (c2, r) = lite_user_outcome(c, u);
            (c2, LiteStepView::Reply(r))
        },
        CommandView::PASS(p) => {
            let (c2, r) = lite_pass_outcome(c, p);
            (c2, LiteStepView::Reply(r))
        },
        CommandView::LIST => (c, if c.is_logged_in {
            LiteStepView::ListDirectory
        } else {
            LiteStepView::Reply(lite_not_logged_in())
        }),
        CommandView::PWD => (c, if c.is_logged_in {
            LiteStepView::PrintDirectory
        } else {
            LiteStepView::Reply(lite_not_logged_in())
        }),
        CommandView::LOGOUT => if c.is_logged_in {
            (blank_client(), LiteStepView::Reply(lite_ok("221 Logout successful\r\n"@)))
        } else {
            (c, LiteStepView::Reply(lite_fail("Not logged in"@, "530 User Not logged in\r\n"@)))
        },
        CommandView::RETR(f) => (c, match lite_file_gate(c, f) {
            Some(r) => LiteStepView::Reply(r),
            None => LiteStepView::RetrieveFile(f),
        }),
        CommandView::STOR(f) => (c, match lite_file_gate(c, f) {
            Some(r) => LiteStepView::Reply(r),
            None => LiteStepView::StoreFile(f),
        }),
        CommandView::DEL(f) => (c, if !c.is_logged_in {
            LiteStepView::Reply(lite_not_logged_in())
        } else if f.len() == 0 {
            LiteStepView::Reply(
                lite_fail("Missing filename"@, "501 Syntax error in parameters or arguments\r\n"@),
            )
        } else if has_dot_dot(f) || f.contains('/') || f.contains('\\') {
            LiteStepView::Reply(lite_fail("Invalid filename"@, "550 Invalid filename\r\n"@))
        } else {
            LiteStepView::DeleteFile(f)
        }),
        CommandView::CWD(p) => (c, if !c.is_logged_in {
            LiteStepView::Reply(lite_not_logged_in())
        } else if p.len() == 0 {
            LiteStepView::Reply(
                lite_fail("Missing directory path"@, "501 Syntax error in parameters or arguments\r\n"@),
            )
        } else {
            LiteStepView::ChangeDirectory(p)
        }),
        CommandView::PASV => (c, lite_pasv_spec(c, m)),
        CommandView::PORT(a) => (c, if c.is_logged_in {
            LiteStepView::ParsePort(a)
        } else {
            LiteStepView::Reply(lite_not_logged_in())
        }),
        CommandView::RAX => (c, LiteStepView::Reply(lite_ok("200 Rax is the best\r\n"@))),
        CommandView::UNKNOWN => (
            c,
            LiteStepView::Reply(
                lite_fail("Unknown command"@, "500 Syntax error, command unrecognized\r\n"@),
            ),
        ),
    }
}

/// Dispatches a command received from a client of the lite server. `PASV`
/// and `PORT` need the client's address to be known.
pub fn handle_command(client: &mut Client, command: &Command, channel_registry: &ChannelRegistry) -> (r:
    LiteStep)
    requires
        channel_registry.wf(),
        (command@ is PASV || command@ is PORT) ==> old(client)@.client_addr is Some,
    ensures
        (final(client)@, r@) == lite_step_spec(old(client)@, channel_registry@, command@),
{
    match command {
        Command::QUIT => {
            client.logout();
            LiteStep::Reply(CommandResult {
                status: CommandStatus::CloseConnection,
                message: Some(string_from_chars(&chars_of("221 Goodbye\r\n"))),
                data: None,
            })
        },
        Command::USER(u) => LiteStep::Reply(handle_cmd_user(client, u.as_str())),
        Command::PASS(p) => LiteStep::Reply(handle_cmd_pass(client, p.as_str())),
        Command::LIST => {
            if client.is_logged_in() {
                LiteStep::ListDirectory
            } else {
                LiteStep::Reply(reply_fail("Not logged in", "530 Not logged in\r\n"))
            }
        },
        Command::PWD => {
            if client.is_logged_in() {
                LiteStep::PrintDirectory
            } else {
                LiteStep::Reply(reply_fail("Not logged in", "530 Not logged in\r\n"))
            }
        },
        Command::LOGOUT => {
            if client.is_logged_in() {
                client.logout();
                LiteStep::Reply(reply_ok("221 Logout successful\r\n"))
            } else {
                LiteStep::Reply(reply_fail("Not logged in", "530 User Not logged in\r\n"))
            }
        },
        Command::RETR(f) => match file_gate(client, f.as_str()) {
            Some(r) => LiteStep::Reply(r),
            None => LiteStep::RetrieveFile(string_from_chars(&chars_of(f.as_str()))),
        },
        Command::STOR(f) => match file_gate(client, f.as_str()) {
            Some(r) => LiteStep::Reply(r),
            None => LiteStep::StoreFile(string_from_chars(&chars_of(f.as_str()))),
        },
        Command::DEL(f) => {
            if !client.is_logged_in() {
                return LiteStep::Reply(reply_fail("Not logged in", "530 Not logged in\r\n"));
            }
            if f.as_str().is_empty() {
                return LiteStep::Reply(
                    reply_fail("Missing filename", "501 Syntax error in parameters or arguments\r\n"),
                );
            }
            let v = chars_of(f.as_str());
            if contains_dot_dot(&v) || contains_char(&v, '/') || contains_char(&v, '\\') {
                return LiteStep::Reply(reply_fail("Invalid filename", "550 Invalid filename\r\n"));
            }
            LiteStep::DeleteFile(string_from_chars(&v))
        },
        Command::CWD(p) => {
            if !client.is_logged_in() {
                return LiteStep::Reply(reply_fail("Not logged in", "530 Not logged in\r\n"));
            }
            if p.as_str().is_empty() {
                return LiteStep::Reply(
                    reply_fail("Missing directory path", "501 Syntax error in parameters or arguments\r\n"),
                );
            }
            LiteStep::ChangeDirectory(string_from_chars(&chars_of(p.as_str())))
        },
        Command::PASV() => {
            let client_addr = match client.client_addr() {
                Some(a) => *a,
                None => {
                    return LiteStep::Reply(reply_fail("Not logged in", "530 Not logged in\r\n"));
                },
            };
            if !client.is_logged_in() {
                return LiteStep::Reply(reply_fail("Not logged in", "530 Not logged in\r\n"));
            }
            if channel_registry.contains(&client_addr) {
                return LiteStep::Reply(
                    reply_fail("Data channel already initialized", "425 Data connection already initialized\r\n"),
                );
            }
            match channel_registry.next_available_socket() {
                Some(s) => LiteStep::BindPassive(s),
                None => LiteStep::Reply(reply_fail("No available port", "425 Can't open data connection\r\n")),
            }
        },
        Command::PORT(a) => {
            if client.is_logged_in() {
                LiteStep::ParsePort(string_from_chars(&chars_of(a.as_str())))
            } else {
                LiteStep::Reply(reply_fail("Not logged in", "530 Not logged in\r\n"))
            }
        },
        Command::RAX => LiteStep::Reply(reply_ok("200 Rax is the best\r\n")),
        Command::UNKNOWN => LiteStep::Reply(
            reply_fail("Unknown command", "500 Syntax error, command unrecognized\r\n"),
        ),
    }
}

/// Completes `LIST` given what reading the served directory gave: the
/// names of its entries, or the error's description.
pub fn finish_list(listing: Result<Vec<String>, String>) -> (r: CommandResult)
    ensures
        match listing {
            Ok(names) => r@ == (LiteResultView {
                status: StatusView::Success,
                message: Some("226 Directory listing successful\r\n"@),
                data: Some(string_seqs(names@)),
            }),
            Err(e) => r@ == lite_fail(e@, "550 Failed to list directory\r\n"@),
        },
{
    match listing {
        Ok(names) => CommandResult {
            status: CommandStatus::Success,
            message: Some(string_from_chars(&chars_of("226 Directory listing successful\r\n"))),
            data: Some(CommandData::DirectoryListing(names)),
        },
        Err(e) => CommandResult {
            status: CommandStatus::Failure(e),
            message: Some(string_from_chars(&chars_of("550 Failed to list directory\r\n"))),
            data: None,
        },
    }
}

/// Completes `PWD` given the working directory, or the error's
/// description.
pub fn finish_pwd(current: Result<String, String>) -> (r: CommandResult)
    ensures
        match current {
            Ok(p) => r@ == lite_ok("257 \""@ + p@ + "\"\r\n"@),
            Err(e) => r@ == lite_fail(e@, "550 Failed to get current directory\r\n"@),
        },
{
    match current {
        Ok(p) => {
            let mut m = chars_of("257 \"");
            extend_chars(&mut m, &chars_of(p.as_str()));
            extend_chars(&mut m, &chars_of("\"\r\n"));
            CommandResult { status: CommandStatus::Success, message: Some(string_from_chars(&m)), data: None }
        },
        Err(e) => CommandResult {
            status: CommandStatus::Failure(e),
            message: Some(string_from_chars(&chars_of("550 Failed to get current directory\r\n"))),
            data: None,
        },
    }
}

/// Completes `DEL` given how removing the file went.
pub fn finish_delete(removed: Result<(), String>) -> (r: CommandResult)
    ensures
        match removed {
            Ok(()) => r@ == lite_ok("250 File deleted successfully\r\n"@),
            Err(e) => r@ == lite_fail(e@, "550 Failed to delete file\r\n"@),
        },
{
    match removed {
        Ok(()) => reply_ok("250 File deleted successfully\r\n"),
        Err(e) => CommandResult {
            status: CommandStatus::Failure(e),
            message: Some(string_from_chars(&chars_of("550 Failed to delete file\r\n"))),
            data: None,
        },
    }
}

/// Completes `CWD` given how changing the working directory went.
pub fn finish_cwd(changed: Result<(), String>) -> (r: CommandResult)
    ensures
        match changed {
            Ok(()) => r@ == lite_ok("250 Directory changed successfully\r\n"@),
            Err(e) => r@ == lite_fail(e@, "550 Failed to change directory\r\n"@),
        },
{
    match changed {
        Ok(()) => reply_ok("250 Directory changed successfully\r\n"),
        Err(e) => CommandResult {
            status: CommandStatus::Failure(e),
            message: Some(string_from_chars(&chars_of("550 Failed to change directory\r\n"))),
            data: None,
        },
    }
}

/// The reply when the client's address is not known.
pub open spec fn lite_addr_unknown() -> LiteResultView {
    lite_fail("Client address unknown"@, "500 Internal server error\r\n"@)
}

/// Carries a `RETR` on once the file was looked for: it must exist, and the
/// client's address must be known.
pub fn check_retrieve(client: &Client, file_exists: bool) -> (r: Result<SocketAddress, CommandResult>)
    ensures
        !file_exists ==> (r matches Err(x) && x@ == lite_fail("File not found"@, "550 File not found\r\n"@)),
        file_exists ==> match client@.client_addr {
            Some(a) => r == Ok::<SocketAddress, CommandResult>(a),
            None => r matches Err(x) && x@ == lite_addr_unknown(),
        },
{
    if !file_exists {
        return Err(reply_fail("File not found", "550 File not found\r\n"));
    }
    match client.client_addr() {
        Some(a) => Ok(*a),
        None => Err(reply_fail("Client address unknown", "500 Internal server error\r\n")),
    }
}

/// Carries a `STOR` on once the file was looked for: it must not exist yet,
/// and the client's address must be known.
pub fn check_store(client: &Client, file_exists: bool) -> (r: Result<SocketAddress, CommandResult>)
    ensures
        file_exists ==> (r matches Err(x) && x@ == lite_fail("File exists"@, "550 File already exists\r\n"@)),
        !file_exists ==> match client@.client_addr {
            Some(a) => r == Ok::<SocketAddress, CommandResult>(a),
            None => r matches Err(x) && x@ == lite_addr_unknown(),
        },
{
    if file_exists {
        return Err(reply_fail("File exists", "550 File already exists\r\n"));
    }
    match client.client_addr() {
        Some(a) => Ok(*a),
        None => Err(reply_fail("Client address unknown", "500 Internal server error\r\n")),
    }
}

/// The status and reply line a transfer of the lite server ends with.
pub type LiteTransferReply = (CommandStatus, String);

/// Completes `RETR` or `STOR`: `outcome` is none when no data connection
/// could be opened, and otherwise how the transfer ended, whose status and
/// reply line are passed on.
pub fn finish_transfer(outcome: Option<Result<LiteTransferReply, LiteTransferReply>>) -> (r: CommandResult)
    ensures
        match outcome {
            None => r@ == lite_fail(
                "425 Can't open data connection\r\n"@,
                "425 Can't open data connection\r\n"@,
            ),
            Some(Ok((s, m))) => r@ == lite_reply(s@, m@),
            Some(Err((s, m))) => r@ == lite_reply(s@, m@),
        },
{
    match outcome {
        None => reply_fail("425 Can't open data connection\r\n", "425 Can't open data connection\r\n"),
        Some(Ok((status, m))) => CommandResult { status, message: Some(m), data: None },
        Some(Err((status, m))) => CommandResult { status, message: Some(m), data: None },
    }
}

/// What checking the address named by `PORT` gives (none when it is not a
/// socket address): it must be on the client's IP address, with a port of
/// at least 1024, and the client must not have a data channel yet.
pub open spec fn lite_port_spec(
    client_addr: SocketAddress,
    m: Map<SocketAddress, ChannelEntryView>,
    requested: Option<SocketAddress>,
) -> Result<SocketAddress, LiteResultView> {
    match requested {
        None => Err(lite_fail("Invalid address format"@, "501 Invalid address format. Use IP::PORT\r\n"@)),
        Some(a) => if a.ip != client_addr.ip {
            Err(lite_fail("IP mismatch"@, "501 IP address in PORT must match control connection\r\n"@))
        } else if a.port < 1024 {
            Err(lite_fail("Port out of range"@, "501 Port must be between 1024 and 65535\r\n"@))
        } else if m.dom().contains(client_addr) {
            Err(
                lite_fail("Data channel already initialized"@, "425 Data connection already initialized\r\n"@),
            )
        } else {
            Ok(a)
        },
    }
}

/// Checks the address named by `PORT` for a client with a known address;
/// on success the caller binds a listener on it.
pub fn check_port(client: &Client, channel_registry: &ChannelRegistry, requested: Option<SocketAddress>) -> (r:
    Result<SocketAddress, CommandResult>)
    requires
        channel_registry.wf(),
        client@.client_addr is Some,
    ensures
        match lite_port_spec(client@.client_addr->0, channel_registry@, requested) {
            Ok(a) => r == Ok::<SocketAddress, CommandResult>(a),
            Err(x) => r matches Err(y) && y@ == x,
        },
{
    let client_addr = match client.client_addr() {
        Some(a) => *a,
        None => {
            return Err(reply_fail("Client address unknown", "500 Internal server error\r\n"));
        },
    };
    let a = match requested {
        None => {
            return Err(reply_fail("Invalid address format", "501 Invalid address format. Use IP::PORT\r\n"));
        },
        Some(a) => a,
    };
    if a.ip != client_addr.ip {
        return Err(reply_fail("IP mismatch", "501 IP address in PORT must match control connection\r\n"));
    }
    if a.port < 1024 {
        return Err(reply_fail("Port out of range", "501 Port must be between 1024 and 65535\r\n"));
    }
    if channel_registry.contains(&client_addr) {
        return Err(
            reply_fail("Data channel already initialized", "425 Data connection already initialized\r\n"),
        );
    }
    Ok(a)
}

/// The registry entry of a client whose listener is bound on `data_socket`.
pub open spec fn lite_entry(data_socket: SocketAddress) -> ChannelEntryView {
    ChannelEntryView { data_socket: Some(data_socket), has_stream: false, has_listener: true, owner_ip: None }
}

/// Completes `PASV` or `PORT` once the caller tried to bind the listener:
/// on success the client's channel is registered and counts as set up; on
/// failure nothing changes.
pub fn finish_listener(
    client: &mut Client,
    channel_registry: &mut ChannelRegistry,
    client_addr: SocketAddress,
    data_socket: SocketAddress,
    mode: TransferMode,
    outcome: ListenerOutcome,
) -> (r: CommandResult)
    requires
        old(channel_registry).wf(),
    ensures
        final(channel_registry).wf(),
        outcome is Ready ==> {
            &&& final(client)@ == (LiteClientView { is_data_channel_init: true, ..old(client)@ })
            &&& final(channel_registry)@ == old(channel_registry)@.insert(client_addr, lite_entry(data_socket))
            &&& r@ == match mode {
                TransferMode::Passive => lite_ok(
                    "227 Entering Passive Mode ("@ + host_port_text(data_socket) + ")\r\n"@,
                ),
                TransferMode::Active => lite_ok("200 PORT command successful\r\n"@),
            }
        },
        outcome is BindFailed ==> final(client)@ == old(client)@ && final(channel_registry)@ == old(
            channel_registry,
        )@ && r@ == lite_fail("Port binding failed"@, "425 Can't open data connection\r\n"@),
        outcome is ConfigurationFailed ==> final(client)@ == old(client)@ && final(channel_registry)@
            == old(channel_registry)@ && r@ == lite_fail(
            "Failed to configure listener"@,
            "425 Can't open data connection\r\n"@,
        ),
{
    match outcome {
        ListenerOutcome::BindFailed(_) => reply_fail("Port binding failed", "425 Can't open data connection\r\n"),
        ListenerOutcome::ConfigurationFailed(_) => reply_fail(
            "Failed to configure listener",
            "425 Can't open data connection\r\n",
        ),
        ListenerOutcome::Ready => {
            let mut entry = ChannelEntry::default();
            entry.set_data_socket(Some(data_socket));
            entry.set_data_stream(false);
            entry.set_listener(true);
            channel_registry.insert(client_addr, entry);
            client.set_data_channel_init(true);
            match mode {
                TransferMode::Passive => {
                    let mut m = chars_of("227 Entering Passive Mode (");
                    extend_chars(&mut m, &chars_of(host_port_to_string(data_socket).as_str()));
                    extend_chars(&mut m, &chars_of(")\r\n"));
                    CommandResult { status: CommandStatus::Success, message: Some(string_from_chars(&m)), data: None }
                },
                TransferMode::Active => reply_ok("200 PORT command successful\r\n"),
            }
        },
    }
}

/// A client of the lite server becomes logged in only through a `PASS`
/// carrying exactly the password stored for the user name it holds.
pub proof fn law_lite_login_needs_stored_password(
    c: LiteClientView,
    m: Map<SocketAddress, ChannelEntryView>,
    cmd: CommandView,
)
    ensures
        ({
            let c2 = lite_step_spec(c, m, cmd).0;
            !c.is_logged_in && c2.is_logged_in ==> {
                &&& cmd is PASS
                &&& c.is_user_valid
                &&& c.username is Some
                &&& crate::auth::credentials::stored_password(c.username->0) == Some(cmd->PASS_0)
            }
        }),
{
}

/// In the lite server, a `USER` naming a stored user makes that name the
/// client's user name, replacing any earlier one, and a `PASS` that follows
/// logs the client in as that user exactly when it carries the stored
/// password.
pub proof fn law_lite_user_names_the_client(
    c: LiteClientView,
    m: Map<SocketAddress, ChannelEntryView>,
    name: Seq<char>,
    password: Seq<char>,
)
    requires
        crate::auth::credentials::stored_password(name) is Some,
    ensures
        ({
            let c2 = lite_step_spec(c, m, CommandView::USER(name)).0;
            let c3 = lite_step_spec(c2, m, CommandView::PASS(password)).0;
            &&& c2.username == Some(name)
            &&& c2.is_user_valid
            &&& !c2.is_logged_in
            &&& c3.username == Some(name)
            &&& (c3.is_logged_in <==> crate::auth::credentials::stored_password(name) == Some(password))
        }),
{
}

/// In the lite server, `PWD` from a logged-in client asks for the working
/// directory and changes nothing; a client that is not logged in is
/// refused.
pub proof fn law_lite_pwd_reads_directory(c: LiteClientView, m: Map<SocketAddress, ChannelEntryView>)
    ensures
        c.is_logged_in ==> lite_step_spec(c, m, CommandView::PWD) == (c, LiteStepView::PrintDirectory),
        !c.is_logged_in ==> lite_step_spec(c, m, CommandView::PWD).1 is Reply,
{
}

/// In the lite server, a logged-in client with a data channel that names a
/// plain file (non-empty, without `..`, separators or characters not
/// allowed in file names) has that very file sent by `RETR` and received by
/// `STOR`; `DEL` of such a name removes it. A name with `..` or a separator
/// is never acted on.
pub proof fn law_lite_file_commands_act_on_their_argument(
    c: LiteClientView,
    m: Map<SocketAddress, ChannelEntryView>,
    f: Seq<char>,
)
    requires
        c.is_logged_in,
    ensures
        (c.is_data_channel_init && f.len() > 0 && !unsafe_transfer_name(f)) ==> lite_step_spec(
            c,
            m,
            CommandView::RETR(f),
        ) == (c, LiteStepView::RetrieveFile(f)),
        (c.is_data_channel_init && f.len() > 0 && !unsafe_transfer_name(f)) ==> lite_step_spec(
            c,
            m,
            CommandView::STOR(f),
        ) == (c, LiteStepView::StoreFile(f)),
        (f.len() > 0 && !unsafe_transfer_name(f)) ==> lite_step_spec(c, m, CommandView::DEL(f)) == (
            c,
            LiteStepView::DeleteFile(f),
        ),
        (has_dot_dot(f) || f.contains('/') || f.contains('\\')) ==> {
            &&& lite_step_spec(c, m, CommandView::RETR(f)).1 is Reply
            &&& lite_step_spec(c, m, CommandView::STOR(f)).1 is Reply
            &&& lite_step_spec(c, m, CommandView::DEL(f)).1 is Reply
        },
{
}

} // verus!
