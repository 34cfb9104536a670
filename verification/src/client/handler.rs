//! The command loop of a logged-in client's session: what each line read
//! from the control connection leads to, and the clean-up when the session
//! ends.
use crate::client::registry::ClientRegistry;
use crate::client::state::ClientView;
use crate::config::StartupConfig;
use crate::net::SocketAddress;
use crate::protocol::commands::{parse_command, parse_command_spec, CommandResultView, StatusView};
use crate::protocol::handlers::{command_step_spec, handle_command, CommandStep, CommandStepView};
use crate::text::{chars_of, slice_range, string_from_chars};
use crate::transfer::channel_registry::{ChannelEntryView, ChannelRegistry};
use vstd::prelude::*;

verus! {

/// The longest command line accepted, in bytes.
pub const MAX_COMMAND_LENGTH: usize = 512;

/// What the session does after a line was read.
#[derive(Debug)]
pub enum SessionAction {
    /// Send this reply and read the next line; end the session if it cannot
    /// be sent.
    Send(String),
    /// Send nothing and read the next line.
    Continue,
    /// Send this reply, if any (a failure to send it is ignored), and end
    /// the session.
    Close(Option<String>),
    /// The command needs outside work: carry out this step.
    Step(CommandStep),
}

/// The mathematical value of a [`SessionAction`].
pub enum SessionActionView {
    Send(Seq<char>),
    Continue,
    Close(Option<Seq<char>>),
    Step(CommandStepView),
}

impl View for SessionAction {
    type V = SessionActionView;

    open spec fn view(&self) -> SessionActionView {
        match self {
            SessionAction::Send(m) => SessionActionView::Send(m@),
            SessionAction::Continue => SessionActionView::Continue,
            SessionAction::Close(m) => SessionActionView::Close(
                match m {
                    Some(x) => Some(x@),
                    None => None,
                },
            ),
            SessionAction::Step(s) => SessionActionView::Step(s@),
        }
    }
}

/// `s` without the `\r\n` pairs it ends with, as `trim_end_matches("\r\n")`
/// gives it.
pub open spec fn trim_crlf_end(s: Seq<char>) -> Seq<char>
    decreases s.len(),
{
    if s.len() >= 2 && s[s.len() - 2] == '\r' && s[s.len() - 1] == '\n' {
        trim_crlf_end(s.subrange(0, s.len() - 2))
    } else {
        s
    }
}

fn trim_crlf_end_chars(s: &Vec<char>) -> (t: Vec<char>)
    ensures
        t@ == trim_crlf_end(s@),
{
    let mut end = s.len();
    assert(s@.subrange(0, end as int) =~= s@);
    while end >= 2 && s[end - 2] == '\r' && s[end - 1] == '\n'
        invariant
            end <= s@.len(),
            trim_crlf_end(s@) == trim_crlf_end(s@.subrange(0, end as int)),
        decreases end,
    {
        assert(s@.subrange(0, end as int).subrange(0, end - 2) =~= s@.subrange(0, end - 2));
        end = end - 2;
    }
    slice_range(s, 0, end)
}

/// What the session does with the reply of a finished command: a reply
/// that closes the connection ends the session after it is sent.
pub open spec fn reply_action(r: CommandResultView) -> SessionActionView {
    match r.status {
        StatusView::CloseConnection => SessionActionView::Close(r.message),
        _ => match r.message {
            Some(m) => SessionActionView::Send(m),
            None => SessionActionView::Continue,
        },
    }
}

/// What the session does for a step of a command.
pub open spec fn step_action(s: CommandStepView) -> SessionActionView {
    match s {
        CommandStepView::Reply(r) => reply_action(r),
        _ => SessionActionView::Step(s),
    }
}

/// What a line read from a logged-in client leads to: a line over
/// [`MAX_COMMAND_LENGTH`] bytes is refused; otherwise the line, without
/// its trailing CRLF, is parsed and handled for the client registered
/// under the address, and a session whose client is gone is closed.
pub open spec fn session_line_spec(
    clients: Map<SocketAddress, ClientView>,
    channels: Map<SocketAddress, ChannelEntryView>,
    client_addr: SocketAddress,
    line: Seq<char>,
    max_username_length: usize,
) -> (Map<SocketAddress, ClientView>, Map<SocketAddress, ChannelEntryView>, SessionActionView) {
    if crate::auth::validator::utf8_len(line) > MAX_COMMAND_LENGTH {
        (clients, channels, SessionActionView::Send("500 Command too long\r\n"@))
    } else if !clients.dom().contains(client_addr) {
        (clients, channels, SessionActionView::Close(Some("421 Client session not found\r\n"@)))
    } else {
        let cmd = parse_command_spec(trim_crlf_end(line));
        let (c2, m2, step) = command_step_spec(clients[client_addr], channels, cmd, max_username_length);
        (clients.insert(client_addr, c2), m2, step_action(step))
    }
}

fn reply_to_action(r: crate::protocol::commands::CommandResult) -> (a: SessionAction)
    ensures
        a@ == reply_action(r@),
{
    match r.status {
        crate::protocol::commands::CommandStatus::CloseConnection => SessionAction::Close(r.message),
        _ => match r.message {
            Some(m) => SessionAction::Send(m),
            None => SessionAction::Continue,
        },
    }
}

/// Handles one line read from a logged-in client's control connection.
pub fn handle_client(
    clients: &mut ClientRegistry,
    channel_registry: &mut ChannelRegistry,
    client_addr: SocketAddress,
    line: &str,
    config: &StartupConfig,
) -> (a: SessionAction)
    requires
        old(clients).wf(),
    ensures
        final(clients).wf(),
        (final(clients)@, final(channel_registry)@, a@) == session_line_spec(
            old(clients)@,
            old(channel_registry)@,
            client_addr,
            line@,
            config.max_username_length,
        ),
{
    if line.len() > MAX_COMMAND_LENGTH {
        return SessionAction::Send(string_from_chars(&chars_of("500 Command too long\r\n")));
    }
    let trimmed = string_from_chars(&trim_crlf_end_chars(&chars_of(line)));
    let command = parse_command(trimmed.as_str());
    match clients.get_mut(&client_addr) {
        None => SessionAction::Close(Some(string_from_chars(&chars_of("421 Client session not found\r\n")))),
        Some(client) => {
            let step = handle_command(client, &command, channel_registry, config);
            match step {
                CommandStep::Reply(r) => reply_to_action(r),
                _ => SessionAction::Step(step),
            }
        },
    }
}

/// Ends a client's session: its data channel and its registration are
/// dropped.
pub fn end_session(clients: &mut ClientRegistry, channel_registry: &mut ChannelRegistry, client_addr: &SocketAddress)
    requires
        old(clients).wf(),
    ensures
        final(clients).wf(),
        final(clients)@ == old(clients)@.remove(*client_addr),
        final(channel_registry)@ == old(channel_registry)@.remove(*client_addr),
{
    let _ = channel_registry.remove(client_addr);
    let _ = clients.remove(client_addr);
}

/// A line from one client changes no other client's record, and a line
/// over the length limit changes nothing at all and is refused.
pub proof fn law_session_line_touches_only_sender(
    clients: Map<SocketAddress, ClientView>,
    channels: Map<SocketAddress, ChannelEntryView>,
    client_addr: SocketAddress,
    line: Seq<char>,
    max_username_length: usize,
)
    ensures
        ({
            let (c2, m2, act) = session_line_spec(clients, channels, client_addr, line, max_username_length);
            &&& forall|x: SocketAddress| x != client_addr ==> (#[trigger] c2.dom().contains(x)
                <==> clients.dom().contains(x))
            &&& forall|x: SocketAddress| x != client_addr && #[trigger] clients.dom().contains(x) ==> c2[x]
                == clients[x]
            &&& crate::auth::validator::utf8_len(line) > MAX_COMMAND_LENGTH ==> c2 == clients && m2 == channels
                && act == SessionActionView::Send("500 Command too long\r\n"@)
        }),
{
}

} // verus!
