//! The command loop of a lite-server client: bytes read from the control
//! connection are framed into command lines, each line is handled for the
//! client, and results are turned into what is written back.
use crate::addr_map::AddressMap;
use crate::auth::validator::utf8_len;
use crate::lite::channel_registry::ChannelRegistry;
use crate::lite::client::Client;
use crate::lite::command::{parse_command, lite_parse_spec, CommandData, CommandResult, CommandStatus};
use crate::lite::handlers::{handle_command, lite_step_spec, LiteResultView, LiteStep};
use crate::net::SocketAddress;
use crate::protocol::commands::StatusView;
use crate::storage::operations::string_seqs;
use crate::text::{chars_of, slice_range, string_from_chars, trim, trim_chars};
use crate::transfer::data_channel::{crlf_joined, listing_payload};
use vstd::prelude::*;

verus! {

/// The most bytes a pending command may take.
pub const MAX_COMMAND_LENGTH: usize = 512;

/// The position of the first CRLF at or after `i`, or -1.
pub open spec fn find_crlf(s: Seq<char>, i: nat) -> int
    decreases s.len() - i,
{
    if i + 1 >= s.len() {
        -1
    } else if s[i as int] == '\r' && s[i + 1int] == '\n' {
        i as int
    } else {
        find_crlf(s, i + 1)
    }
}

/// The first CRLF at or after `i`, when there is one, is a CRLF, and none
/// comes before it.
pub proof fn lemma_find_crlf(s: Seq<char>, i: nat)
    ensures
        find_crlf(s, i) == -1 || (i <= find_crlf(s, i) && find_crlf(s, i) + 1 < s.len() && s[find_crlf(s, i)]
            == '\r' && s[find_crlf(s, i) + 1] == '\n'),
    decreases s.len() - i,
{
    if i + 1 < s.len() && !(s[i as int] == '\r' && s[i + 1int] == '\n') {
        lemma_find_crlf(s, i + 1);
    }
}

/// The command lines a buffer holds, each trimmed, and what is left after
/// the last CRLF.
pub open spec fn split_commands(s: Seq<char>) -> (Seq<Seq<char>>, Seq<char>)
    decreases s.len(),
{
    let p = find_crlf(s, 0);
    if p < 0 {
        (Seq::empty(), s)
    } else {
        proof {
            lemma_find_crlf(s, 0);
        }
        let (lines, rest) = split_commands(s.subrange(p + 2, s.len() as int));
        (seq![trim(s.subrange(0, p))] + lines, rest)
    }
}

/// Framing takes out every complete command: the text kept after the last
/// command line holds no CRLF.
pub proof fn law_framing_leaves_no_complete_command(s: Seq<char>)
    ensures
        find_crlf(split_commands(s).1, 0) == -1,
    decreases s.len(),
{
    let p = find_crlf(s, 0);
    lemma_find_crlf(s, 0);
    if p >= 0 {
        let t = s.subrange(p + 2, s.len() as int);
        law_framing_leaves_no_complete_command(t);
        assert(split_commands(s).1 == split_commands(t).1);
    } else {
        assert(split_commands(s).1 == s);
    }
}

/// What framing a chunk gives.
#[derive(Debug)]
pub enum FrameOutcome {
    /// The pending command would grow beyond [`MAX_COMMAND_LENGTH`]; it is
    /// dropped.
    TooLong,
    /// The complete command lines now available, trimmed.
    Commands(Vec<String>),
}

fn find_crlf_exec(s: &Vec<char>, from: usize) -> (p: Option<usize>)
    requires
        from <= s@.len(),
    ensures
        match p {
            None => find_crlf(s@, from as nat) == -1,
            Some(k) => find_crlf(s@, from as nat) == k as int,
        },
{
    let mut i = from;
    while s.len() - i > 1
        invariant
            from <= i <= s@.len(),
            find_crlf(s@, from as nat) == find_crlf(s@, i as nat),
        decreases s@.len() - i,
    {
        if s[i] == '\r' && s[i + 1] == '\n' {
            return Some(i);
        }
        i = i + 1;
    }
    None
}

/// Adds a chunk read from the control connection to the pending command
/// text and takes out the complete command lines. A pending text that
/// would grow beyond the limit is dropped with the chunk.
pub fn take_commands(buffer: &mut String, chunk: &str) -> (r: FrameOutcome)
    ensures
        utf8_len(old(buffer)@) + utf8_len(chunk@) > MAX_COMMAND_LENGTH ==> (r is TooLong
            && final(buffer)@ == Seq::<char>::empty()),
        utf8_len(old(buffer)@) + utf8_len(chunk@) <= MAX_COMMAND_LENGTH ==> ({
            let (lines, rest) = split_commands(old(buffer)@ + chunk@);
            &&& r matches FrameOutcome::Commands(v) && string_seqs(v@) == lines
            &&& final(buffer)@ == rest
        }),
{
    let ghost b0 = buffer@;
    let too_long = match buffer.as_str().len().checked_add(chunk.len()) {
        Some(n) => n > MAX_COMMAND_LENGTH,
        None => true,
    };
    if too_long {
        *buffer = string_from_chars(&Vec::new());
        return FrameOutcome::TooLong;
    }
    let mut all = chars_of(buffer.as_str());
    crate::text::extend_chars(&mut all, &chars_of(chunk));
    let ghost whole = all@;
    let mut lines: Vec<String> = Vec::new();
    let mut start: usize = 0;
    assert(whole.subrange(0, whole.len() as int) =~= whole);
    assert(string_seqs(lines@) =~= Seq::<Seq<char>>::empty());
    assert(split_commands(whole) == ({
        let (l, r) = split_commands(whole.subrange(0, whole.len() as int));
        (Seq::<Seq<char>>::empty() + l, r)
    })) by {
        let (l, r) = split_commands(whole);
        assert(Seq::<Seq<char>>::empty() + l =~= l);
    }
    loop
        invariant
            start <= all@.len(),
            all@ == whole,
            whole == b0 + chunk@,
            b0 == old(buffer)@,
            utf8_len(b0) + utf8_len(chunk@) <= MAX_COMMAND_LENGTH,
            split_commands(whole) == ({
                let (l, r) = split_commands(whole.subrange(start as int, whole.len() as int));
                (string_seqs(lines@) + l, r)
            }),
        decreases all@.len() - start,
    {
        let rest = slice_range(&all, start, all.len());
        match find_crlf_exec(&rest, 0) {
            None => {
                proof {
                    assert(split_commands(rest@) == (Seq::<Seq<char>>::empty(), rest@));
                    assert(string_seqs(lines@) + Seq::<Seq<char>>::empty() =~= string_seqs(lines@));
                }
                *buffer = string_from_chars(&rest);
                return FrameOutcome::Commands(lines);
            },
            Some(p) => {
                proof {
                    lemma_find_crlf(rest@, 0);
                }
                let line = trim_chars(&slice_range(&rest, 0, p));
                let ghost before = lines@;
                lines.push(string_from_chars(&line));
                proof {
                    let tail = rest@.subrange(p + 2, rest@.len() as int);
                    assert(tail =~= whole.subrange(start + p + 2, whole.len() as int));
                    assert(string_seqs(lines@) =~= string_seqs(before).push(trim(rest@.subrange(0, p as int))));
                    let (l, r) = split_commands(tail);
                    assert(split_commands(rest@) == (seq![trim(rest@.subrange(0, p as int))] + l, r));
                    assert(string_seqs(before) + (seq![trim(rest@.subrange(0, p as int))] + l)
                        =~= string_seqs(lines@) + l);
                }
                start = start + p + 2;
            },
        }
    }
}

/// What a session of the lite server does with a command line.
#[derive(Debug)]
pub enum LiteSessionAction {
    /// The client's session is gone: send this reply and end the session.
    NotFound(String),
    /// Carry out this step for the client.
    Step(LiteStep),
}

/// Handles one command line of a client of the lite server. `PASV` and
/// `PORT` need the registered client's address to be known.
pub fn handle_client(
    clients: &mut AddressMap<Client>,
    channel_registry: &ChannelRegistry,
    client_addr: SocketAddress,
    raw_command: &str,
) -> (a: LiteSessionAction)
    requires
        old(clients).wf(),
        channel_registry.wf(),
        old(clients)@.dom().contains(client_addr) && (lite_parse_spec(raw_command@) is PASV
            || lite_parse_spec(raw_command@) is PORT) ==> old(clients)@[client_addr].client_addr is Some,
    ensures
        final(clients).wf(),
        !old(clients)@.dom().contains(client_addr) ==> final(clients)@ == old(clients)@ && (a matches LiteSessionAction::NotFound(m)
            && m@ == "421 Client session not found\r\n"@),
        old(clients)@.dom().contains(client_addr) ==> ({
            let (c2, step) = lite_step_spec(old(clients)@[client_addr], channel_registry@, lite_parse_spec(raw_command@));
            &&& final(clients)@ == old(clients)@.insert(client_addr, c2)
            &&& a matches LiteSessionAction::Step(s) && s@ == step
        }),
{
    let command = parse_command(raw_command);
    match clients.get_mut(&client_addr) {
        None => LiteSessionAction::NotFound(string_from_chars(&chars_of("421 Client session not found\r\n"))),
        Some(client) => LiteSessionAction::Step(handle_command(client, &command, channel_registry)),
    }
}

/// What is written back for a command's result, in order, and whether the
/// connection is then closed: a directory listing comes before the reply
/// line, and a result that closes the connection closes it after its reply.
pub open spec fn session_output_spec(r: LiteResultView) -> (Seq<Seq<char>>, bool) {
    let msg = match r.message {
        Some(m) => seq![m],
        None => Seq::empty(),
    };
    match r.status {
        StatusView::CloseConnection => (msg, true),
        StatusView::Success => match r.data {
            Some(listing) => (seq![crlf_joined(listing)] + msg, false),
            None => (msg, false),
        },
        StatusView::Failure(_) => (msg, false),
    }
}

/// What to write back for a command's result.
pub fn session_output(result: &CommandResult) -> (out: (Vec<String>, bool))
    ensures
        (string_seqs(out.0@), out.1) == session_output_spec(result@),
{
    let mut lines: Vec<String> = Vec::new();
    let close = match &result.status {
        CommandStatus::CloseConnection => true,
        _ => false,
    };
    match &result.status {
        CommandStatus::Success => match &result.data {
            Some(CommandData::DirectoryListing(l)) => {
                lines.push(listing_payload(l));
            },
            None => {},
        },
        _ => {},
    }
    let ghost head = string_seqs(lines@);
    match &result.message {
        Some(m) => {
            lines.push(string_from_chars(&chars_of(m.as_str())));
        },
        None => {},
    }
    assert(string_seqs(lines@) =~= session_output_spec(result@).0);
    (lines, close)
}

/// Ends a lite-server session: the client's registration is dropped.
pub fn end_session(clients: &mut AddressMap<Client>, client_addr: &SocketAddress)
    requires
        old(clients).wf(),
    ensures
        final(clients).wf(),
        final(clients)@ == old(clients)@.remove(*client_addr),
{
    let _ = clients.remove(client_addr);
}

} // verus!
