//! Decisions around data connections: who may open one, how it is opened
//! for a client's registered channel, and what a directory listing sends.
use crate::client::state::Client;
use crate::error::types::{TransferError, TransferErrorView};
use crate::net::SocketAddress;
use crate::storage::operations::string_seqs;
use crate::text::{chars_of, extend_chars, string_from_chars};
use crate::transfer::channel_registry::{ChannelEntryView, ChannelRegistry};
use vstd::prelude::*;

verus! {

/// Seconds the server waits when connecting to a client in active mode.
pub const CONNECTION_TIMEOUT_SECS: u64 = 10;

/// Whether a client may transfer data: it is logged in and has set up a
/// data channel.
pub fn validate_client_and_data_channel(client: &Client) -> (b: bool)
    ensures
        b == (client@.is_logged_in && client@.is_data_channel_init),
{
    client.is_logged_in() && client.is_data_channel_init()
}

/// How the data connection of a client is to be opened.
#[derive(Debug, Clone, Copy, PartialEq, Eq, Structural)]
pub enum DataStreamPlan {
    /// Active mode: the server connects to the client at this socket.
    Connect(SocketAddress),
    /// Passive mode: the server accepts a connection on its listener.
    Accept,
    /// No data channel is set up for the client.
    Unavailable,
}

/// The plan for opening the data connection of a client with the given
/// registry entry (none when it has no entry): connect out when a data
/// socket is known but no listener is held, accept on the listener when one
/// is held, and otherwise nothing can be opened.
pub open spec fn data_stream_plan(entry: Option<ChannelEntryView>) -> DataStreamPlan {
    match entry {
        None => DataStreamPlan::Unavailable,
        Some(e) => match e.data_socket {
            Some(s) if !e.has_listener => DataStreamPlan::Connect(s),
            _ => if e.has_listener {
                DataStreamPlan::Accept
            } else {
                DataStreamPlan::Unavailable
            },
        },
    }
}

/// Decides how the data connection of a client is opened, from its entry in
/// the channel registry.
pub fn setup_data_stream(channel_registry: &ChannelRegistry, client_addr: &SocketAddress) -> (p:
    DataStreamPlan)
    ensures
        p == data_stream_plan(
            if channel_registry@.dom().contains(*client_addr) {
                Some(channel_registry@[*client_addr])
            } else {
                None
            },
        ),
{
    match channel_registry.get(client_addr) {
        None => DataStreamPlan::Unavailable,
        Some(e) => {
            let held = e.listener();
            match e.data_socket() {
                Some(s) => {
                    if !held {
                        return DataStreamPlan::Connect(s);
                    }
                },
                None => {},
            }
            if held {
                DataStreamPlan::Accept
            } else {
                DataStreamPlan::Unavailable
            }
        },
    }
}

/// The error reported when no data connection could be opened.
pub fn data_connection_unavailable() -> (e: TransferError)
    ensures
        e@ == TransferErrorView::DataChannelSetupFailed("Failed to establish data connection"@),
{
    TransferError::DataChannelSetupFailed(string_from_chars(&chars_of("Failed to establish data connection")))
}

/// The lines joined with CRLF, and a final CRLF.
pub open spec fn crlf_joined(lines: Seq<Seq<char>>) -> Seq<char>
    decreases lines.len(),
{
    if lines.len() == 0 {
        seq!['\r', '\n']
    } else if lines.len() == 1 {
        lines[0] + seq!['\r', '\n']
    } else {
        lines[0] + seq!['\r', '\n'] + crlf_joined(lines.drop_first())
    }
}

/// What is sent over the data connection for a directory listing: the
/// lines joined with CRLF, followed by CRLF.
pub fn listing_payload(listing: &Vec<String>) -> (s: String)
    ensures
        s@ == crlf_joined(string_seqs(listing@)),
{
    let n = listing.len();
    if n == 0 {
        let v = vec!['\r', '\n'];
        assert(v@ =~= seq!['\r', '\n']);
        return string_from_chars(&v);
    }
    // Build from the back: tail holds the joined form of lines k..n.
    let mut tail = chars_of(listing[n - 1].as_str());
    tail.push('\r');
    tail.push('\n');
    let mut k: usize = n - 1;
    proof {
        let t = string_seqs(listing@).subrange(k as int, n as int);
        assert(t.len() == 1);
        assert(t[0] == listing@[n - 1]@);
    }
    while k > 0
        invariant
            n == listing@.len(),
            k < n,
            tail@ == crlf_joined(string_seqs(listing@).subrange(k as int, n as int)),
        decreases k,
    {
        k = k - 1;
        let mut head = chars_of(listing[k].as_str());
        head.push('\r');
        head.push('\n');
        extend_chars(&mut head, &tail);
        proof {
            let all = string_seqs(listing@);
            let t = all.subrange(k as int, n as int);
            assert(t.drop_first() =~= all.subrange(k + 1, n as int));
            assert(t[0] == listing@[k as int]@);
            assert(head@ =~= t[0] + seq!['\r', '\n'] + crlf_joined(t.drop_first()));
        }
        tail = head;
    }
    assert(string_seqs(listing@).subrange(0, n as int) =~= string_seqs(listing@));
    string_from_chars(&tail)
}

} // verus!
