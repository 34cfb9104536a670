//! The decisions of the server's connection handling: the greeting, the
//! login phase of a new connection, and the admission of a logged-in
//! client into the registry.
use crate::client::registry::ClientRegistry;
use crate::client::state::{Client, ClientView};
use crate::config::StartupConfig;
use crate::net::SocketAddress;
use crate::protocol::commands::{parse_command, parse_command_spec, CommandResult};
use crate::protocol::handlers::{auth_command_outcome, handle_auth_command};
use crate::text::{chars_of, string_from_chars};
use vstd::prelude::*;

verus! {

/// The greeting sent to a client when it connects.
pub fn greeting() -> (s: String)
    ensures
        s@ == "220 Welcome to RAX FTP Server\r\n"@,
{
    string_from_chars(&chars_of("220 Welcome to RAX FTP Server\r\n"))
}

/// Handles one line read from a client that has not logged in yet: only
/// `USER` and `PASS` are served.
pub fn handle_new_client(client: &mut Client, line: &str, config: &StartupConfig) -> (r: CommandResult)
    ensures
        (final(client)@, r@) == auth_command_outcome(
            old(client)@,
            parse_command_spec(line@),
            config.max_username_length,
        ),
{
    let command = parse_command(line);
    handle_auth_command(client, &command, config)
}

/// What admitting a logged-in client does: refused, with the reply to send,
/// when the registry is full; otherwise the client, with its address
/// recorded, is registered under that address.
pub open spec fn admission_spec(
    clients: Map<SocketAddress, ClientView>,
    client: ClientView,
    client_addr: SocketAddress,
    max_clients: usize,
) -> (Map<SocketAddress, ClientView>, Result<(), Seq<char>>) {
    if clients.len() >= max_clients {
        (clients, Err("421 Too many connections. Try again later.\r\n"@))
    } else {
        (clients.insert(client_addr, ClientView { client_addr: Some(client_addr), ..client }), Ok(()))
    }
}

/// Admits a client that has just logged in.
pub fn admit_client(
    clients: &mut ClientRegistry,
    client: Client,
    client_addr: SocketAddress,
    max_clients: usize,
) -> (r: Result<(), String>)
    requires
        old(clients).wf(),
    ensures
        final(clients).wf(),
        ({
            let (m, x) = admission_spec(old(clients)@, client@, client_addr, max_clients);
            &&& final(clients)@ == m
            &&& match x {
                Ok(()) => r is Ok,
                Err(e) => r matches Err(y) && y@ == e,
            }
        }),
{
    if clients.len() >= max_clients {
        return Err(string_from_chars(&chars_of("421 Too many connections. Try again later.\r\n")));
    }
    let mut client = client;
    client.set_client_addr(Some(client_addr));
    clients.insert(client_addr, client);
    Ok(())
}

/// Admission keeps the number of registered clients within the limit: a
/// registry within the limit stays within it, and a refused client leaves
/// the registry as it was.
pub proof fn law_admission_bounded(
    clients: Map<SocketAddress, ClientView>,
    client: ClientView,
    client_addr: SocketAddress,
    max_clients: usize,
)
    requires
        clients.dom().finite(),
        clients.len() <= max_clients,
    ensures
        admission_spec(clients, client, client_addr, max_clients).0.len() <= max_clients,
        admission_spec(clients, client, client_addr, max_clients).1 is Err ==> admission_spec(
            clients,
            client,
            client_addr,
            max_clients,
        ).0 == clients,
{
    if clients.len() < max_clients {
        let c2 = ClientView { client_addr: Some(client_addr), ..client };
        if clients.dom().contains(client_addr) {
            assert(clients.insert(client_addr, c2).dom() =~= clients.dom());
        } else {
            assert(clients.insert(client_addr, c2).dom() =~= clients.dom().insert(client_addr));
        }
    }
}

} // verus!
