//! Settings and admission of the lite server.
use crate::addr_map::AddressMap;
use crate::lite::client::{Client, LiteClientView};
use crate::net::SocketAddress;
use crate::text::{chars_of, string_from_chars};
use vstd::prelude::*;

verus! {

/// The most clients served at once.
pub const MAX_CLIENTS: usize = 10;

/// The address the control connection listens on.
pub fn command_socket() -> (s: String)
    ensures
        s@ == "127.0.0.1:2121"@,
{
    string_from_chars(&chars_of("127.0.0.1:2121"))
}

/// The greeting written when a client's session starts.
pub fn greeting() -> (s: String)
    ensures
        s@ == "220 Welcome to the Rax FTP server\r\n"@,
{
    string_from_chars(&chars_of("220 Welcome to the Rax FTP server\r\n"))
}

/// Admits a client that has just logged in: refused, with the reply to
/// send, when [`MAX_CLIENTS`] are served; otherwise registered under its
/// address, which it records.
pub fn admit_client(clients: &mut AddressMap<Client>, client: Client, client_addr: SocketAddress) -> (r:
    Result<(), String>)
    requires
        old(clients).wf(),
    ensures
        final(clients).wf(),
        old(clients)@.len() >= MAX_CLIENTS ==> final(clients)@ == old(clients)@ && (r matches Err(m)
            && m@ == "421 Too many connections. Try again later.\r\n"@),
        old(clients)@.len() < MAX_CLIENTS ==> r is Ok && final(clients)@ == old(clients)@.insert(
            client_addr,
            LiteClientView { client_addr: Some(client_addr), ..client@ },
        ),
{
    if clients.len() >= MAX_CLIENTS {
        return Err(string_from_chars(&chars_of("421 Too many connections. Try again later.\r\n")));
    }
    let mut client = client;
    client.set_client_addr(Some(client_addr));
    clients.insert(client_addr, client);
    Ok(())
}

} // verus!
