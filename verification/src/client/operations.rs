//! Session operations on a client: logging out and quitting.
use crate::client::results::{LogoutResult, QuitResult};
use crate::client::state::{fresh_client, Client};
use crate::error::types::{ClientError, ClientErrorView};
use crate::net::{socket_text, socket_to_string};
use crate::text::{chars_of, string_from_chars};
use vstd::prelude::*;

verus! {

/// Logs a client out: only a logged-in client can be, and it is then reset.
pub fn process_logout(client: &mut Client) -> (r: Result<LogoutResult, ClientError>)
    ensures
        old(client)@.is_logged_in ==> final(client)@ == fresh_client() && (r matches Ok(x)
            && x.was_logged_in),
        !old(client)@.is_logged_in ==> final(client)@ == old(client)@ && (r matches Err(e) && e@
            == ClientErrorView::InvalidState("User not logged in"@)),
{
    if client.is_logged_in() {
        client.logout();
        Ok(LogoutResult { was_logged_in: true })
    } else {
        Err(ClientError::InvalidState(string_from_chars(&chars_of("User not logged in"))))
    }
}

/// The text a quit reports for a client's address.
pub open spec fn quit_addr_text(a: Option<crate::net::SocketAddress>) -> Seq<char> {
    match a {
        Some(s) => socket_text(s),
        None => "unknown"@,
    }
}

/// Handles a client's quit: the client is reset, and its former address is
/// reported.
pub fn process_quit(client: &mut Client) -> (r: Result<QuitResult, ClientError>)
    ensures
        final(client)@ == fresh_client(),
        r matches Ok(q) && q.client_addr@ == quit_addr_text(old(client)@.client_addr),
{
    let addr = match client.client_addr() {
        Some(a) => socket_to_string(*a),
        None => string_from_chars(&chars_of("unknown")),
    };
    client.logout();
    Ok(QuitResult { client_addr: addr })
}

} // verus!
