//! A client session: the client it belongs to.
use crate::client::state::{Client, ClientView};
use vstd::prelude::*;

verus! {

/// The session of one client.
pub struct ClientSession {
    client: Client,
}

impl ClientSession {
    /// The client of this session.
    pub closed spec fn client_view(&self) -> ClientView {
        self.client@
    }

    /// A session for a client.
    pub fn new(client: Client) -> (s: Self)
        ensures
            s.client_view() == client@,
    {
        ClientSession { client }
    }

    /// The client of this session.
    pub fn get_client(&self) -> (c: &Client)
        ensures
            c@ == self.client_view(),
    {
        &self.client
    }

    /// The client of this session, for changes.
    pub fn get_client_mut(&mut self) -> (c: &mut Client)
        ensures
            c@ == old(self).client_view(),
            final(self).client_view() == final(c)@,
    {
        &mut self.client
    }
}

} // verus!
