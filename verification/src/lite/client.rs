//! The state of a client of the lite server.
use crate::net::SocketAddress;
use vstd::prelude::*;

verus! {

/// The state of a connected client.
#[derive(Debug, Clone)]
pub struct Client {
    username: Option<String>,
    client_addr: Option<SocketAddress>,
    is_user_valid: bool,
    is_logged_in: bool,
    is_data_channel_init: bool,
}

/// The mathematical value of a [`Client`].
pub struct LiteClientView {
    pub username: Option<Seq<char>>,
    pub client_addr: Option<SocketAddress>,
    pub is_user_valid: bool,
    pub is_logged_in: bool,
    pub is_data_channel_init: bool,
}

/// A client with nothing set: no user, no address, no flag.
pub open spec fn blank_client() -> LiteClientView {
    LiteClientView {
        username: None,
        client_addr: None,
        is_user_valid: false,
        is_logged_in: false,
        is_data_channel_init: false,
    }
}

impl View for Client {
    type V = LiteClientView;

    closed spec fn view(&self) -> LiteClientView {
        LiteClientView {
            username: match self.username {
                Some(u) => Some(u@),
                None => None,
            },
            client_addr: self.client_addr,
            is_user_valid: self.is_user_valid,
            is_logged_in: self.is_logged_in,
            is_data_channel_init: self.is_data_channel_init,
        }
    }
}

impl Default for Client {
    fn default() -> (c: Self)
        ensures
            c@ == blank_client(),
    {
        Client {
            username: None,
            client_addr: None,
            is_user_valid: false,
            is_logged_in: false,
            is_data_channel_init: false,
        }
    }
}

impl Client {
    /// Logs the client out and clears everything it holds.
    pub fn logout(&mut self)
        ensures
            final(self)@ == blank_client(),
    {
        self.username = None;
        self.client_addr = None;
        self.is_user_valid = false;
        self.is_logged_in = false;
        self.is_data_channel_init = false;
    }

    /// Whether the user name was accepted.
    pub fn is_user_valid(&self) -> (b: bool)
        ensures
            b == self@.is_user_valid,
    {
        self.is_user_valid
    }

    /// Whether the client is logged in.
    pub fn is_logged_in(&self) -> (b: bool)
        ensures
            b == self@.is_logged_in,
    {
        self.is_logged_in
    }

    /// Whether a data channel was set up.
    pub fn is_data_channel_init(&self) -> (b: bool)
        ensures
            b == self@.is_data_channel_init,
    {
        self.is_data_channel_init
    }

    /// The user name, if set.
    pub fn username(&self) -> (u: Option<&String>)
        ensures
            match u {
                Some(s) => self@.username == Some(s@),
                None => self@.username is None,
            },
    {
        match &self.username {
            Some(s) => Some(s),
            None => None,
        }
    }

    /// The client's address, if known.
    pub fn client_addr(&self) -> (a: Option<&SocketAddress>)
        ensures
            match a {
                Some(x) => self@.client_addr == Some(*x),
                None => self@.client_addr is None,
            },
    {
        match &self.client_addr {
            Some(x) => Some(x),
            None => None,
        }
    }

    /// Sets whether the user name was accepted.
    pub fn set_user_valid(&mut self, valid: bool)
        ensures
            final(self)@ == (LiteClientView { is_user_valid: valid, ..old(self)@ }),
    {
        self.is_user_valid = valid;
    }

    /// Sets whether the client is logged in.
    pub fn set_logged_in(&mut self, logged_in: bool)
        ensures
            final(self)@ == (LiteClientView { is_logged_in: logged_in, ..old(self)@ }),
    {
        self.is_logged_in = logged_in;
    }

    /// Sets whether a data channel was set up.
    pub fn set_data_channel_init(&mut self, init: bool)
        ensures
            final(self)@ == (LiteClientView { is_data_channel_init: init, ..old(self)@ }),
    {
        self.is_data_channel_init = init;
    }

    /// Sets the user name.
    pub fn set_username(&mut self, username: Option<String>)
        ensures
            final(self)@ == (LiteClientView {
                username: match username {
                    Some(u) => Some(u@),
                    None => None,
                },
                ..old(self)@
            }),
    {
        self.username = username;
    }

    /// Sets the client's address.
    pub fn set_client_addr(&mut self, addr: Option<SocketAddress>)
        ensures
            final(self)@ == (LiteClientView { client_addr: addr, ..old(self)@ }),
    {
        self.client_addr = addr;
    }
}

} // verus!
