//! The registry of connected, logged-in clients, keyed by their address.
use crate::addr_map::AddressMap;
use crate::client::state::{Client, ClientView};
use crate::net::SocketAddress;
use vstd::prelude::*;

verus! {

/// The registry of clients. No address occurs twice.
pub struct ClientRegistry {
    clients: AddressMap<Client>,
}

impl ClientRegistry {
    /// The registry is well formed.
    pub closed spec fn wf(&self) -> bool {
        self.clients.wf()
    }

    /// The registry as a map from address to client state.
    pub closed spec fn view(&self) -> Map<SocketAddress, ClientView> {
        self.clients@
    }

    /// An empty registry.
    pub fn new() -> (r: Self)
        ensures
            r.wf(),
            r@ == Map::<SocketAddress, ClientView>::empty(),
    {
        ClientRegistry { clients: AddressMap::new() }
    }

    /// Registers a client under an address, replacing the client registered
    /// there before.
    pub fn insert(&mut self, addr: SocketAddress, client: Client)
        requires
            old(self).wf(),
        ensures
            final(self).wf(),
            final(self)@ == old(self)@.insert(addr, client@),
    {
        self.clients.insert(addr, client);
    }

    /// Removes and returns the client registered under an address.
    pub fn remove(&mut self, addr: &SocketAddress) -> (r: Option<Client>)
        requires
            old(self).wf(),
        ensures
            final(self).wf(),
            final(self)@ == old(self)@.remove(*addr),
            match r {
                Some(c) => old(self)@.dom().contains(*addr) && old(self)@[*addr] == c@,
                None => !old(self)@.dom().contains(*addr),
            },
    {
        self.clients.remove(addr)
    }

    /// The client registered under an address, if any.
    pub fn get(&self, addr: &SocketAddress) -> (r: Option<&Client>)
        requires
            self.wf(),
        ensures
            match r {
                Some(c) => self@.dom().contains(*addr) && self@[*addr] == c@,
                None => !self@.dom().contains(*addr),
            },
    {
        self.clients.get(addr)
    }

    /// The client registered under an address, for changes.
    pub fn get_mut(&mut self, addr: &SocketAddress) -> (r: Option<&mut Client>)
        requires
            old(self).wf(),
        ensures
            final(self).wf(),
            match r {
                Some(c) => old(self)@.dom().contains(*addr) && old(self)@[*addr] == c@
                    && final(self)@ == old(self)@.insert(*addr, final(c)@),
                None => !old(self)@.dom().contains(*addr) && final(self)@ == old(self)@,
            },
    {
        self.clients.get_mut(addr)
    }

    /// How many clients are registered.
    pub fn len(&self) -> (n: usize)
        requires
            self.wf(),
        ensures
            n == self@.len(),
    {
        self.clients.len()
    }
}

impl Default for ClientRegistry {
    fn default() -> (r: Self)
        ensures
            r.wf(),
            r@ == Map::<SocketAddress, ClientView>::empty(),
    {
        ClientRegistry::new()
    }
}

} // verus!
