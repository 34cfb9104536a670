//! The data channel registry of the lite server: per client, its data
//! socket and whether a listener or a data stream is held. A client's new
//! entry replaces its old one.
use crate::addr_map::AddressMap;
use crate::net::SocketAddress;
use crate::transfer::channel_registry::{
    first_free_port, loopback_socket, loopback_v4, socket_taken, ChannelEntry, ChannelEntryView,
    DATA_PORT_MAX, DATA_PORT_MIN,
};
use vstd::prelude::*;

verus! {

/// The registry of data channels, keyed by the client's control-connection
/// address.
pub struct ChannelRegistry {
    registry: AddressMap<ChannelEntry>,
}

impl ChannelRegistry {
    /// The registry is well formed.
    pub closed spec fn wf(&self) -> bool {
        self.registry.wf()
    }

    /// The registry as a map from client address to entry.
    pub closed spec fn view(&self) -> Map<SocketAddress, ChannelEntryView> {
        self.registry@
    }

    /// The port range of passive-mode data listeners (2122..2222).
    pub fn data_port_range() -> (r: std::ops::Range<u16>)
        ensures
            r.start == 2122,
            r.end == 2222,
    {
        DATA_PORT_MIN..DATA_PORT_MAX
    }

    /// An empty registry.
    pub fn new() -> (r: Self)
        ensures
            r.wf(),
            r@ == Map::<SocketAddress, ChannelEntryView>::empty(),
    {
        ChannelRegistry { registry: AddressMap::new() }
    }

    /// Sets the entry of a client, replacing its previous one.
    pub fn insert(&mut self, addr: SocketAddress, entry: ChannelEntry)
        requires
            old(self).wf(),
        ensures
            final(self).wf(),
            final(self)@ == old(self)@.insert(addr, entry@),
    {
        self.registry.insert(addr, entry);
    }

    /// Removes and returns the entry of a client.
    pub fn remove(&mut self, addr: &SocketAddress) -> (r: Option<ChannelEntry>)
        requires
            old(self).wf(),
        ensures
            final(self).wf(),
            final(self)@ == old(self)@.remove(*addr),
            match r {
                Some(e) => old(self)@.dom().contains(*addr) && old(self)@[*addr] == e@,
                None => !old(self)@.dom().contains(*addr),
            },
    {
        self.registry.remove(addr)
    }

    /// The entry of a client, if any.
    pub fn get(&self, addr: &SocketAddress) -> (r: Option<&ChannelEntry>)
        requires
            self.wf(),
        ensures
            match r {
                Some(e) => self@.dom().contains(*addr) && self@[*addr] == e@,
                None => !self@.dom().contains(*addr),
            },
    {
        self.registry.get(addr)
    }

    /// The entry of a client, for changes.
    pub fn get_mut(&mut self, addr: &SocketAddress) -> (r: Option<&mut ChannelEntry>)
        requires
            old(self).wf(),
        ensures
            final(self).wf(),
            match r {
                Some(e) => old(self)@.dom().contains(*addr) && old(self)@[*addr] == e@
                    && final(self)@ == old(self)@.insert(*addr, final(e)@),
                None => !old(self)@.dom().contains(*addr) && final(self)@ == old(self)@,
            },
    {
        self.registry.get_mut(addr)
    }

    /// Whether a client has an entry.
    pub fn contains(&self, addr: &SocketAddress) -> (b: bool)
        requires
            self.wf(),
        ensures
            b == self@.dom().contains(*addr),
    {
        self.registry.get(addr).is_some()
    }

    /// The addresses of all clients that have an entry.
    pub fn list_addresses(&self) -> (v: Vec<SocketAddress>)
        requires
            self.wf(),
        ensures
            forall|a: SocketAddress| v@.contains(a) <==> self@.dom().contains(a),
            v@.no_duplicates(),
    {
        self.registry.keys()
    }

    /// Whether a socket is the data socket of some client.
    pub fn is_socket_taken(&self, addr: &SocketAddress) -> (b: bool)
        requires
            self.wf(),
        ensures
            b == socket_taken(self@, *addr),
    {
        let keys = self.registry.keys();
        let mut i: usize = 0;
        while i < keys.len()
            invariant
                self.wf(),
                i <= keys@.len(),
                forall|a: SocketAddress| keys@.contains(a) <==> self@.dom().contains(a),
                forall|j: int| 0 <= j < i ==> self@[#[trigger] keys@[j]].data_socket != Some(*addr),
            decreases keys@.len() - i,
        {
            let k = keys[i];
            assert(keys@.contains(k));
            match self.registry.get(&k) {
                Some(e) => {
                    if let Some(s) = e.data_socket() {
                        if s == *addr {
                            return true;
                        }
                    }
                },
                None => {},
            }
            i = i + 1;
        }
        assert forall|a: SocketAddress| #[trigger] self@.dom().contains(a) implies self@[a].data_socket
            != Some(*addr) by {
            assert(keys@.contains(a));
            let j = choose|j: int| 0 <= j < keys@.len() && keys@[j] == a;
        }
        false
    }

    /// The first loopback socket of the passive port range that no client
    /// holds, if any.
    pub fn next_available_socket(&self) -> (r: Option<SocketAddress>)
        requires
            self.wf(),
        ensures
            match first_free_port(self@, 2122) {
                Some(p) => r == Some(loopback_socket(p)),
                None => r is None,
            },
    {
        let mut port: u16 = DATA_PORT_MIN;
        while port < DATA_PORT_MAX
            invariant
                self.wf(),
                2122 <= port <= 2222,
                first_free_port(self@, 2122) == first_free_port(self@, port as int),
            decreases 2222 - port,
        {
            let s = SocketAddress::v4(127, 0, 0, 1, port);
            assert(crate::net::ipv4_value(127, 0, 0, 1) == loopback_v4());
            if !self.is_socket_taken(&s) {
                return Some(s);
            }
            port = port + 1;
        }
        None
    }
}

impl Default for ChannelRegistry {
    fn default() -> (r: Self)
        ensures
            r.wf(),
            r@ == Map::<SocketAddress, ChannelEntryView>::empty(),
    {
        ChannelRegistry::new()
    }
}

} // verus!
