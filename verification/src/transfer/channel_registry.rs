//! The registry of FTP data channels, one per client: the data socket a
//! client uses, whether a passive-mode listener or an open data stream is
//! held for it, and the IP address that owns it. The sockets themselves are
//! held by the network layer; the registry keeps the facts that the server's
//! decisions read.
use crate::net::{IpAddress, SocketAddress};
use vstd::prelude::*;

verus! {

/// The state of the data channel of one client.
#[derive(Clone, Copy, Debug, PartialEq, Eq, Structural)]
pub struct ChannelEntry {
    data_socket: Option<SocketAddress>,
    has_stream: bool,
    has_listener: bool,
    owner_ip: Option<IpAddress>,
}

/// The mathematical value of a [`ChannelEntry`].
pub struct ChannelEntryView {
    pub data_socket: Option<SocketAddress>,
    pub has_stream: bool,
    pub has_listener: bool,
    pub owner_ip: Option<IpAddress>,
}

/// An entry with nothing set up.
pub open spec fn empty_entry() -> ChannelEntryView {
    ChannelEntryView { data_socket: None, has_stream: false, has_listener: false, owner_ip: None }
}

impl View for ChannelEntry {
    type V = ChannelEntryView;

    closed spec fn view(&self) -> ChannelEntryView {
        ChannelEntryView {
            data_socket: self.data_socket,
            has_stream: self.has_stream,
            has_listener: self.has_listener,
            owner_ip: self.owner_ip,
        }
    }
}

impl Default for ChannelEntry {
    fn default() -> (e: Self)
        ensures
            e@ == empty_entry(),
    {
        ChannelEntry { data_socket: None, has_stream: false, has_listener: false, owner_ip: None }
    }
}

impl ChannelEntry {
    /// The data socket address, if set.
    pub fn data_socket(&self) -> (s: Option<SocketAddress>)
        ensures
            s == self@.data_socket,
    {
        self.data_socket
    }

    /// Whether a passive-mode listener is held.
    pub fn listener(&self) -> (b: bool)
        ensures
            b == self@.has_listener,
    {
        self.has_listener
    }

    /// Whether a data stream is open.
    pub fn data_stream(&self) -> (b: bool)
        ensures
            b == self@.has_stream,
    {
        self.has_stream
    }

    /// The IP address of the client that owns this channel, if set.
    pub fn owner_ip(&self) -> (ip: Option<IpAddress>)
        ensures
            ip == self@.owner_ip,
    {
        self.owner_ip
    }

    /// Sets the data socket address.
    pub fn set_data_socket(&mut self, socket: Option<SocketAddress>)
        ensures
            final(self)@ == (ChannelEntryView { data_socket: socket, ..old(self)@ }),
    {
        self.data_socket = socket;
    }

    /// Records whether a data stream is open.
    pub fn set_data_stream(&mut self, open: bool)
        ensures
            final(self)@ == (ChannelEntryView { has_stream: open, ..old(self)@ }),
    {
        self.has_stream = open;
    }

    /// Records whether a passive-mode listener is held.
    pub fn set_listener(&mut self, held: bool)
        ensures
            final(self)@ == (ChannelEntryView { has_listener: held, ..old(self)@ }),
    {
        self.has_listener = held;
    }

    /// Sets the owner IP address.
    pub fn set_owner_ip(&mut self, ip: Option<IpAddress>)
        ensures
            final(self)@ == (ChannelEntryView { owner_ip: ip, ..old(self)@ }),
    {
        self.owner_ip = ip;
    }

    /// The data socket address, for changes.
    pub fn data_socket_mut(&mut self) -> (r: Option<&mut SocketAddress>)
        ensures
            match r {
                Some(s) => old(self)@.data_socket == Some(*s) && final(self)@ == (ChannelEntryView {
                    data_socket: Some(*final(s)),
                    ..old(self)@
                }),
                None => old(self)@.data_socket is None && final(self)@ == old(self)@,
            },
    {
        match &mut self.data_socket {
            Some(s) => Some(s),
            None => None,
        }
    }

    /// Takes the data socket out of the entry, leaving none.
    pub fn take_data_socket(&mut self) -> (s: Option<SocketAddress>)
        ensures
            s == old(self)@.data_socket,
            final(self)@ == (ChannelEntryView { data_socket: None, ..old(self)@ }),
    {
        let s = self.data_socket;
        self.data_socket = None;
        s
    }

    /// Takes the data stream out of the entry: whether one was held.
    pub fn take_data_stream(&mut self) -> (b: bool)
        ensures
            b == old(self)@.has_stream,
            final(self)@ == (ChannelEntryView { has_stream: false, ..old(self)@ }),
    {
        let b = self.has_stream;
        self.has_stream = false;
        b
    }

    /// Takes the listener out of the entry: whether one was held.
    pub fn take_listener(&mut self) -> (b: bool)
        ensures
            b == old(self)@.has_listener,
            final(self)@ == (ChannelEntryView { has_listener: false, ..old(self)@ }),
    {
        let b = self.has_listener;
        self.has_listener = false;
        b
    }

    /// Drops the data stream only, keeping the persistent set-up.
    pub fn cleanup_stream_only(&mut self)
        ensures
            final(self)@ == (ChannelEntryView { has_stream: false, ..old(self)@ }),
    {
        self.has_stream = false;
    }

    /// Drops everything this entry holds.
    pub fn cleanup_all(&mut self)
        ensures
            final(self)@ == empty_entry(),
    {
        self.has_stream = false;
        self.has_listener = false;
        self.data_socket = None;
        self.owner_ip = None;
    }
}

/// The registry of data channels, keyed by the client's control-connection
/// address. No two clients hold the same data socket.
pub struct ChannelRegistry {
    entries: Vec<(SocketAddress, ChannelEntry)>,
}

impl Default for ChannelRegistry {
    fn default() -> (r: Self)
        ensures
            r@ == Map::<SocketAddress, ChannelEntryView>::empty(),
    {
        ChannelRegistry::new()
    }
}

/// The loopback address 127.0.0.1 as an integer.
pub open spec fn loopback_v4() -> u32 {
    2130706433
}

/// The passive-mode data socket on the loopback address for a port.
pub open spec fn loopback_socket(port: u16) -> SocketAddress {
    SocketAddress { ip: IpAddress::V4(loopback_v4()), port, flowinfo: 0, scope_id: 0 }
}

/// First port of the passive-mode data port range.
pub const DATA_PORT_MIN: u16 = 2122;

/// End (exclusive) of the passive-mode data port range.
pub const DATA_PORT_MAX: u16 = 2222;

impl ChannelRegistry {
    /// Keys are distinct, and so are the data sockets of the entries.
    #[verifier::type_invariant]
    spec fn wf(self) -> bool {
        entries_wf(self.entries@)
    }

    /// The registry as a map from client address to entry.
    pub closed spec fn view(&self) -> Map<SocketAddress, ChannelEntryView> {
        entries_map(self.entries@)
    }

    proof fn lemma_view_at(&self, i: int)
        requires
            self.wf(),
            0 <= i < self.entries@.len(),
        ensures
            self@.dom().contains(self.entries@[i].0),
            self@[self.entries@[i].0] == self.entries@[i].1@,
    {
        lemma_entries_map_at(self.entries@, i);
    }

    /// Creates an empty registry.
    pub fn new() -> (r: Self)
        ensures
            r@ == Map::<SocketAddress, ChannelEntryView>::empty(),
            unique_sockets(r@),
    {
        let r = ChannelRegistry { entries: Vec::new() };
        assert(r@ =~= Map::<SocketAddress, ChannelEntryView>::empty());
        r
    }

    /// Whether a data channel entry exists for the given client address.
    pub fn contains(&self, addr: &SocketAddress) -> (b: bool)
        ensures
            b == self@.dom().contains(*addr),
    {
        proof {
            use_type_invariant(self);
        }
        let mut i: usize = 0;
        while i < self.entries.len()
            invariant
                i <= self.entries@.len(),
                self.wf(),
                forall|j: int| 0 <= j < i ==> self.entries@[j].0 != *addr,
            decreases self.entries@.len() - i,
        {
            if self.entries[i].0 == *addr {
                proof {
                    self.lemma_view_at(i as int);
                }
                return true;
            }
            i = i + 1;
        }
        false
    }

    /// The position of a client's entry, if it has one.
    fn find(&self, addr: &SocketAddress) -> (r: Option<usize>)
        ensures
            match r {
                Some(i) => i < self.entries@.len() && self.entries@[i as int].0 == *addr,
                None => !self@.dom().contains(*addr),
            },
    {
        let mut i: usize = 0;
        while i < self.entries.len()
            invariant
                i <= self.entries@.len(),
                forall|j: int| 0 <= j < i ==> self.entries@[j].0 != *addr,
            decreases self.entries@.len() - i,
        {
            if self.entries[i].0 == *addr {
                return Some(i);
            }
            i = i + 1;
        }
        None
    }

    /// The data channel entry of a client, if any.
    pub fn get(&self, addr: &SocketAddress) -> (r: Option<ChannelEntry>)
        ensures
            match r {
                Some(e) => self@.dom().contains(*addr) && self@[*addr] == e@,
                None => !self@.dom().contains(*addr),
            },
    {
        proof {
            use_type_invariant(self);
        }
        match self.find(addr) {
            Some(i) => {
                proof {
                    self.lemma_view_at(i as int);
                }
                Some(self.entries[i].1)
            },
            None => None,
        }
    }

    /// Inserts or replaces the data channel entry of a client. An entry whose
    /// data socket is already assigned to another client is not inserted.
    pub fn insert(&mut self, addr: SocketAddress, entry: ChannelEntry)
        ensures
            unique_sockets(final(self)@),
            (entry@.data_socket matches Some(s) && socket_taken(old(self)@.remove(addr), s))
                ==> final(self)@ == old(self)@,
            !(entry@.data_socket matches Some(s) && socket_taken(old(self)@.remove(addr), s))
                ==> final(self)@ == old(self)@.insert(addr, entry@),
    {
        proof {
            use_type_invariant(&*self);
        }
        let idx = self.find(&addr);
        if let Some(s) = entry.data_socket {
            if self.is_socket_taken_by_other(&s, &addr) {
                proof {
                    lemma_unique_sockets(self.entries@);
                }
                return;
            }
        }
        let ghost skip: int = match idx {
            Some(i) => i as int,
            None => -1,
        };
        proof {
            if entry@.data_socket is Some {
                assert forall|j: int| 0 <= j < self.entries@.len() && j != skip implies (
                #[trigger] self.entries@[j]).1@.data_socket != entry@.data_socket by {
                    self.lemma_view_at(j);
                    if idx is None {
                        assert(self.entries@[j].0 != addr);
                    } else {
                        let i = idx.unwrap() as int;
                        if self.entries@[j].0 == addr {
                            if j < i {
                                assert(self.entries@[j].0 != self.entries@[i].0);
                            } else {
                                assert(self.entries@[i].0 != self.entries@[j].0);
                            }
                        }
                    }
                    assert(old(self)@.remove(addr).dom().contains(self.entries@[j].0));
                }
            }
            assert(socket_free_for(self.entries@, entry, skip));
        }
        let mut entries: Vec<(SocketAddress, ChannelEntry)> = Vec::new();
        std::mem::swap(&mut entries, &mut self.entries);
        match idx {
            Some(i) => {
                proof {
                    lemma_entries_set(entries@, i as int, (addr, entry));
                }
                entries.set(i, (addr, entry));
            },
            None => {
                proof {
                    assert(socket_free_for(entries@, entry, -1));
                    lemma_entries_push(entries@, (addr, entry));
                }
                entries.push((addr, entry));
            },
        }
        proof {
            lemma_unique_sockets(entries@);
        }
        self.entries = entries;
    }

    /// Whether a data socket is assigned to a client other than `addr`.
    fn is_socket_taken_by_other(&self, socket: &SocketAddress, addr: &SocketAddress) -> (b: bool)
        ensures
            b == socket_taken(self@.remove(*addr), *socket),
    {
        proof {
            use_type_invariant(self);
        }
        let mut i: usize = 0;
        while i < self.entries.len()
            invariant
                i <= self.entries@.len(),
                self.wf(),
                forall|j: int|
                    0 <= j < i && self.entries@[j].0 != *addr ==> self.entries@[j].1.data_socket
                        != Some(*socket),
            decreases self.entries@.len() - i,
        {
            let held = self.entries[i].1.data_socket;
            if let Some(s) = held {
                if s == *socket && self.entries[i].0 != *addr {
                    proof {
                        self.lemma_view_at(i as int);
                        assert(self@.remove(*addr).dom().contains(self.entries@[i as int].0));
                    }
                    return true;
                }
            }
            i = i + 1;
        }
        assert forall|a: SocketAddress| #[trigger] self@.remove(*addr).dom().contains(a) implies self@.remove(
            *addr,
        )[a].data_socket != Some(*socket) by {
            let j = choose|j: int| 0 <= j < self.entries@.len() && self.entries@[j].0 == a;
            self.lemma_view_at(j);
        }
        false
    }

    /// Removes and returns the data channel entry of a client, if any.
    pub fn remove(&mut self, addr: &SocketAddress) -> (r: Option<ChannelEntry>)
        ensures
            unique_sockets(final(self)@),
            final(self)@ == old(self)@.remove(*addr),
            match r {
                Some(e) => old(self)@.dom().contains(*addr) && old(self)@[*addr] == e@,
                None => !old(self)@.dom().contains(*addr),
            },
    {
        proof {
            use_type_invariant(&*self);
        }
        match self.find(addr) {
            None => {
                proof {
                    lemma_unique_sockets(self.entries@);
                }
                assert(old(self)@.remove(*addr) =~= old(self)@);
                None
            },
            Some(i) => {
                proof {
                    self.lemma_view_at(i as int);
                    lemma_entries_remove(self.entries@, i as int);
                }
                let mut entries: Vec<(SocketAddress, ChannelEntry)> = Vec::new();
                std::mem::swap(&mut entries, &mut self.entries);
                let (_, e) = entries.remove(i);
                proof {
                    lemma_unique_sockets(entries@);
                }
                self.entries = entries;
                Some(e)
            },
        }
    }

    /// Completely cleans up the data channel of a client: its entry is
    /// removed.
    pub fn cleanup_all(&mut self, client_addr: &SocketAddress)
        ensures
            unique_sockets(final(self)@),
            final(self)@ == old(self)@.remove(*client_addr),
    {
        let _ = self.remove(client_addr);
    }

    /// Drops the data stream of a client, keeping the rest of its set-up.
    pub fn cleanup_stream_only(&mut self, client_addr: &SocketAddress)
        ensures
            unique_sockets(final(self)@),
            old(self)@.dom().contains(*client_addr) ==> final(self)@ == old(self)@.insert(
                *client_addr,
                ChannelEntryView { has_stream: false, ..old(self)@[*client_addr] },
            ),
            !old(self)@.dom().contains(*client_addr) ==> final(self)@ == old(self)@,
    {
        self.set_stream(client_addr, false);
    }

    /// Records whether the data stream of a client is open.
    pub fn set_stream(&mut self, client_addr: &SocketAddress, open: bool)
        ensures
            unique_sockets(final(self)@),
            old(self)@.dom().contains(*client_addr) ==> final(self)@ == old(self)@.insert(
                *client_addr,
                ChannelEntryView { has_stream: open, ..old(self)@[*client_addr] },
            ),
            !old(self)@.dom().contains(*client_addr) ==> final(self)@ == old(self)@,
    {
        proof {
            use_type_invariant(&*self);
        }
        match self.find(client_addr) {
            None => {
                proof {
                    lemma_unique_sockets(self.entries@);
                }
            },
            Some(i) => {
                proof {
                    self.lemma_view_at(i as int);
                }
                let mut e = self.entries[i].1;
                e.set_data_stream(open);
                proof {
                    lemma_entries_set(self.entries@, i as int, (*client_addr, e));
                }
                let mut entries: Vec<(SocketAddress, ChannelEntry)> = Vec::new();
                std::mem::swap(&mut entries, &mut self.entries);
                entries.set(i, (*client_addr, e));
                proof {
                    lemma_unique_sockets(entries@);
                }
                self.entries = entries;
            },
        }
    }

    /// The addresses of all clients that have an entry.
    pub fn list_addresses(&self) -> (v: Vec<SocketAddress>)
        ensures
            forall|a: SocketAddress| v@.contains(a) <==> self@.dom().contains(a),
            v@.no_duplicates(),
    {
        proof {
            use_type_invariant(self);
        }
        let mut v: Vec<SocketAddress> = Vec::new();
        let mut i: usize = 0;
        while i < self.entries.len()
            invariant
                i <= self.entries@.len(),
                self.wf(),
                v@.len() == i,
                forall|j: int| 0 <= j < i ==> v@[j] == #[trigger] self.entries@[j].0,
            decreases self.entries@.len() - i,
        {
            v.push(self.entries[i].0);
            i = i + 1;
        }
        assert forall|a: SocketAddress| v@.contains(a) <==> self@.dom().contains(a) by {
            if v@.contains(a) {
                let j = choose|j: int| 0 <= j < v@.len() && v@[j] == a;
                self.lemma_view_at(j);
            }
            if self@.dom().contains(a) {
                let j = choose|j: int| 0 <= j < self.entries@.len() && self.entries@[j].0 == a;
                assert(v@[j] == a);
            }
        }
        assert forall|p: int, q: int| 0 <= p < v@.len() && 0 <= q < v@.len() && p != q implies v@[p]
            != v@[q] by {
            if p < q {
                assert(self.entries@[p].0 != self.entries@[q].0);
            } else {
                assert(self.entries@[q].0 != self.entries@[p].0);
            }
        }
        v
    }

    /// The first loopback socket in the passive-mode port range
    /// (2122..2222) that no client holds, if any.
    pub fn next_available_socket(&self) -> (r: Option<SocketAddress>)
        ensures
            match first_free_port(self@, 2122) {
                Some(p) => r == Some(loopback_socket(p)),
                None => r is None,
            },
    {
        let mut port: u16 = DATA_PORT_MIN;
        while port < DATA_PORT_MAX
            invariant
                2122 <= port <= 2222,
                first_free_port(self@, 2122) == first_free_port(self@, port as int),
            decreases 2222 - port,
        {
            let s = SocketAddress::v4(127, 0, 0, 1, port);
            assert(crate::net::ipv4_value(127, 0, 0, 1) == loopback_v4());
            if !self.is_socket_taken(&s) {
                return Some(s);
            }
            port = port + 1;
        }
        None
    }

    /// Whether a data socket is assigned to any client.
    pub fn is_socket_taken(&self, socket: &SocketAddress) -> (b: bool)
        ensures
            b == socket_taken(self@, *socket),
    {
        proof {
            use_type_invariant(self);
        }
        let mut i: usize = 0;
        while i < self.entries.len()
            invariant
                i <= self.entries@.len(),
                self.wf(),
                forall|j: int| 0 <= j < i ==> self.entries@[j].1.data_socket != Some(*socket),
            decreases self.entries@.len() - i,
        {
            let held = self.entries[i].1.data_socket;
            if let Some(s) = held {
                if s == *socket {
                    proof {
                        self.lemma_view_at(i as int);
                    }
                    return true;
                }
            }
            i = i + 1;
        }
        assert forall|a: SocketAddress| #[trigger] self@.dom().contains(a) implies self@[a].data_socket
            != Some(*socket) by {
            let j = choose|j: int| 0 <= j < self.entries@.len() && self.entries@[j].0 == a;
            self.lemma_view_at(j);
        }
        false
    }
}

/// Keys are distinct, and so are the data sockets held.
pub open spec fn entries_wf(e: Seq<(SocketAddress, ChannelEntry)>) -> bool {
    &&& forall|i: int, j: int| 0 <= i < j < e.len() ==> (#[trigger] e[i]).0 != (#[trigger] e[j]).0
    &&& forall|i: int, j: int|
        0 <= i < j < e.len() && (#[trigger] e[i]).1@.data_socket is Some ==> e[i].1@.data_socket
            != (#[trigger] e[j]).1@.data_socket
}

proof fn lemma_entries_map_at(e: Seq<(SocketAddress, ChannelEntry)>, i: int)
    requires
        entries_wf(e),
        0 <= i < e.len(),
    ensures
        entries_map(e).dom().contains(e[i].0),
        entries_map(e)[e[i].0] == e[i].1@,
{
    let a = e[i].0;
    assert(e[i].0 == a);
    let j = choose|j: int| 0 <= j < e.len() && e[j].0 == a;
    if j != i {
        if j < i {
            assert(e[j].0 != e[i].0);
        } else {
            assert(e[i].0 != e[j].0);
        }
    }
}

/// No entry other than the one at `skip` holds the data socket of `x`.
pub open spec fn socket_free_for(e: Seq<(SocketAddress, ChannelEntry)>, x: ChannelEntry, skip: int) -> bool {
    x@.data_socket is Some ==> forall|j: int|
        0 <= j < e.len() && j != skip ==> (#[trigger] e[j]).1@.data_socket != x@.data_socket
}

proof fn lemma_entries_set(e: Seq<(SocketAddress, ChannelEntry)>, i: int, x: (SocketAddress, ChannelEntry))
    requires
        entries_wf(e),
        0 <= i < e.len(),
        x.0 == e[i].0,
        socket_free_for(e, x.1, i),
    ensures
        entries_wf(e.update(i, x)),
        entries_map(e.update(i, x)) == entries_map(e).insert(x.0, x.1@),
{
    let n = e.update(i, x);
    assert forall|p: int, q: int| 0 <= p < q < n.len() implies (#[trigger] n[p]).0 != (
    #[trigger] n[q]).0 by {
        assert(e[p].0 != e[q].0);
    }
    assert forall|p: int, q: int|
        0 <= p < q < n.len() && (#[trigger] n[p]).1@.data_socket is Some implies n[p].1@.data_socket
        != (#[trigger] n[q]).1@.data_socket by {
        if p != i && q != i {
            assert(e[p].1@.data_socket != e[q].1@.data_socket);
        } else if p == i {
            assert(e[q] == n[q]);
        } else {
            assert(e[p] == n[p]);
        }
    }
    let m = entries_map(e).insert(x.0, x.1@);
    assert forall|a: SocketAddress| #[trigger] entries_map(n).dom().contains(a) == m.dom().contains(a) by {
        if entries_map(n).dom().contains(a) {
            let k = choose|k: int| 0 <= k < n.len() && n[k].0 == a;
            if k != i {
                assert(e[k].0 == a);
            }
        }
        if entries_map(e).dom().contains(a) {
            let k = choose|k: int| 0 <= k < e.len() && e[k].0 == a;
            assert(n[k].0 == a);
        }
        if a == x.0 {
            assert(n[i].0 == a);
        }
    }
    assert forall|a: SocketAddress| #[trigger] entries_map(n).dom().contains(a) implies entries_map(n)[a]
        == m[a] by {
        let k = choose|k: int| 0 <= k < n.len() && n[k].0 == a;
        lemma_entries_map_at(n, k);
        if k != i {
            lemma_entries_map_at(e, k);
        }
    }
    assert(entries_map(n) =~= m);
}

proof fn lemma_entries_push(e: Seq<(SocketAddress, ChannelEntry)>, x: (SocketAddress, ChannelEntry))
    requires
        entries_wf(e),
        !entries_map(e).dom().contains(x.0),
        socket_free_for(e, x.1, -1),
    ensures
        entries_wf(e.push(x)),
        entries_map(e.push(x)) == entries_map(e).insert(x.0, x.1@),
{
    let n = e.push(x);
    let len = e.len() as int;
    assert forall|p: int, q: int| 0 <= p < q < n.len() implies (#[trigger] n[p]).0 != (
    #[trigger] n[q]).0 by {
        if q == len {
            assert(n[p] == e[p]);
            if e[p].0 == x.0 {
                assert(entries_map(e).dom().contains(x.0));
            }
        } else {
            assert(e[p].0 != e[q].0);
        }
    }
    assert forall|p: int, q: int|
        0 <= p < q < n.len() && (#[trigger] n[p]).1@.data_socket is Some implies n[p].1@.data_socket
        != (#[trigger] n[q]).1@.data_socket by {
        if q == len {
            assert(n[p] == e[p]);
        } else {
            assert(e[p].1@.data_socket != e[q].1@.data_socket);
        }
    }
    let m = entries_map(e).insert(x.0, x.1@);
    assert forall|a: SocketAddress| #[trigger] entries_map(n).dom().contains(a) == m.dom().contains(a) by {
        if entries_map(n).dom().contains(a) {
            let k = choose|k: int| 0 <= k < n.len() && n[k].0 == a;
            if k != len {
                assert(e[k].0 == a);
            }
        }
        if entries_map(e).dom().contains(a) {
            let k = choose|k: int| 0 <= k < e.len() && e[k].0 == a;
            assert(n[k].0 == a);
        }
        if a == x.0 {
            assert(n[len].0 == a);
        }
    }
    assert forall|a: SocketAddress| #[trigger] entries_map(n).dom().contains(a) implies entries_map(n)[a]
        == m[a] by {
        let k = choose|k: int| 0 <= k < n.len() && n[k].0 == a;
        lemma_entries_map_at(n, k);
        if k != len {
            assert(n[k] == e[k]);
            lemma_entries_map_at(e, k);
        }
    }
    assert(entries_map(n) =~= m);
}

proof fn lemma_entries_remove(e: Seq<(SocketAddress, ChannelEntry)>, i: int)
    requires
        entries_wf(e),
        0 <= i < e.len(),
    ensures
        entries_wf(e.remove(i)),
        entries_map(e.remove(i)) == entries_map(e).remove(e[i].0),
{
    let n = e.remove(i);
    assert forall|p: int| 0 <= p < n.len() implies #[trigger] n[p] == e[if p < i { p } else { p + 1 }] by {}
    assert forall|p: int, q: int| 0 <= p < q < n.len() implies (#[trigger] n[p]).0 != (
    #[trigger] n[q]).0 by {
        let pp = if p < i { p } else { p + 1 };
        let qq = if q < i { q } else { q + 1 };
        assert(n[p] == e[pp] && n[q] == e[qq]);
        assert(e[pp].0 != e[qq].0);
    }
    assert forall|p: int, q: int|
        0 <= p < q < n.len() && (#[trigger] n[p]).1@.data_socket is Some implies n[p].1@.data_socket
        != (#[trigger] n[q]).1@.data_socket by {
        let pp = if p < i { p } else { p + 1 };
        let qq = if q < i { q } else { q + 1 };
        assert(n[p] == e[pp] && n[q] == e[qq]);
        assert(e[pp].1@.data_socket != e[qq].1@.data_socket);
    }
    let m = entries_map(e).remove(e[i].0);
    assert forall|a: SocketAddress| #[trigger] entries_map(n).dom().contains(a) == m.dom().contains(a) by {
        if entries_map(n).dom().contains(a) {
            let k = choose|k: int| 0 <= k < n.len() && n[k].0 == a;
            let kk = if k < i { k } else { k + 1 };
            assert(n[k] == e[kk]);
            assert(e[kk].0 == a);
            assert(e[kk].0 != e[i].0);
        }
        if m.dom().contains(a) {
            let k = choose|k: int| 0 <= k < e.len() && e[k].0 == a;
            assert(k != i);
            let kk = if k < i { k } else { k - 1 };
            assert(n[kk] == e[k]);
        }
    }
    assert forall|a: SocketAddress| #[trigger] entries_map(n).dom().contains(a) implies entries_map(n)[a]
        == m[a] by {
        let k = choose|k: int| 0 <= k < n.len() && n[k].0 == a;
        let kk = if k < i { k } else { k + 1 };
        assert(n[k] == e[kk]);
        lemma_entries_map_at(n, k);
        lemma_entries_map_at(e, kk);
    }
    assert(entries_map(n) =~= m);
}

/// No data socket is assigned to two clients.
pub open spec fn unique_sockets(m: Map<SocketAddress, ChannelEntryView>) -> bool {
    forall|a: SocketAddress, b: SocketAddress|
        #[trigger] m.dom().contains(a) && #[trigger] m.dom().contains(b) && a != b
            && m[a].data_socket is Some ==> m[a].data_socket != m[b].data_socket
}

proof fn lemma_unique_sockets(e: Seq<(SocketAddress, ChannelEntry)>)
    requires
        entries_wf(e),
    ensures
        unique_sockets(entries_map(e)),
{
    let m = entries_map(e);
    assert forall|a: SocketAddress, b: SocketAddress|
        #[trigger] m.dom().contains(a) && #[trigger] m.dom().contains(b) && a != b
            && m[a].data_socket is Some implies m[a].data_socket != m[b].data_socket by {
        let i = choose|i: int| 0 <= i < e.len() && e[i].0 == a;
        let j = choose|j: int| 0 <= j < e.len() && e[j].0 == b;
        lemma_entries_map_at(e, i);
        lemma_entries_map_at(e, j);
        if i < j {
            assert(e[i].1@.data_socket != e[j].1@.data_socket);
        } else if j < i {
            assert(e[i].1@.data_socket is Some);
            if e[j].1@.data_socket is Some {
                assert(e[j].1@.data_socket != e[i].1@.data_socket);
            }
        }
    }
}

/// The first port at or after `p` in the passive range whose loopback
/// socket no client holds.
pub open spec fn first_free_port(m: Map<SocketAddress, ChannelEntryView>, p: int) -> Option<u16>
    decreases 2222 - p,
{
    if p < 2122 || p >= 2222 {
        None
    } else if !socket_taken(m, loopback_socket(p as u16)) {
        Some(p as u16)
    } else {
        first_free_port(m, p + 1)
    }
}

/// The map of client addresses to entries that a list of pairs holds.
pub open spec fn entries_map(entries: Seq<(SocketAddress, ChannelEntry)>) -> Map<SocketAddress, ChannelEntryView> {
    Map::new(
        |a: SocketAddress| exists|i: int| 0 <= i < entries.len() && entries[i].0 == a,
        |a: SocketAddress|
            entries[choose|i: int| 0 <= i < entries.len() && entries[i].0 == a].1@,
    )
}

/// Whether a data socket is assigned to some client in the registry.
pub open spec fn socket_taken(m: Map<SocketAddress, ChannelEntryView>, s: SocketAddress) -> bool {
    exists|a: SocketAddress| #[trigger] m.dom().contains(a) && m[a].data_socket == Some(s)
}

} // verus!
