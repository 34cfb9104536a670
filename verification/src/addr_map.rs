//! A finite map keyed by socket address, held as a list of pairs with
//! distinct keys; the registries of clients and of data channels are built
//! on it.
use crate::net::SocketAddress;
use vstd::prelude::*;

verus! {

/// A map from socket addresses to values. No address occurs twice.
pub struct AddressMap<V> {
    entries: Vec<(SocketAddress, V)>,
}

/// No address occurs twice in a list of pairs.
pub open spec fn distinct_keys<V>(c: Seq<(SocketAddress, V)>) -> bool {
    forall|i: int, j: int| 0 <= i < j < c.len() ==> (#[trigger] c[i]).0 != (#[trigger] c[j]).0
}

/// The map of addresses to values that a list of pairs holds.
pub open spec fn pairs_map<V: View>(c: Seq<(SocketAddress, V)>) -> Map<SocketAddress, V::V> {
    Map::new(
        |a: SocketAddress| exists|i: int| 0 <= i < c.len() && c[i].0 == a,
        |a: SocketAddress| c[choose|i: int| 0 <= i < c.len() && c[i].0 == a].1@,
    )
}

proof fn lemma_pairs_map_at<V: View>(c: Seq<(SocketAddress, V)>, i: int)
    requires
        distinct_keys(c),
        0 <= i < c.len(),
    ensures
        pairs_map(c).dom().contains(c[i].0),
        pairs_map(c)[c[i].0] == c[i].1@,
{
    let a = c[i].0;
    let j = choose|j: int| 0 <= j < c.len() && c[j].0 == a;
    if j != i {
        if j < i {
            assert(c[j].0 != c[i].0);
        } else {
            assert(c[i].0 != c[j].0);
        }
    }
}

proof fn lemma_pairs_map_update<V: View>(c: Seq<(SocketAddress, V)>, i: int, x: V)
    requires
        distinct_keys(c),
        0 <= i < c.len(),
    ensures
        distinct_keys(c.update(i, (c[i].0, x))),
        pairs_map(c.update(i, (c[i].0, x))) == pairs_map(c).insert(c[i].0, x@),
{
    let n = c.update(i, (c[i].0, x));
    assert forall|p: int, q: int| 0 <= p < q < n.len() implies (#[trigger] n[p]).0 != (#[trigger] n[q]).0 by {
        assert(c[p].0 != c[q].0);
    }
    let m = pairs_map(c).insert(c[i].0, x@);
    assert forall|a: SocketAddress| #[trigger] pairs_map(n).dom().contains(a) <==> m.dom().contains(a) by {
        if m.dom().contains(a) && a != c[i].0 {
            let j = choose|j: int| 0 <= j < c.len() && c[j].0 == a;
            assert(n[j].0 == a);
        }
        if a == c[i].0 {
            assert(n[i].0 == a);
        }
    }
    assert forall|a: SocketAddress| #[trigger] m.dom().contains(a) implies pairs_map(n)[a] == m[a] by {
        assert(pairs_map(n).dom().contains(a));
        let j = choose|j: int| 0 <= j < n.len() && n[j].0 == a;
        lemma_pairs_map_at(n, j);
        if a != c[i].0 {
            lemma_pairs_map_at(c, j);
        }
    }
    assert(pairs_map(n) =~= m);
}

proof fn lemma_pairs_map_push<V: View>(c: Seq<(SocketAddress, V)>, a: SocketAddress, x: V)
    requires
        distinct_keys(c),
        !pairs_map(c).dom().contains(a),
    ensures
        distinct_keys(c.push((a, x))),
        pairs_map(c.push((a, x))) == pairs_map(c).insert(a, x@),
{
    let n = c.push((a, x));
    assert forall|p: int, q: int| 0 <= p < q < n.len() implies (#[trigger] n[p]).0 != (#[trigger] n[q]).0 by {
        if q == c.len() {
            if n[p].0 == a {
                assert(c[p].0 == a);
            }
        }
    }
    let m = pairs_map(c).insert(a, x@);
    assert forall|b: SocketAddress| #[trigger] pairs_map(n).dom().contains(b) <==> m.dom().contains(b) by {
        if m.dom().contains(b) && b != a {
            let j = choose|j: int| 0 <= j < c.len() && c[j].0 == b;
            assert(n[j].0 == b);
        }
        if b == a {
            assert(n[c.len() as int].0 == a);
        }
    }
    assert forall|b: SocketAddress| #[trigger] m.dom().contains(b) implies pairs_map(n)[b] == m[b] by {
        assert(pairs_map(n).dom().contains(b));
        let j = choose|j: int| 0 <= j < n.len() && n[j].0 == b;
        lemma_pairs_map_at(n, j);
        if b != a {
            lemma_pairs_map_at(c, j);
        }
    }
    assert(pairs_map(n) =~= m);
}

proof fn lemma_pairs_map_remove<V: View>(c: Seq<(SocketAddress, V)>, i: int)
    requires
        distinct_keys(c),
        0 <= i < c.len(),
    ensures
        distinct_keys(c.remove(i)),
        pairs_map(c.remove(i)) == pairs_map(c).remove(c[i].0),
{
    let n = c.remove(i);
    assert forall|p: int, q: int| 0 <= p < q < n.len() implies (#[trigger] n[p]).0 != (#[trigger] n[q]).0 by {
        let pp = if p < i { p } else { p + 1 };
        let qq = if q < i { q } else { q + 1 };
        assert(n[p] == c[pp]);
        assert(n[q] == c[qq]);
        assert(c[pp].0 != c[qq].0);
    }
    let m = pairs_map(c).remove(c[i].0);
    assert forall|b: SocketAddress| #[trigger] pairs_map(n).dom().contains(b) <==> m.dom().contains(b) by {
        if m.dom().contains(b) {
            let j = choose|j: int| 0 <= j < c.len() && c[j].0 == b;
            if j < i {
                assert(n[j].0 == b);
            } else {
                assert(j != i);
                assert(n[j - 1].0 == b);
            }
        }
        if pairs_map(n).dom().contains(b) {
            let j = choose|j: int| 0 <= j < n.len() && n[j].0 == b;
            let jj = if j < i { j } else { j + 1 };
            assert(c[jj].0 == b);
            if b == c[i].0 {
                assert(jj != i);
                if jj < i {
                    assert(c[jj].0 != c[i].0);
                } else {
                    assert(c[i].0 != c[jj].0);
                }
            }
        }
    }
    assert forall|b: SocketAddress| #[trigger] m.dom().contains(b) implies pairs_map(n)[b] == m[b] by {
        assert(pairs_map(n).dom().contains(b));
        let j = choose|j: int| 0 <= j < n.len() && n[j].0 == b;
        lemma_pairs_map_at(n, j);
        let jj = if j < i { j } else { j + 1 };
        assert(n[j] == c[jj]);
        lemma_pairs_map_at(c, jj);
    }
    assert(pairs_map(n) =~= m);
}

impl<V: View> AddressMap<V> {
    /// No address occurs twice.
    pub closed spec fn wf(&self) -> bool {
        distinct_keys(self.entries@)
    }

    /// The map held.
    pub closed spec fn view(&self) -> Map<SocketAddress, V::V> {
        pairs_map(self.entries@)
    }

    /// An empty map.
    pub fn new() -> (r: Self)
        ensures
            r.wf(),
            r@ == Map::<SocketAddress, V::V>::empty(),
    {
        let r = AddressMap { entries: Vec::new() };
        assert(r@ =~= Map::<SocketAddress, V::V>::empty());
        r
    }

    fn find(&self, addr: &SocketAddress) -> (r: Option<usize>)
        requires
            self.wf(),
        ensures
            match r {
                Some(i) => i < self.entries@.len() && self.entries@[i as int].0 == *addr,
                None => !self@.dom().contains(*addr),
            },
    {
        let mut i: usize = 0;
        while i < self.entries.len()
            invariant
                i <= self.entries@.len(),
                forall|j: int| 0 <= j < i ==> self.entries@[j].0 != *addr,
            decreases self.entries@.len() - i,
        {
            if self.entries[i].0 == *addr {
                return Some(i);
            }
            i = i + 1;
        }
        None
    }

    /// Maps an address to a value, replacing the value it had.
    pub fn insert(&mut self, addr: SocketAddress, value: V)
        requires
            old(self).wf(),
        ensures
            final(self).wf(),
            final(self)@ == old(self)@.insert(addr, value@),
    {
        match self.find(&addr) {
            Some(i) => {
                proof {
                    lemma_pairs_map_update(self.entries@, i as int, value);
                }
                self.entries.set(i, (addr, value));
            },
            None => {
                proof {
                    lemma_pairs_map_push(self.entries@, addr, value);
                }
                self.entries.push((addr, value));
            },
        }
    }

    /// Removes and returns the value of an address.
    pub fn remove(&mut self, addr: &SocketAddress) -> (r: Option<V>)
        requires
            old(self).wf(),
        ensures
            final(self).wf(),
            final(self)@ == old(self)@.remove(*addr),
            match r {
                Some(c) => old(self)@.dom().contains(*addr) && old(self)@[*addr] == c@,
                None => !old(self)@.dom().contains(*addr),
            },
    {
        match self.find(addr) {
            None => {
                assert(old(self)@.remove(*addr) =~= old(self)@);
                None
            },
            Some(i) => {
                proof {
                    lemma_pairs_map_at(self.entries@, i as int);
                    lemma_pairs_map_remove(self.entries@, i as int);
                }
                let (_, c) = self.entries.remove(i);
                Some(c)
            },
        }
    }

    /// The value of an address, if any.
    pub fn get(&self, addr: &SocketAddress) -> (r: Option<&V>)
        requires
            self.wf(),
        ensures
            match r {
                Some(c) => self@.dom().contains(*addr) && self@[*addr] == c@,
                None => !self@.dom().contains(*addr),
            },
    {
        match self.find(addr) {
            None => None,
            Some(i) => {
                proof {
                    lemma_pairs_map_at(self.entries@, i as int);
                }
                Some(&self.entries[i].1)
            },
        }
    }

    /// The value of an address, for changes.
    pub fn get_mut(&mut self, addr: &SocketAddress) -> (r: Option<&mut V>)
        requires
            old(self).wf(),
        ensures
            final(self).wf(),
            match r {
                Some(c) => old(self)@.dom().contains(*addr) && old(self)@[*addr] == c@
                    && final(self)@ == old(self)@.insert(*addr, final(c)@),
                None => !old(self)@.dom().contains(*addr) && final(self)@ == old(self)@,
            },
    {
        match self.find(addr) {
            None => None,
            Some(i) => {
                proof {
                    lemma_pairs_map_at(self.entries@, i as int);
                }
                let entry = &mut self.entries[i];
                proof {
                    lemma_pairs_map_update(old(self).entries@, i as int, final(entry).1);
                }
                Some(&mut entry.1)
            },
        }
    }

    /// The mapped addresses, each once.
    pub fn keys(&self) -> (v: Vec<SocketAddress>)
        requires
            self.wf(),
        ensures
            forall|a: SocketAddress| v@.contains(a) <==> self@.dom().contains(a),
            v@.no_duplicates(),
    {
        let mut v: Vec<SocketAddress> = Vec::new();
        let mut i: usize = 0;
        while i < self.entries.len()
            invariant
                i <= self.entries@.len(),
                distinct_keys(self.entries@),
                v@.len() == i,
                forall|j: int| 0 <= j < i ==> v@[j] == self.entries@[j].0,
            decreases self.entries@.len() - i,
        {
            v.push(self.entries[i].0);
            i = i + 1;
        }
        assert forall|a: SocketAddress| v@.contains(a) <==> self@.dom().contains(a) by {
            if v@.contains(a) {
                let j = choose|j: int| 0 <= j < v@.len() && v@[j] == a;
                lemma_pairs_map_at(self.entries@, j);
            }
            if self@.dom().contains(a) {
                let j = choose|j: int| 0 <= j < self.entries@.len() && self.entries@[j].0 == a;
                assert(v@[j] == a);
            }
        }
        assert forall|p: int, q: int| 0 <= p < v@.len() && 0 <= q < v@.len() && p != q implies v@[p] != v@[q] by {
            if p < q {
                assert(self.entries@[p].0 != self.entries@[q].0);
            } else {
                assert(self.entries@[q].0 != self.entries@[p].0);
            }
        }
        v
    }

    /// How many addresses are mapped.
    pub fn len(&self) -> (n: usize)
        requires
            self.wf(),
        ensures
            n == self@.len(),
    {
        proof {
            lemma_pairs_map_len(self.entries@);
        }
        self.entries.len()
    }
}

proof fn lemma_pairs_map_len<V: View>(c: Seq<(SocketAddress, V)>)
    requires
        distinct_keys(c),
    ensures
        pairs_map(c).dom().finite(),
        pairs_map(c).len() == c.len(),
    decreases c.len(),
{
    if c.len() == 0 {
        assert(pairs_map(c).dom() =~= Set::<SocketAddress>::empty());
    } else {
        let last = c.len() - 1;
        let d = c.drop_last();
        assert(distinct_keys(d)) by {
            assert forall|p: int, q: int| 0 <= p < q < d.len() implies (#[trigger] d[p]).0 != (#[trigger] d[q]).0 by {
                assert(d[p] == c[p] && d[q] == c[q]);
            }
        }
        lemma_pairs_map_len(d);
        assert(!pairs_map(d).dom().contains(c[last].0)) by {
            if pairs_map(d).dom().contains(c[last].0) {
                let j = choose|j: int| 0 <= j < d.len() && d[j].0 == c[last].0;
                assert(c[j].0 != c[last].0);
            }
        }
        lemma_pairs_map_push(d, c[last].0, c[last].1);
        assert(d.push((c[last].0, c[last].1)) =~= c);
    }
}

impl<V: View> Default for AddressMap<V> {
    fn default() -> (r: Self)
        ensures
            r.wf(),
            r@ == Map::<SocketAddress, V::V>::empty(),
    {
        AddressMap::new()
    }
}

} // verus!
