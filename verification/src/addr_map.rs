//! A small map keyed by endpoint.
use vstd::prelude::*;

use crate::net::SocketAddr;

verus! {

/// A map from endpoints to values, kept as a list in which no endpoint occurs twice.
pub struct AddrMap<V> {
    entries: Vec<(SocketAddr, V)>,
}

/// No endpoint occurs twice among `entries`.
pub open spec fn distinct_keys<V>(entries: Seq<(SocketAddr, V)>) -> bool {
    forall|i: int, j: int|
        0 <= i < j < entries.len() ==> (#[trigger] entries[i]).0 != (#[trigger] entries[j]).0
}

/// `entries` holds a pair whose endpoint is `addr`, at index `i`.
pub open spec fn entry_at<V>(entries: Seq<(SocketAddr, V)>, addr: SocketAddr, i: int) -> bool {
    0 <= i < entries.len() && entries[i].0 == addr
}

/// The map that `entries` stands for.
pub open spec fn as_map<V>(entries: Seq<(SocketAddr, V)>) -> Map<SocketAddr, V> {
    Map::new(
        |addr: SocketAddr| exists|i: int| entry_at(entries, addr, i),
        |addr: SocketAddr| entries[choose|i: int| entry_at(entries, addr, i)].1,
    )
}

/// A pair among distinct ones is what the map holds for its endpoint.
proof fn lemma_entry<V>(entries: Seq<(SocketAddr, V)>, i: int)
    requires
        distinct_keys(entries),
        0 <= i < entries.len(),
    ensures
        as_map(entries).dom().contains(entries[i].0),
        as_map(entries)[entries[i].0] == entries[i].1,
{
    let addr = entries[i].0;
    assert(entry_at(entries, addr, i));
    let j = choose|j: int| entry_at(entries, addr, j);
    assert(entry_at(entries, addr, j));
    if i < j {
        assert(entries[i].0 != entries[j].0);
    } else if j < i {
        assert(entries[j].0 != entries[i].0);
    }
}

/// Replacing the value of a pair replaces what the map holds for its endpoint.
proof fn lemma_replace<V>(entries: Seq<(SocketAddr, V)>, k: int, value: V)
    requires
        distinct_keys(entries),
        0 <= k < entries.len(),
    ensures
        distinct_keys(entries.update(k, (entries[k].0, value))),
        as_map(entries.update(k, (entries[k].0, value))) == as_map(entries).insert(
            entries[k].0,
            value,
        ),
{
    let addr = entries[k].0;
    let after = entries.update(k, (addr, value));
    assert forall|i: int, j: int| 0 <= i < j < after.len() implies (#[trigger] after[i]).0 != (
    #[trigger] after[j]).0 by {
        assert(entries[i].0 != entries[j].0);
    }
    assert forall|a: SocketAddr| as_map(after).dom().contains(a) <==> as_map(entries).insert(
        addr,
        value,
    ).dom().contains(a) by {
        if as_map(after).dom().contains(a) {
            let i = choose|i: int| entry_at(after, a, i);
            assert(entry_at(entries, a, i));
        }
        if as_map(entries).dom().contains(a) {
            let i = choose|i: int| entry_at(entries, a, i);
            assert(entry_at(after, a, i));
        }
        assert(entry_at(after, addr, k));
    }
    assert forall|a: SocketAddr| as_map(after).dom().contains(a) implies as_map(after)[a] == as_map(
        entries,
    ).insert(addr, value)[a] by {
        let i = choose|i: int| entry_at(after, a, i);
        lemma_entry(after, i);
        lemma_entry(entries, i);
    }
    assert(as_map(after) =~= as_map(entries).insert(addr, value));
}

impl<V> View for AddrMap<V> {
    type V = Map<SocketAddr, V>;

    closed spec fn view(&self) -> Map<SocketAddr, V> {
        as_map(self.entries@)
    }
}

impl<V> AddrMap<V> {
    /// No endpoint occurs twice.
    pub closed spec fn inv(&self) -> bool {
        distinct_keys(self.entries@)
    }

    /// The empty map.
    pub fn new() -> (r: AddrMap<V>)
        ensures
            r.inv(),
            r@ == Map::<SocketAddr, V>::empty(),
    {
        let r = AddrMap { entries: Vec::new() };
        assert(r@ =~= Map::<SocketAddr, V>::empty()) by {
            assert forall|addr: SocketAddr| !r@.dom().contains(addr) by {
                assert(forall|i: int| !entry_at(r.entries@, addr, i));
            }
        }
        r
    }

    fn position(&self, addr: SocketAddr) -> (r: Option<usize>)
        requires
            self.inv(),
        ensures
            match r {
                Some(i) => entry_at(self.entries@, addr, i as int) && self@.dom().contains(addr)
                    && self@[addr] == self.entries@[i as int].1,
                None => !self@.dom().contains(addr),
            },
    {
        let mut i: usize = 0;
        while i < self.entries.len()
            invariant
                self.inv(),
                i <= self.entries@.len(),
                forall|j: int| 0 <= j < i ==> (#[trigger] self.entries@[j]).0 != addr,
            decreases self.entries@.len() - i,
        {
            if self.entries[i].0 == addr {
                proof {
                    lemma_entry(self.entries@, i as int);
                }
                return Some(i);
            }
            i += 1;
        }
        None
    }

    /// Whether the map holds a value for `addr`.
    pub fn contains_key(&self, addr: SocketAddr) -> (r: bool)
        requires
            self.inv(),
        ensures
            r == self@.dom().contains(addr),
    {
        self.position(addr).is_some()
    }

    /// The value held for `addr`.
    pub fn get(&self, addr: SocketAddr) -> (r: Option<&V>)
        requires
            self.inv(),
        ensures
            match r {
                Some(v) => self@.dom().contains(addr) && *v == self@[addr],
                None => !self@.dom().contains(addr),
            },
    {
        match self.position(addr) {
            Some(i) => Some(&self.entries[i].1),
            None => None,
        }
    }

    /// The value held for `addr`, to be changed in place.
    pub fn get_mut(&mut self, addr: SocketAddr) -> (r: Option<&mut V>)
        requires
            old(self).inv(),
        ensures
            final(self).inv(),
            match r {
                Some(v) => old(self)@.dom().contains(addr) && *v == old(self)@[addr]
                    && final(self)@ == old(self)@.insert(addr, *final(v)),
                None => !old(self)@.dom().contains(addr) && *final(self) == *old(self),
            },
    {
        match self.position(addr) {
            Some(i) => {
                let ghost before = self.entries@;
                proof {
                    assert forall|v: V| distinct_keys(before.update(i as int, (addr, v))) && as_map(
                        #[trigger] before.update(i as int, (addr, v)),
                    ) == as_map(before).insert(addr, v) by {
                        lemma_replace(before, i as int, v);
                    }
                }
                Some(&mut self.entries[i].1)
            },
            None => None,
        }
    }

    /// Holds `value` for `addr`; returns the value that it replaces.
    pub fn insert(&mut self, addr: SocketAddr, value: V) -> (r: Option<V>)
        requires
            old(self).inv(),
        ensures
            final(self).inv(),
            final(self)@ == old(self)@.insert(addr, value),
            match r {
                Some(v) => old(self)@.dom().contains(addr) && v == old(self)@[addr],
                None => !old(self)@.dom().contains(addr),
            },
    {
        let replaced = self.remove(addr);
        let ghost before = self.entries@;
        self.entries.push((addr, value));
        proof {
            let after = self.entries@;
            assert forall|i: int, j: int| 0 <= i < j < after.len() implies (#[trigger] after[i]).0
                != (#[trigger] after[j]).0 by {
                if j == before.len() {
                    lemma_entry(before, i);
                } else {
                    assert(before[i].0 != before[j].0);
                }
            }
            assert forall|a: SocketAddr| as_map(after).dom().contains(a) <==> (a == addr || as_map(
                before,
            ).dom().contains(a)) by {
                if a == addr {
                    assert(entry_at(after, a, before.len() as int));
                }
                if as_map(before).dom().contains(a) {
                    let i = choose|i: int| entry_at(before, a, i);
                    assert(entry_at(after, a, i));
                }
                if as_map(after).dom().contains(a) && a != addr {
                    let i = choose|i: int| entry_at(after, a, i);
                    assert(entry_at(before, a, i));
                }
            }
            assert forall|a: SocketAddr| as_map(after).dom().contains(a) implies as_map(after)[a]
                == (if a == addr {
                value
            } else {
                as_map(before)[a]
            }) by {
                let i = choose|i: int| entry_at(after, a, i);
                lemma_entry(after, i);
                if i < before.len() {
                    lemma_entry(before, i);
                    assert(!as_map(before).dom().contains(addr));
                }
            }
            assert(self@ =~= old(self)@.insert(addr, value));
        }
        replaced
    }

    /// Forgets `addr`; returns the value that was held for it.
    pub fn remove(&mut self, addr: SocketAddr) -> (r: Option<V>)
        requires
            old(self).inv(),
        ensures
            final(self).inv(),
            final(self)@ == old(self)@.remove(addr),
            match r {
                Some(v) => old(self)@.dom().contains(addr) && v == old(self)@[addr],
                None => !old(self)@.dom().contains(addr),
            },
    {
        match self.position(addr) {
            None => {
                assert(self@ =~= old(self)@.remove(addr));
                None
            },
            Some(k) => {
                let ghost before = self.entries@;
                let taken = self.entries.remove(k);
                proof {
                    let after = self.entries@;
                    assert forall|i: int, j: int| 0 <= i < j < after.len() implies (
                    #[trigger] after[i]).0 != (#[trigger] after[j]).0 by {
                        let i0 = if i < k {
                            i
                        } else {
                            i + 1
                        };
                        let j0 = if j < k {
                            j
                        } else {
                            j + 1
                        };
                        assert(before[i0].0 != before[j0].0);
                    }
                    assert forall|a: SocketAddr| as_map(after).dom().contains(a) <==> (a != addr
                        && as_map(before).dom().contains(a)) by {
                        if as_map(after).dom().contains(a) {
                            let i = choose|i: int| entry_at(after, a, i);
                            let i0 = if i < k {
                                i
                            } else {
                                i + 1
                            };
                            assert(entry_at(before, a, i0));
                            if i0 < k {
                                assert(before[i0].0 != before[k as int].0);
                            } else {
                                assert(before[k as int].0 != before[i0].0);
                            }
                        }
                        if a != addr && as_map(before).dom().contains(a) {
                            let i = choose|i: int| entry_at(before, a, i);
                            let i1 = if i < k {
                                i
                            } else {
                                i - 1
                            };
                            assert(entry_at(after, a, i1));
                        }
                    }
                    assert forall|a: SocketAddr| as_map(after).dom().contains(a) implies as_map(
                        after,
                    )[a] == as_map(before)[a] by {
                        let i = choose|i: int| entry_at(after, a, i);
                        let i0 = if i < k {
                            i
                        } else {
                            i + 1
                        };
                        lemma_entry(after, i);
                        lemma_entry(before, i0);
                    }
                    assert(self@ =~= old(self)@.remove(addr));
                }
                Some(taken.1)
            },
        }
    }

    /// The endpoints that the map holds values for, each once.
    pub fn keys(&self) -> (r: Vec<SocketAddr>)
        requires
            self.inv(),
        ensures
            r@.no_duplicates(),
            forall|addr: SocketAddr| r@.contains(addr) <==> self@.dom().contains(addr),
    {
        let mut keys: Vec<SocketAddr> = Vec::new();
        let mut i: usize = 0;
        while i < self.entries.len()
            invariant
                self.inv(),
                i <= self.entries@.len(),
                keys@.len() == i,
                forall|j: int| 0 <= j < i ==> #[trigger] keys@[j] == self.entries@[j].0,
            decreases self.entries@.len() - i,
        {
            keys.push(self.entries[i].0);
            i += 1;
        }
        proof {
            assert forall|a: int, b: int| 0 <= a < b < keys@.len() implies keys@[a] != keys@[b] by {
                assert(self.entries@[a].0 != self.entries@[b].0);
            }
            assert forall|addr: SocketAddr| keys@.contains(addr) <==> self@.dom().contains(addr) by {
                if keys@.contains(addr) {
                    let j = choose|j: int| 0 <= j < keys@.len() && keys@[j] == addr;
                    lemma_entry(self.entries@, j);
                }
                if self@.dom().contains(addr) {
                    let j = choose|j: int| entry_at(self.entries@, addr, j);
                    assert(keys@[j] == addr);
                }
            }
        }
        keys
    }
}

} // verus!
