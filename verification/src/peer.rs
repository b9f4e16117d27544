//! Peer identities, listen addresses and the table that maps one to the other.

use std::collections::HashMap;
use vstd::prelude::*;
use vstd::std_specs::iter::IteratorSpec;

verus! {

broadcast use vstd::std_specs::hash::group_hash_axioms;

/// Identifier of a cluster member, fixed by configuration for the life of the process.
/// Identifiers are totally ordered by their numeric value.
pub type PeerId = u64;

/// The host part of a listen address, held as the number that the address denotes.
#[derive(Clone, Copy, Debug, PartialEq, Eq, Structural, Hash)]
pub enum HostAddr {
    /// An IPv4 address; `127.0.0.1` is `0x7f00_0001`.
    V4(u32),
    /// An IPv6 address, most significant group first.
    V6(u128),
}

/// Where a peer listens for incoming links.
#[derive(Clone, Copy, Debug, PartialEq, Eq, Structural, Hash)]
pub struct ListenAddr {
    pub host: HostAddr,
    pub port: u16,
}

impl ListenAddr {
    /// The unspecified IPv4 address with port 0: "any interface, any port".
    pub open spec fn unspecified() -> ListenAddr {
        ListenAddr { host: HostAddr::V4(0), port: 0 }
    }

    pub fn any() -> (addr: ListenAddr)
        ensures
            addr == ListenAddr::unspecified(),
    {
        ListenAddr { host: HostAddr::V4(0), port: 0 }
    }
}

/// The addresses of the cluster members, keyed by identifier.
///
/// A table is filled while the configuration is loaded and only read afterwards.
pub struct PeerTable {
    addrs: HashMap<PeerId, ListenAddr>,
}

impl View for PeerTable {
    type V = Map<PeerId, ListenAddr>;

    closed spec fn view(&self) -> Map<PeerId, ListenAddr> {
        self.addrs@
    }
}

impl PeerTable {
    pub fn new() -> (table: PeerTable)
        ensures
            table@ == Map::<PeerId, ListenAddr>::empty(),
    {
        PeerTable { addrs: HashMap::new() }
    }

    /// Records `addr` as the address of `id`. An address recorded earlier for the same
    /// identifier is replaced and handed back.
    pub fn insert(&mut self, id: PeerId, addr: ListenAddr) -> (previous: Option<ListenAddr>)
        ensures
            final(self)@ == old(self)@.insert(id, addr),
            previous == (if old(self)@.contains_key(id) {
                Some(old(self)@[id])
            } else {
                None::<ListenAddr>
            }),
    {
        self.addrs.insert(id, addr)
    }

    pub fn address_of(&self, id: PeerId) -> (addr: Option<ListenAddr>)
        ensures
            addr == (if self@.contains_key(id) {
                Some(self@[id])
            } else {
                None::<ListenAddr>
            }),
    {
        match self.addrs.get(&id) {
            Some(addr) => Some(*addr),
            None => None,
        }
    }

    pub fn contains(&self, id: PeerId) -> (known: bool)
        ensures
            known == self@.contains_key(id),
    {
        self.addrs.contains_key(&id)
    }

    pub fn len(&self) -> (n: usize)
        ensures
            n == self@.len(),
            self@.dom().finite(),
    {
        self.addrs.len()
    }

    pub fn is_empty(&self) -> (empty: bool)
        ensures
            empty == (self@.len() == 0),
            empty == (self@ == Map::<PeerId, ListenAddr>::empty()),
    {
        proof {
            if self@.len() == 0 {
                assert(self@.dom() =~= Set::<PeerId>::empty());
                assert(self@ =~= Map::<PeerId, ListenAddr>::empty());
            }
        }
        self.addrs.is_empty()
    }

    /// The identifiers of all members, each once, in no particular order.
    pub fn peer_ids(&self) -> (ids: Vec<PeerId>)
        ensures
            ids@.no_duplicates(),
            ids@.to_set() == self@.dom(),
            ids@.len() == self@.len(),
    {
        let mut ids: Vec<PeerId> = Vec::new();
        let ghost keys = self.addrs.keys().remaining();
        for id in it: self.addrs.keys()
            invariant
                it.seq() == keys,
                ids@ == keys.take(it.index()).unref(),
        {
            ids.push(*id);
        }
        proof {
            assert(keys.take(keys.len() as int) == keys);
        }
        ids
    }
}

} // verus!
