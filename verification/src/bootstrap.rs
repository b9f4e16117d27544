//! What the transport has to do, peer by peer, to bring the mesh up.
//!
//! The plan is made from the peer table and one snapshot of the belief about leadership.
//! Carrying it out (binding the listener, opening and accepting links) is the caller's
//! part. A verdict holds for one attempt: before a link is tried again, ask again.

use crate::arbiter::{decide, should_initiate};
use crate::error::ConfigError;
use crate::leadership::LeadershipStatus;
use crate::peer::{ListenAddr, PeerId, PeerTable};
use vstd::prelude::*;

verus! {

/// The local node's part in bringing up the link to one peer.
#[derive(Clone, Copy, Debug, PartialEq, Eq, Structural, Hash)]
pub enum LinkAction {
    /// Open the link to the peer, which listens at the given address.
    Connect(ListenAddr),
    /// Wait on the local listener until the peer opens the link.
    Accept,
}

/// One line of the plan.
#[derive(Clone, Copy, Debug, PartialEq, Eq, Structural, Hash)]
pub struct PlannedLink {
    pub peer: PeerId,
    pub action: LinkAction,
}

/// The listener to start and the links to bring up.
#[derive(Debug)]
pub struct BootstrapPlan {
    /// The local node.
    pub local: PeerId,
    /// The address of the local listener.
    pub listen: ListenAddr,
    /// One line for each peer other than the local node, in no particular order.
    pub links: Vec<PlannedLink>,
}

/// The action that the verdict asks for on the link from `local` to `remote`.
pub open spec fn action_for(
    table: Map<PeerId, ListenAddr>,
    status: LeadershipStatus,
    local: PeerId,
    remote: PeerId,
) -> LinkAction {
    if should_initiate(status, local, remote) {
        LinkAction::Connect(table[remote])
    } else {
        LinkAction::Accept
    }
}

/// The peers that the lines of a plan name, line by line.
pub open spec fn planned_peers(links: Seq<PlannedLink>) -> Seq<PeerId> {
    links.map_values(|link: PlannedLink| link.peer)
}

/// Whether `links` is a plan for `local`: every member of the table but `local` itself
/// has one line and no more, and each line holds the action that the verdict asks for.
pub open spec fn is_plan_for(
    links: Seq<PlannedLink>,
    table: Map<PeerId, ListenAddr>,
    status: LeadershipStatus,
    local: PeerId,
) -> bool {
    &&& planned_peers(links).no_duplicates()
    &&& planned_peers(links).to_set() == table.dom().remove(local)
    &&& forall|i: int|
        0 <= i < links.len() ==> (#[trigger] links[i]).action == action_for(
            table,
            status,
            local,
            links[i].peer,
        )
}

/// The local node's part in one attempt at the link to `remote`. There is none where
/// `remote` is not a member of the table, or is the local node itself.
pub fn link_action(
    table: &PeerTable,
    status: LeadershipStatus,
    local: PeerId,
    remote: PeerId,
) -> (action: Option<LinkAction>)
    ensures
        action == (if remote != local && table@.contains_key(remote) {
            Some(action_for(table@, status, local, remote))
        } else {
            None::<LinkAction>
        }),
{
    if remote == local {
        return None;
    }
    match table.address_of(remote) {
        None => None,
        Some(addr) => {
            if decide(status, local, remote) {
                Some(LinkAction::Connect(addr))
            } else {
                Some(LinkAction::Accept)
            }
        },
    }
}

/// Plans the links of `local` to every other member of the table.
///
/// A node that is not in the table itself cannot take part: that is an error of the
/// configuration, and no plan is made.
pub fn plan(table: &PeerTable, status: LeadershipStatus, local: PeerId) -> (outcome: Result<
    BootstrapPlan,
    ConfigError,
>)
    ensures
        outcome is Ok <==> table@.contains_key(local),
        outcome matches Err(e) ==> e == ConfigError::LocalPeerMissing(local),
        outcome matches Ok(plan) ==> {
            &&& plan.local == local
            &&& plan.listen == table@[local]
            &&& is_plan_for(plan.links@, table@, status, local)
        },
{
    let listen = match table.address_of(local) {
        Some(addr) => addr,
        None => {
            return Err(ConfigError::LocalPeerMissing(local));
        },
    };
    let ids = table.peer_ids();
    let mut links: Vec<PlannedLink> = Vec::new();
    let mut next: usize = 0;
    while next < ids.len()
        invariant
            next <= ids.len(),
            ids@.no_duplicates(),
            ids@.to_set() == table@.dom(),
            planned_peers(links@).no_duplicates(),
            forall|p: PeerId|
                planned_peers(links@).contains(p) <==> (p != local && ids@.take(
                    next as int,
                ).contains(p)),
            forall|i: int|
                0 <= i < links.len() ==> (#[trigger] links[i]).action == action_for(
                    table@,
                    status,
                    local,
                    links[i].peer,
                ),
        decreases ids.len() - next,
    {
        let remote = ids[next];
        let ghost before = links@;
        if remote != local {
            assert(ids@.contains(remote));
            assert(table@.dom().contains(remote));
            let action = link_action(table, status, local, remote).unwrap();
            proof {
                lemma_not_taken_yet(ids@, next as int);
                lemma_push_keeps_peers_distinct(before, PlannedLink { peer: remote, action });
            }
            links.push(PlannedLink { peer: remote, action });
        }
        assert forall|p: PeerId|
            planned_peers(links@).contains(p) <==> (p != local && ids@.take(
                next as int + 1,
            ).contains(p)) by {
            lemma_take_one_more(ids@, next as int, p);
            if remote != local {
                lemma_push_adds_peer(before, links@.last(), p);
                assert(links@ == before.push(links@.last()));
            }
        }
        next = next + 1;
    }
    proof {
        assert(ids@.take(ids@.len() as int) == ids@);
        assert(planned_peers(links@).to_set() =~= table@.dom().remove(local)) by {
            assert forall|p: PeerId|
                planned_peers(links@).to_set().contains(p) == table@.dom().remove(
                    local,
                ).contains(p) by {
                assert(ids@.to_set().contains(p) == ids@.contains(p));
            }
        }
    }
    Ok(BootstrapPlan { local, listen, links })
}

/// Taking one element more from a sequence adds exactly that element.
proof fn lemma_take_one_more(s: Seq<PeerId>, n: int, p: PeerId)
    requires
        0 <= n < s.len(),
    ensures
        s.take(n + 1).contains(p) <==> (s.take(n).contains(p) || p == s[n]),
{
    assert(s.take(n + 1) =~= s.take(n).push(s[n]));
    if s.take(n).contains(p) {
        let j = choose|j: int| 0 <= j < n && s.take(n)[j] == p;
        assert(s.take(n + 1)[j] == p);
    }
    if p == s[n] {
        assert(s.take(n + 1)[n] == p);
    }
}

/// In a sequence without repetition, an element does not occur before its own place.
proof fn lemma_not_taken_yet(s: Seq<PeerId>, n: int)
    requires
        0 <= n < s.len(),
        s.no_duplicates(),
    ensures
        !s.take(n).contains(s[n]),
{
    if s.take(n).contains(s[n]) {
        let j = choose|j: int| 0 <= j < n && s.take(n)[j] == s[n];
        assert(s[j] == s[n]);
    }
}

/// A new line at the end of a plan adds its peer to the planned peers and no other.
proof fn lemma_push_adds_peer(links: Seq<PlannedLink>, link: PlannedLink, p: PeerId)
    ensures
        planned_peers(links.push(link)).contains(p) <==> (planned_peers(links).contains(p) || p
            == link.peer),
{
    let before = planned_peers(links);
    let after = planned_peers(links.push(link));
    assert(after =~= before.push(link.peer));
    if before.contains(p) {
        let j = choose|j: int| 0 <= j < before.len() && before[j] == p;
        assert(after[j] == p);
    }
    if p == link.peer {
        assert(after[before.len() as int] == p);
    }
}

/// A new line for a peer that had none keeps the planned peers free of repetition.
proof fn lemma_push_keeps_peers_distinct(links: Seq<PlannedLink>, link: PlannedLink)
    requires
        planned_peers(links).no_duplicates(),
        !planned_peers(links).contains(link.peer),
    ensures
        planned_peers(links.push(link)).no_duplicates(),
{
    assert(planned_peers(links.push(link)) =~= planned_peers(links).push(link.peer));
}

} // verus!
