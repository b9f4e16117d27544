//! The links that the local node holds, at most one per peer, and what happens when a
//! second link to the same peer turns up.
//!
//! Two ends that decide on stale beliefs may both open a link. Each end then finds, after
//! the handshake, that it holds a link to that peer already. It keeps the link that runs
//! in the direction of its verdict and closes the other one.

use crate::arbiter::{decide, should_initiate, ConnectionAttempt};
use crate::error::Error;
use crate::leadership::LeadershipStatus;
use crate::peer::PeerId;
use std::collections::HashMap;
use vstd::prelude::*;

verus! {

broadcast use vstd::std_specs::hash::group_hash_axioms;

/// Which end opened a link, seen from the local node.
#[derive(Clone, Copy, Debug, PartialEq, Eq, Structural, Hash)]
pub enum LinkOrigin {
    /// The local node opened the link.
    Outbound,
    /// The peer opened the link and the local node accepted it.
    Inbound,
}

/// Which of two links to one peer has to go.
#[derive(Clone, Copy, Debug, PartialEq, Eq, Structural, Hash)]
pub enum Loser {
    /// The link that was held before.
    Held,
    /// The link that has just finished its handshake.
    Incoming,
}

/// How a pair of links to one peer was settled.
#[derive(Clone, Copy, Debug, PartialEq, Eq, Structural, Hash)]
pub struct Resolution {
    /// The link to close.
    pub loser: Loser,
    /// The origin of the link that stays.
    pub kept: LinkOrigin,
    /// The origin of the link to close.
    pub closed: LinkOrigin,
    /// The peer that had opened the link to close.
    pub closed_opener: PeerId,
}

/// The peer that opened a link of the given origin between `local` and `remote`.
pub open spec fn opener(local: PeerId, remote: PeerId, origin: LinkOrigin) -> PeerId {
    match origin {
        LinkOrigin::Outbound => local,
        LinkOrigin::Inbound => remote,
    }
}

/// The origin that the verdict asks for.
pub open spec fn rightful_origin(
    status: LeadershipStatus,
    local: PeerId,
    remote: PeerId,
) -> LinkOrigin {
    if should_initiate(status, local, remote) {
        LinkOrigin::Outbound
    } else {
        LinkOrigin::Inbound
    }
}

/// Whether the incoming link takes the place of the held one. It does so only where it
/// runs in the direction of the verdict and the held one does not. Of two links of the
/// same origin the held one has priority.
pub open spec fn newcomer_wins(
    status: LeadershipStatus,
    local: PeerId,
    remote: PeerId,
    held: LinkOrigin,
    incoming: LinkOrigin,
) -> bool {
    held != incoming && incoming == rightful_origin(status, local, remote)
}

/// How the pair of a held and an incoming link to `remote` is settled.
pub open spec fn resolution_of(
    status: LeadershipStatus,
    local: PeerId,
    remote: PeerId,
    held: LinkOrigin,
    incoming: LinkOrigin,
) -> Resolution {
    if newcomer_wins(status, local, remote, held, incoming) {
        Resolution {
            loser: Loser::Held,
            kept: incoming,
            closed: held,
            closed_opener: opener(local, remote, held),
        }
    } else {
        Resolution {
            loser: Loser::Incoming,
            kept: held,
            closed: incoming,
            closed_opener: opener(local, remote, incoming),
        }
    }
}

impl LinkOrigin {
    /// The peer that opened a link of this origin between `local` and `remote`.
    pub fn opened_by(self, local: PeerId, remote: PeerId) -> (peer: PeerId)
        ensures
            peer == opener(local, remote, self),
    {
        match self {
            LinkOrigin::Outbound => local,
            LinkOrigin::Inbound => remote,
        }
    }
}

impl ConnectionAttempt {
    /// The origin of the link that the attempt gives: outbound where the local end opens it.
    pub open spec fn origin_of(self) -> LinkOrigin {
        if self.initiating {
            LinkOrigin::Outbound
        } else {
            LinkOrigin::Inbound
        }
    }

    /// The origin of the link that the attempt gives. An attempt follows the verdict
    /// exactly when its link has the origin that the verdict asks for.
    pub fn origin(&self) -> (origin: LinkOrigin)
        ensures
            origin == self.origin_of(),
            forall|status: LeadershipStatus|
                #[trigger] self.agrees_with(status) <==> origin == rightful_origin(
                    status,
                    self.local,
                    self.remote,
                ),
    {
        if self.initiating {
            LinkOrigin::Outbound
        } else {
            LinkOrigin::Inbound
        }
    }
}

impl Resolution {
    /// The failure to report for the closed link.
    pub fn error(&self) -> (err: Error)
        ensures
            err == Error::DuplicateConnection(self.closed_opener),
    {
        Error::DuplicateConnection(self.closed_opener)
    }
}

/// Settles a pair of links to `remote`: the one that the local node held and the one
/// that has just finished its handshake.
pub fn resolve_duplicate(
    status: LeadershipStatus,
    local: PeerId,
    remote: PeerId,
    held: LinkOrigin,
    incoming: LinkOrigin,
) -> (resolution: Resolution)
    ensures
        resolution == resolution_of(status, local, remote, held, incoming),
{
    let rightful = if decide(status, local, remote) {
        LinkOrigin::Outbound
    } else {
        LinkOrigin::Inbound
    };
    if held != incoming && incoming == rightful {
        Resolution {
            loser: Loser::Held,
            kept: incoming,
            closed: held,
            closed_opener: held.opened_by(local, remote),
        }
    } else {
        Resolution {
            loser: Loser::Incoming,
            kept: held,
            closed: incoming,
            closed_opener: incoming.opened_by(local, remote),
        }
    }
}

/// The links that the local node holds: at most one per peer.
pub struct LinkTable {
    local: PeerId,
    held: HashMap<PeerId, LinkOrigin>,
}

impl View for LinkTable {
    type V = Map<PeerId, LinkOrigin>;

    closed spec fn view(&self) -> Map<PeerId, LinkOrigin> {
        self.held@
    }
}

impl LinkTable {
    /// The node whose links these are.
    pub closed spec fn local(&self) -> PeerId {
        self.local
    }

    /// The links of `local`, none held yet.
    pub fn new(local: PeerId) -> (table: LinkTable)
        ensures
            table.local() == local,
            table@ == Map::<PeerId, LinkOrigin>::empty(),
    {
        LinkTable { local, held: HashMap::new() }
    }

    pub fn local_id(&self) -> (local: PeerId)
        ensures
            local == self.local(),
    {
        self.local
    }

    /// The origin of the link held to `remote`, if one is held.
    pub fn held(&self, remote: PeerId) -> (origin: Option<LinkOrigin>)
        ensures
            origin == (if self@.contains_key(remote) {
                Some(self@[remote])
            } else {
                None::<LinkOrigin>
            }),
    {
        match self.held.get(&remote) {
            Some(origin) => Some(*origin),
            None => None,
        }
    }

    /// The number of peers to which a link is held.
    pub fn len(&self) -> (n: usize)
        ensures
            n == self@.len(),
    {
        self.held.len()
    }

    /// Takes in a link to `remote` that has finished its handshake.
    ///
    /// Where no link to `remote` was held, the new one is held from now on and nothing is
    /// handed back. Where one was held, the pair is settled under the belief `status`:
    /// the table holds the link that stays, and the resolution handed back says which
    /// link the caller has to close.
    pub fn register(
        &mut self,
        status: LeadershipStatus,
        remote: PeerId,
        origin: LinkOrigin,
    ) -> (duplicate: Option<Resolution>)
        ensures
            final(self).local() == old(self).local(),
            duplicate == (if old(self)@.contains_key(remote) {
                Some(resolution_of(status, old(self).local(), remote, old(self)@[remote], origin))
            } else {
                None::<Resolution>
            }),
            final(self)@ == old(self)@.insert(
                remote,
                match duplicate {
                    Some(resolution) => resolution.kept,
                    None => origin,
                },
            ),
    {
        match self.held(remote) {
            None => {
                self.held.insert(remote, origin);
                None
            },
            Some(held) => {
                let resolution = resolve_duplicate(status, self.local, remote, held, origin);
                self.held.insert(remote, resolution.kept);
                Some(resolution)
            },
        }
    }

    /// Forgets the link of the given origin to `remote`, once the transport has lost or
    /// closed it. A held link of the other origin stays.
    pub fn release(&mut self, remote: PeerId, origin: LinkOrigin) -> (released: bool)
        ensures
            final(self).local() == old(self).local(),
            released == (old(self)@.contains_key(remote) && old(self)@[remote] == origin),
            final(self)@ == (if released {
                old(self)@.remove(remote)
            } else {
                old(self)@
            }),
    {
        match self.held(remote) {
            Some(held) => {
                if held == origin {
                    self.held.remove(&remote);
                    true
                } else {
                    false
                }
            },
            None => false,
        }
    }
}

/// Of a pair of links one stays and the other one is closed.
pub proof fn lemma_resolution_keeps_one(
    status: LeadershipStatus,
    local: PeerId,
    remote: PeerId,
    held: LinkOrigin,
    incoming: LinkOrigin,
)
    ensures
        ({
            let r = resolution_of(status, local, remote, held, incoming);
            &&& r.loser == Loser::Held ==> r.kept == incoming && r.closed == held
            &&& r.loser == Loser::Incoming ==> r.kept == held && r.closed == incoming
            &&& r.closed_opener == opener(local, remote, r.closed)
        }),
{
}

/// Where the two links run in opposite directions, the one that the verdict asks for
/// stays, whichever of them came first.
pub proof fn lemma_rightful_link_stays(
    status: LeadershipStatus,
    local: PeerId,
    remote: PeerId,
    held: LinkOrigin,
    incoming: LinkOrigin,
)
    requires
        held != incoming,
    ensures
        resolution_of(status, local, remote, held, incoming).kept == rightful_origin(
            status,
            local,
            remote,
        ),
        resolution_of(status, local, remote, held, incoming).closed != rightful_origin(
            status,
            local,
            remote,
        ),
{
}

/// Two ends whose verdicts fit together settle a crossed pair of links alike: both keep
/// the link that the same peer opened, and both report the same peer for the closed one.
pub proof fn lemma_both_ends_keep_same_link(
    a: PeerId,
    b: PeerId,
    status_a: LeadershipStatus,
    status_b: LeadershipStatus,
    held_a: LinkOrigin,
    incoming_a: LinkOrigin,
    held_b: LinkOrigin,
    incoming_b: LinkOrigin,
)
    requires
        a != b,
        should_initiate(status_a, a, b) != should_initiate(status_b, b, a),
        held_a != incoming_a,
        held_b != incoming_b,
    ensures
        ({
            let at_a = resolution_of(status_a, a, b, held_a, incoming_a);
            let at_b = resolution_of(status_b, b, a, held_b, incoming_b);
            &&& opener(a, b, at_a.kept) == opener(b, a, at_b.kept)
            &&& at_a.closed_opener == at_b.closed_opener
            &&& at_a.closed_opener != opener(a, b, at_a.kept)
        }),
{
}

/// While neither end knows a leader, a crossed pair of links is settled in favour of the
/// link that the peer with the larger identifier opened.
pub proof fn lemma_unknown_ends_keep_link_of_larger_id(
    a: PeerId,
    b: PeerId,
    held: LinkOrigin,
    incoming: LinkOrigin,
)
    requires
        a != b,
        held != incoming,
    ensures
        ({
            let r = resolution_of(LeadershipStatus::Unknown, a, b, held, incoming);
            &&& opener(a, b, r.kept) == (if a > b { a } else { b })
            &&& r.closed_opener == (if a > b { b } else { a })
        }),
{
}

} // verus!
