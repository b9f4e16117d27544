//! The verdict on who opens the link between two peers.
//!
//! Both ends of a pair decide on their own, without talking to each other. A node that
//! believes it leads opens every link; one that believes it follows opens none and waits.
//! While a node knows nothing about leadership the identifiers break the tie: the end
//! with the larger identifier opens the link.

use crate::leadership::{LeadershipStatus, LeadershipTracker};
use crate::peer::PeerId;
use vstd::prelude::*;

verus! {

/// The tie-break by identifier: the end with the larger identifier opens the link.
pub open spec fn larger_id_initiates(local: PeerId, remote: PeerId) -> bool {
    local > remote
}

/// Whether the local end opens the link to `remote`, given the local belief.
pub open spec fn should_initiate(status: LeadershipStatus, local: PeerId, remote: PeerId) -> bool {
    match status {
        LeadershipStatus::IsLeader => true,
        LeadershipStatus::IsFollower => false,
        LeadershipStatus::Unknown => larger_id_initiates(local, remote),
    }
}

/// One try at a link between the local node and a peer.
#[derive(Clone, Copy, Debug, PartialEq, Eq, Structural, Hash)]
pub struct ConnectionAttempt {
    pub local: PeerId,
    pub remote: PeerId,
    /// Whether the local end is the one that opens the link in this attempt.
    pub initiating: bool,
}

impl ConnectionAttempt {
    /// Whether the attempt runs in the direction that the verdict asks for.
    pub open spec fn agrees_with(self, status: LeadershipStatus) -> bool {
        self.initiating == should_initiate(status, self.local, self.remote)
    }

    pub fn follows_verdict(&self, status: LeadershipStatus) -> (agrees: bool)
        ensures
            agrees == self.agrees_with(status),
    {
        self.initiating == decide(status, self.local, self.remote)
    }
}

pub fn tie_break(local: PeerId, remote: PeerId) -> (initiate: bool)
    ensures
        initiate == larger_id_initiates(local, remote),
        local == remote ==> !initiate,
{
    local > remote
}

/// The verdict for one attempt: `true` when the local end is to open the link to `remote`,
/// `false` when it is to wait for `remote` to open it. The verdict depends on nothing but
/// the three arguments.
pub fn decide(status: LeadershipStatus, local: PeerId, remote: PeerId) -> (initiate: bool)
    ensures
        initiate == should_initiate(status, local, remote),
        status == LeadershipStatus::IsLeader ==> initiate,
        status == LeadershipStatus::IsFollower ==> !initiate,
        status == LeadershipStatus::Unknown ==> initiate == (local > remote),
{
    match status {
        LeadershipStatus::IsLeader => true,
        LeadershipStatus::IsFollower => false,
        LeadershipStatus::Unknown => tie_break(local, remote),
    }
}

impl LeadershipTracker {
    /// The verdict under the belief that the tracker holds right now.
    pub fn decide(&self, local: PeerId, remote: PeerId) -> (initiate: bool)
        ensures
            initiate == should_initiate(self@, local, remote),
    {
        decide(self.current_status(), local, remote)
    }
}

/// While neither end knows a leader, the end with the larger identifier opens the link
/// and the other end waits.
pub proof fn lemma_tie_break_favors_larger_id(a: PeerId, b: PeerId)
    requires
        a > b,
    ensures
        should_initiate(LeadershipStatus::Unknown, a, b),
        !should_initiate(LeadershipStatus::Unknown, b, a),
{
}

/// While neither end knows a leader, exactly one end of a pair of distinct peers opens
/// the link.
pub proof fn lemma_tie_break_picks_one_end(a: PeerId, b: PeerId)
    requires
        a != b,
    ensures
        should_initiate(LeadershipStatus::Unknown, a, b) != should_initiate(
            LeadershipStatus::Unknown,
            b,
            a,
        ),
{
}

/// A node that believes it leads opens the link to every peer, whatever the identifiers.
pub proof fn lemma_leader_always_initiates(local: PeerId, remote: PeerId)
    ensures
        should_initiate(LeadershipStatus::IsLeader, local, remote),
{
}

/// A node that believes it follows opens no link, whatever the identifiers.
pub proof fn lemma_follower_never_initiates(local: PeerId, remote: PeerId)
    ensures
        !should_initiate(LeadershipStatus::IsFollower, local, remote),
{
}

/// A leader and a follower that both know their part agree: the leader opens the link,
/// the follower waits for it.
pub proof fn lemma_leader_and_follower_agree(leader: PeerId, follower: PeerId)
    ensures
        should_initiate(LeadershipStatus::IsLeader, leader, follower) != should_initiate(
            LeadershipStatus::IsFollower,
            follower,
            leader,
        ),
{
}

} // verus!
