//! What the local node believes about cluster leadership, and how that belief follows the
//! role changes that the consensus engine reports.

use vstd::prelude::*;

verus! {

/// The role of the local node inside the consensus engine.
#[derive(Clone, Copy, Debug, PartialEq, Eq, Structural, Hash)]
pub enum ConsensusRole {
    Follower,
    Candidate,
    Leader,
}

/// The local node's own belief about leadership. It is no statement about the cluster:
/// two nodes may hold beliefs that contradict each other for a while.
#[derive(Clone, Copy, Debug, PartialEq, Eq, Structural, Hash)]
pub enum LeadershipStatus {
    /// No role change across the leader boundary has been seen yet.
    Unknown,
    IsLeader,
    IsFollower,
}

/// A change of belief worth reporting to an operator.
#[derive(Clone, Copy, Debug, PartialEq, Eq, Structural, Hash)]
pub enum LeadershipEvent {
    /// The local node has taken the leader role.
    BecameLeader,
    /// The local node has given the leader role up.
    LostLeadership,
}

/// Whether a reported change takes the node into the leader role.
pub open spec fn gains_leadership(from: ConsensusRole, to: ConsensusRole) -> bool {
    from != to && to == ConsensusRole::Leader
}

/// Whether a reported change takes the node out of the leader role.
pub open spec fn loses_leadership(from: ConsensusRole, to: ConsensusRole) -> bool {
    from != to && from == ConsensusRole::Leader
}

/// The belief held after the engine has reported a change of role from `from` to `to`.
///
/// Only changes across the leader boundary count. A report that names the same role
/// twice, or a change between two roles of which neither is the leader role, leaves the
/// belief as it was.
pub open spec fn status_after(
    status: LeadershipStatus,
    from: ConsensusRole,
    to: ConsensusRole,
) -> LeadershipStatus {
    if gains_leadership(from, to) {
        LeadershipStatus::IsLeader
    } else if loses_leadership(from, to) {
        LeadershipStatus::IsFollower
    } else {
        status
    }
}

/// The event, if any, that a report of a change from `from` to `to` gives rise to.
pub open spec fn event_for(from: ConsensusRole, to: ConsensusRole) -> Option<LeadershipEvent> {
    if gains_leadership(from, to) {
        Some(LeadershipEvent::BecameLeader)
    } else if loses_leadership(from, to) {
        Some(LeadershipEvent::LostLeadership)
    } else {
        None
    }
}

/// The belief held after a whole series of reports, applied first to last.
pub open spec fn status_after_all(
    status: LeadershipStatus,
    reports: Seq<(ConsensusRole, ConsensusRole)>,
) -> LeadershipStatus
    decreases reports.len(),
{
    if reports.len() == 0 {
        status
    } else {
        let last = reports.last();
        status_after(status_after_all(status, reports.drop_last()), last.0, last.1)
    }
}

/// The steps that a belief may take: from `Unknown` to either known value, and between
/// the two known values. No step leads back to `Unknown`.
pub open spec fn belief_step(before: LeadershipStatus, after: LeadershipStatus) -> bool {
    before == after || after != LeadershipStatus::Unknown
}

pub fn next_status(status: LeadershipStatus, from: ConsensusRole, to: ConsensusRole) -> (next:
    LeadershipStatus)
    ensures
        next == status_after(status, from, to),
{
    if from != to {
        if to == ConsensusRole::Leader {
            return LeadershipStatus::IsLeader;
        } else if from == ConsensusRole::Leader {
            return LeadershipStatus::IsFollower;
        }
    }
    status
}

pub fn transition_event(from: ConsensusRole, to: ConsensusRole) -> (event: Option<LeadershipEvent>)
    ensures
        event == event_for(from, to),
{
    if from != to {
        if to == ConsensusRole::Leader {
            return Some(LeadershipEvent::BecameLeader);
        } else if from == ConsensusRole::Leader {
            return Some(LeadershipEvent::LostLeadership);
        }
    }
    None
}

/// Holds the current belief. The consensus engine's notifications are its only writer.
pub struct LeadershipTracker {
    status: LeadershipStatus,
}

impl View for LeadershipTracker {
    type V = LeadershipStatus;

    closed spec fn view(&self) -> LeadershipStatus {
        self.status
    }
}

impl LeadershipTracker {
    /// A tracker that has not heard from the engine yet.
    pub fn new() -> (tracker: LeadershipTracker)
        ensures
            tracker@ == LeadershipStatus::Unknown,
    {
        LeadershipTracker { status: LeadershipStatus::Unknown }
    }

    /// Takes in the engine's report that the local role went from `from` to `to`, and
    /// hands back the event to log, if the report crossed the leader boundary.
    pub fn on_state_change(&mut self, from: ConsensusRole, to: ConsensusRole) -> (event: Option<
        LeadershipEvent,
    >)
        ensures
            final(self)@ == status_after(old(self)@, from, to),
            event == event_for(from, to),
            from == to ==> final(self)@ == old(self)@,
            belief_step(old(self)@, final(self)@),
    {
        self.status = next_status(self.status, from, to);
        transition_event(from, to)
    }

    /// The belief as of the latest report.
    pub fn current_status(&self) -> (status: LeadershipStatus)
        ensures
            status == self@,
    {
        self.status
    }
}

/// A report that names the same role twice never changes the belief.
pub proof fn lemma_same_role_keeps_status(status: LeadershipStatus, role: ConsensusRole)
    ensures
        status_after(status, role, role) == status,
        event_for(role, role) == None::<LeadershipEvent>,
{
}

/// Delivering one report twice in a row leaves the belief where the first delivery put it.
pub proof fn lemma_repeated_report_is_idempotent(
    status: LeadershipStatus,
    from: ConsensusRole,
    to: ConsensusRole,
)
    ensures
        status_after(status_after(status, from, to), from, to) == status_after(status, from, to),
{
}

/// A change between two roles of which neither is the leader role leaves the belief as it was.
pub proof fn lemma_non_leader_change_keeps_status(
    status: LeadershipStatus,
    from: ConsensusRole,
    to: ConsensusRole,
)
    requires
        from != ConsensusRole::Leader,
        to != ConsensusRole::Leader,
    ensures
        status_after(status, from, to) == status,
{
}

/// Every report moves the belief by a permitted step: it is never reset to `Unknown`.
pub proof fn lemma_report_is_belief_step(
    status: LeadershipStatus,
    from: ConsensusRole,
    to: ConsensusRole,
)
    ensures
        belief_step(status, status_after(status, from, to)),
        status_after(status, from, to) == LeadershipStatus::Unknown ==> status
            == LeadershipStatus::Unknown,
{
}

/// Once the belief is known, no series of reports makes it `Unknown` again.
pub proof fn lemma_known_stays_known(
    status: LeadershipStatus,
    reports: Seq<(ConsensusRole, ConsensusRole)>,
)
    requires
        status != LeadershipStatus::Unknown,
    ensures
        status_after_all(status, reports) != LeadershipStatus::Unknown,
    decreases reports.len(),
{
    if reports.len() > 0 {
        lemma_known_stays_known(status, reports.drop_last());
    }
}

/// The belief after a series of reports is decided by the last report that crossed the
/// leader boundary, whatever was believed before: a node that has just taken the leader
/// role believes `IsLeader`, one that has just given it up believes `IsFollower`.
pub proof fn lemma_last_crossing_decides(
    status: LeadershipStatus,
    reports: Seq<(ConsensusRole, ConsensusRole)>,
)
    requires
        reports.len() > 0,
    ensures
        gains_leadership(reports.last().0, reports.last().1) ==> status_after_all(status, reports)
            == LeadershipStatus::IsLeader,
        loses_leadership(reports.last().0, reports.last().1) ==> status_after_all(status, reports)
            == LeadershipStatus::IsFollower,
{
}

} // verus!
