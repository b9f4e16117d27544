use rafter::leadership::{next_status, transition_event};
use rafter::{ConsensusRole, LeadershipEvent, LeadershipStatus, LeadershipTracker};

const ROLES: [ConsensusRole; 3] =
    [ConsensusRole::Follower, ConsensusRole::Candidate, ConsensusRole::Leader];
const STATUSES: [LeadershipStatus; 3] =
    [LeadershipStatus::Unknown, LeadershipStatus::IsLeader, LeadershipStatus::IsFollower];

#[test]
fn new_tracker_knows_nothing() {
    let tracker = LeadershipTracker::new();
    assert_eq!(tracker.current_status(), LeadershipStatus::Unknown);
}

#[test]
fn becoming_leader_sets_is_leader() {
    let mut tracker = LeadershipTracker::new();
    let event = tracker.on_state_change(ConsensusRole::Candidate, ConsensusRole::Leader);
    assert_eq!(event, Some(LeadershipEvent::BecameLeader));
    assert_eq!(tracker.current_status(), LeadershipStatus::IsLeader);
}

#[test]
fn leaving_leader_sets_is_follower() {
    let mut tracker = LeadershipTracker::new();
    tracker.on_state_change(ConsensusRole::Follower, ConsensusRole::Leader);
    let event = tracker.on_state_change(ConsensusRole::Leader, ConsensusRole::Candidate);
    assert_eq!(event, Some(LeadershipEvent::LostLeadership));
    assert_eq!(tracker.current_status(), LeadershipStatus::IsFollower);
}

#[test]
fn losing_leadership_is_seen_even_from_unknown() {
    let mut tracker = LeadershipTracker::new();
    let event = tracker.on_state_change(ConsensusRole::Leader, ConsensusRole::Follower);
    assert_eq!(event, Some(LeadershipEvent::LostLeadership));
    assert_eq!(tracker.current_status(), LeadershipStatus::IsFollower);
}

#[test]
fn change_between_non_leader_roles_is_ignored() {
    let mut tracker = LeadershipTracker::new();
    assert_eq!(tracker.on_state_change(ConsensusRole::Follower, ConsensusRole::Candidate), None);
    assert_eq!(tracker.current_status(), LeadershipStatus::Unknown);
    assert_eq!(tracker.on_state_change(ConsensusRole::Candidate, ConsensusRole::Follower), None);
    assert_eq!(tracker.current_status(), LeadershipStatus::Unknown);

    tracker.on_state_change(ConsensusRole::Candidate, ConsensusRole::Leader);
    tracker.on_state_change(ConsensusRole::Leader, ConsensusRole::Follower);
    assert_eq!(tracker.on_state_change(ConsensusRole::Follower, ConsensusRole::Candidate), None);
    assert_eq!(tracker.current_status(), LeadershipStatus::IsFollower);
}

#[test]
fn report_of_same_role_never_changes_status() {
    for status in STATUSES {
        for role in ROLES {
            assert_eq!(next_status(status, role, role), status);
            assert_eq!(transition_event(role, role), None);
        }
    }
    let mut tracker = LeadershipTracker::new();
    tracker.on_state_change(ConsensusRole::Leader, ConsensusRole::Leader);
    tracker.on_state_change(ConsensusRole::Leader, ConsensusRole::Leader);
    assert_eq!(tracker.current_status(), LeadershipStatus::Unknown);
}

#[test]
fn repeated_report_is_idempotent() {
    for status in STATUSES {
        for from in ROLES {
            for to in ROLES {
                let once = next_status(status, from, to);
                assert_eq!(next_status(once, from, to), once);
            }
        }
    }
}

#[test]
fn status_is_never_reset_to_unknown() {
    for status in STATUSES {
        for from in ROLES {
            for to in ROLES {
                let next = next_status(status, from, to);
                if status != LeadershipStatus::Unknown {
                    assert_ne!(next, LeadershipStatus::Unknown);
                }
            }
        }
    }
}

#[test]
fn leader_follower_leader_ends_at_leader() {
    let mut tracker = LeadershipTracker::new();
    assert_eq!(tracker.current_status(), LeadershipStatus::Unknown);
    tracker.on_state_change(ConsensusRole::Candidate, ConsensusRole::Leader);
    assert_eq!(tracker.current_status(), LeadershipStatus::IsLeader);
    tracker.on_state_change(ConsensusRole::Leader, ConsensusRole::Follower);
    assert_eq!(tracker.current_status(), LeadershipStatus::IsFollower);
    tracker.on_state_change(ConsensusRole::Follower, ConsensusRole::Candidate);
    assert_eq!(tracker.current_status(), LeadershipStatus::IsFollower);
    tracker.on_state_change(ConsensusRole::Candidate, ConsensusRole::Leader);
    assert_eq!(tracker.current_status(), LeadershipStatus::IsLeader);
}

#[test]
fn next_status_table() {
    let (follower, candidate, leader) =
        (ConsensusRole::Follower, ConsensusRole::Candidate, ConsensusRole::Leader);
    let (unknown, is_leader, is_follower) =
        (LeadershipStatus::Unknown, LeadershipStatus::IsLeader, LeadershipStatus::IsFollower);
    assert_eq!(next_status(unknown, follower, leader), is_leader);
    assert_eq!(next_status(is_follower, candidate, leader), is_leader);
    assert_eq!(next_status(is_leader, leader, follower), is_follower);
    assert_eq!(next_status(is_leader, leader, candidate), is_follower);
    assert_eq!(next_status(is_leader, follower, candidate), is_leader);
    assert_eq!(next_status(unknown, candidate, follower), unknown);
}

#[test]
fn transition_event_table() {
    let (follower, candidate, leader) =
        (ConsensusRole::Follower, ConsensusRole::Candidate, ConsensusRole::Leader);
    assert_eq!(transition_event(follower, leader), Some(LeadershipEvent::BecameLeader));
    assert_eq!(transition_event(candidate, leader), Some(LeadershipEvent::BecameLeader));
    assert_eq!(transition_event(leader, follower), Some(LeadershipEvent::LostLeadership));
    assert_eq!(transition_event(leader, candidate), Some(LeadershipEvent::LostLeadership));
    assert_eq!(transition_event(follower, candidate), None);
    assert_eq!(transition_event(leader, leader), None);
}
