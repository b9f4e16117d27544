use rafter::{resolve_duplicate, Error, LeadershipStatus, LinkOrigin, LinkTable, Loser, Resolution};

#[test]
fn first_link_is_held() {
    let mut links = LinkTable::new(1);
    assert_eq!(links.local_id(), 1);
    assert_eq!(links.len(), 0);
    assert_eq!(links.held(2), None);
    assert_eq!(links.register(LeadershipStatus::Unknown, 2, LinkOrigin::Outbound), None);
    assert_eq!(links.held(2), Some(LinkOrigin::Outbound));
    assert_eq!(links.len(), 1);
}

#[test]
fn crossed_links_between_unknown_nodes_one_and_two() {
    // Both nodes open a link at the same moment; each then sees the other's link come in.
    let mut node1 = LinkTable::new(1);
    let mut node2 = LinkTable::new(2);
    assert_eq!(node1.register(LeadershipStatus::Unknown, 2, LinkOrigin::Outbound), None);
    assert_eq!(node2.register(LeadershipStatus::Unknown, 1, LinkOrigin::Outbound), None);

    let at1 = node1.register(LeadershipStatus::Unknown, 2, LinkOrigin::Inbound);
    let at1 = match at1 {
        Some(resolution) => resolution,
        None => panic!("node 1 must find the duplicate"),
    };
    assert_eq!(
        at1,
        Resolution {
            loser: Loser::Held,
            kept: LinkOrigin::Inbound,
            closed: LinkOrigin::Outbound,
            closed_opener: 1,
        }
    );
    assert!(matches!(at1.error(), Error::DuplicateConnection(1)));
    assert_eq!(node1.len(), 1);
    assert_eq!(node1.held(2), Some(LinkOrigin::Inbound));

    let at2 = node2.register(LeadershipStatus::Unknown, 1, LinkOrigin::Inbound);
    let at2 = match at2 {
        Some(resolution) => resolution,
        None => panic!("node 2 must find the duplicate"),
    };
    assert_eq!(
        at2,
        Resolution {
            loser: Loser::Incoming,
            kept: LinkOrigin::Outbound,
            closed: LinkOrigin::Inbound,
            closed_opener: 1,
        }
    );
    assert!(matches!(at2.error(), Error::DuplicateConnection(1)));
    assert_eq!(node2.len(), 1);
    assert_eq!(node2.held(1), Some(LinkOrigin::Outbound));
}

#[test]
fn crossed_links_in_the_other_order_end_alike() {
    let mut node1 = LinkTable::new(1);
    assert_eq!(node1.register(LeadershipStatus::Unknown, 2, LinkOrigin::Inbound), None);
    let at1 = node1.register(LeadershipStatus::Unknown, 2, LinkOrigin::Outbound);
    assert_eq!(
        at1,
        Some(Resolution {
            loser: Loser::Incoming,
            kept: LinkOrigin::Inbound,
            closed: LinkOrigin::Outbound,
            closed_opener: 1,
        })
    );
    assert_eq!(node1.held(2), Some(LinkOrigin::Inbound));
    assert_eq!(node1.len(), 1);
}

#[test]
fn leader_keeps_its_own_link() {
    let r = resolve_duplicate(LeadershipStatus::IsLeader, 1, 9, LinkOrigin::Inbound, LinkOrigin::Outbound);
    assert_eq!(r.loser, Loser::Held);
    assert_eq!(r.kept, LinkOrigin::Outbound);
    assert_eq!(r.closed, LinkOrigin::Inbound);
    assert_eq!(r.closed_opener, 9);
}

#[test]
fn follower_keeps_the_peers_link() {
    let r = resolve_duplicate(LeadershipStatus::IsFollower, 9, 1, LinkOrigin::Inbound, LinkOrigin::Outbound);
    assert_eq!(r.loser, Loser::Incoming);
    assert_eq!(r.kept, LinkOrigin::Inbound);
    assert_eq!(r.closed, LinkOrigin::Outbound);
    assert_eq!(r.closed_opener, 9);
}

#[test]
fn held_link_has_priority_over_one_of_the_same_origin() {
    for status in [LeadershipStatus::Unknown, LeadershipStatus::IsLeader, LeadershipStatus::IsFollower] {
        for origin in [LinkOrigin::Outbound, LinkOrigin::Inbound] {
            let r = resolve_duplicate(status, 1, 2, origin, origin);
            assert_eq!(r.loser, Loser::Incoming);
            assert_eq!(r.kept, origin);
            assert_eq!(r.closed, origin);
            assert_eq!(r.closed_opener, origin.opened_by(1, 2));
        }
    }
}

#[test]
fn both_ends_keep_the_same_link() {
    let origins = [LinkOrigin::Outbound, LinkOrigin::Inbound];
    for (a, b) in [(1u64, 2u64), (2, 1), (7, 300), (u64::MAX, 0)] {
        for held_a in origins {
            for held_b in origins {
                let incoming_a = if held_a == LinkOrigin::Outbound { LinkOrigin::Inbound } else { LinkOrigin::Outbound };
                let incoming_b = if held_b == LinkOrigin::Outbound { LinkOrigin::Inbound } else { LinkOrigin::Outbound };
                let at_a = resolve_duplicate(LeadershipStatus::Unknown, a, b, held_a, incoming_a);
                let at_b = resolve_duplicate(LeadershipStatus::Unknown, b, a, held_b, incoming_b);
                let larger = if a > b { a } else { b };
                let smaller = if a > b { b } else { a };
                assert_eq!(at_a.kept.opened_by(a, b), larger);
                assert_eq!(at_b.kept.opened_by(b, a), larger);
                assert_eq!(at_a.closed_opener, smaller);
                assert_eq!(at_b.closed_opener, smaller);
            }
        }
    }
}

#[test]
fn opened_by_names_the_opening_end() {
    assert_eq!(LinkOrigin::Outbound.opened_by(4, 5), 4);
    assert_eq!(LinkOrigin::Inbound.opened_by(4, 5), 5);
}

#[test]
fn release_forgets_only_the_named_link() {
    let mut links = LinkTable::new(1);
    links.register(LeadershipStatus::Unknown, 2, LinkOrigin::Inbound);
    links.register(LeadershipStatus::Unknown, 3, LinkOrigin::Outbound);
    assert!(!links.release(2, LinkOrigin::Outbound));
    assert_eq!(links.held(2), Some(LinkOrigin::Inbound));
    assert!(!links.release(4, LinkOrigin::Inbound));
    assert_eq!(links.len(), 2);
    assert!(links.release(2, LinkOrigin::Inbound));
    assert_eq!(links.held(2), None);
    assert_eq!(links.held(3), Some(LinkOrigin::Outbound));
    assert_eq!(links.len(), 1);
    assert_eq!(links.register(LeadershipStatus::Unknown, 2, LinkOrigin::Outbound), None);
}

#[test]
fn links_to_different_peers_do_not_collide() {
    let mut links = LinkTable::new(5);
    assert_eq!(links.register(LeadershipStatus::IsLeader, 1, LinkOrigin::Outbound), None);
    assert_eq!(links.register(LeadershipStatus::IsLeader, 2, LinkOrigin::Outbound), None);
    assert_eq!(links.register(LeadershipStatus::IsLeader, 3, LinkOrigin::Inbound), None);
    assert_eq!(links.len(), 3);
}
