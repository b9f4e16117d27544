use rafter::{ConfigError, Error, PeerTable, LeadershipStatus};

#[test]
fn io_error_becomes_io_variant() {
    let e = Error::from(std::io::Error::new(std::io::ErrorKind::ConnectionRefused, "refused"));
    match e {
        Error::Io(inner) => assert_eq!(inner.kind(), std::io::ErrorKind::ConnectionRefused),
        other => panic!("unexpected {:?}", other),
    }
}

#[test]
fn closed_duplicate_reads_the_peer() {
    assert_eq!(Error::DuplicateConnection(7).closed_duplicate(), Some(7));
    assert_eq!(Error::ClientHandshake.closed_duplicate(), None);
    assert_eq!(Error::ServerHandshake.closed_duplicate(), None);
    assert_eq!(Error::SendConnection.closed_duplicate(), None);
    assert_eq!(Error::Other(None).closed_duplicate(), None);
    assert_eq!(Error::Other(Some("x".to_string())).closed_duplicate(), None);
    let io = Error::from(std::io::Error::new(std::io::ErrorKind::Other, "x"));
    assert_eq!(io.closed_duplicate(), None);
}

#[test]
fn missing_local_peer_is_a_config_error() {
    let table = PeerTable::new();
    match rafter::plan(&table, LeadershipStatus::Unknown, 4) {
        Err(e) => assert_eq!(e, ConfigError::LocalPeerMissing(4)),
        Ok(_) => panic!("a node outside the table must not get a plan"),
    }
}
