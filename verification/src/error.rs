//! The failures that a link between two peers can end in.

use crate::peer::PeerId;
use raft_consensus::error::Error as ConsensusError;
use rmp_serde::decode::Error as DecodeError;
use rmp_serde::encode::Error as EncodeError;
use vstd::prelude::*;

verus! {

/// `std::io::Error`, carried through as it came from the operating system.
#[verifier::external_type_specification]
#[verifier::external_body]
pub struct ExIoError(std::io::Error);

/// `raft_consensus::error::Error`, the consensus engine's own error, carried through unread.
#[verifier::external_type_specification]
#[verifier::external_body]
pub struct ExConsensusError(ConsensusError);

/// `rmp_serde::decode::Error`, raised while a message is read from the wire, carried
/// through unread.
#[verifier::external_type_specification]
#[verifier::external_body]
pub struct ExDecodeError(DecodeError);

/// `rmp_serde::encode::Error`, raised while a message is written to the wire, carried
/// through unread.
#[verifier::external_type_specification]
#[verifier::external_body]
pub struct ExEncodeError(EncodeError);

/// Why a link was given up. Each value concerns one link only: the process, the belief
/// about leadership and the peer table are untouched by it.
#[derive(Debug)]
pub enum Error {
    /// The consensus engine refused what the link delivered.
    Consensus(ConsensusError),
    /// The transport failed.
    Io(std::io::Error),
    /// A message from the peer could not be decoded.
    Decoding(DecodeError),
    /// A message to the peer could not be encoded.
    Encoding(EncodeError),
    /// The handshake failed on the side that opened the link.
    ClientHandshake,
    /// The handshake failed on the side that accepted the link.
    ServerHandshake,
    /// The link could not be handed to its protocol handler.
    SendConnection,
    /// A second link to the same peer was found and the one of lower priority was
    /// closed. The value names the peer that had opened the closed link.
    DuplicateConnection(PeerId),
    /// A failure reported by a collaborator, with its message if it gave one.
    Other(Option<String>),
}

/// Why the node cannot take part in the cluster as configured. Such an error is found
/// before the first link is tried, and the process must not start on it.
#[derive(Clone, Copy, Debug, PartialEq, Eq, Structural, Hash)]
pub enum ConfigError {
    /// The name given to pick the local node is not among the configured nodes.
    UnknownNode,
    /// The local identifier has no entry in the peer table.
    LocalPeerMissing(PeerId),
}

impl Error {
    /// The peer named by a `DuplicateConnection`.
    pub open spec fn duplicate_of(&self) -> Option<PeerId> {
        match self {
            Error::DuplicateConnection(peer) => Some(*peer),
            _ => None,
        }
    }

    /// The peer whose link was closed as a duplicate, if that is what the error reports.
    pub fn closed_duplicate(&self) -> (peer: Option<PeerId>)
        ensures
            peer == self.duplicate_of(),
    {
        match self {
            Error::DuplicateConnection(peer) => Some(*peer),
            _ => None,
        }
    }
}

impl From<std::io::Error> for Error {
    fn from(e: std::io::Error) -> (err: Error) {
        Error::Io(e)
    }
}

impl vstd::std_specs::convert::FromSpecImpl<std::io::Error> for Error {
    open spec fn obeys_from_spec() -> bool {
        true
    }

    open spec fn from_spec(e: std::io::Error) -> Error {
        Error::Io(e)
    }
}

} // verus!
