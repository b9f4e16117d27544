//! Connection-direction arbitration for a mesh of consensus peers.
//!
//! For every pair of cluster members exactly one side opens the transport link. Which
//! side that is follows from what the local node believes about leadership and, while
//! nothing is known, from the order of the two identifiers.

pub mod arbiter;
pub mod bootstrap;
pub mod config;
pub mod error;
pub mod leadership;
pub mod links;
pub mod peer;

pub use crate::arbiter::{decide, tie_break, ConnectionAttempt};
pub use crate::bootstrap::{link_action, plan, BootstrapPlan, LinkAction, PlannedLink};
pub use crate::config::{Config, NodeConfig};
pub use crate::error::{ConfigError, Error};
pub use crate::leadership::{ConsensusRole, LeadershipEvent, LeadershipStatus, LeadershipTracker};
pub use crate::links::{resolve_duplicate, LinkOrigin, LinkTable, Loser, Resolution};
pub use crate::peer::{HostAddr, ListenAddr, PeerId, PeerTable};
