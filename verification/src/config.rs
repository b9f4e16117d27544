//! The cluster as the configuration names it: each node under a symbolic name, with its
//! identifier and the address it listens at.

use crate::bootstrap::{is_plan_for, plan, BootstrapPlan};
use crate::error::ConfigError;
use crate::leadership::LeadershipStatus;
use crate::peer::{ListenAddr, PeerId, PeerTable};
use vstd::prelude::*;

verus! {

/// One node of the cluster.
#[derive(Clone, Copy, Debug, PartialEq, Eq, Structural, Hash)]
pub struct NodeConfig {
    /// The address that the node listens at.
    pub listen: ListenAddr,
    /// The node's identifier.
    pub id: PeerId,
}

impl Default for NodeConfig {
    /// A node with identifier 0 that listens on any interface and any port.
    fn default() -> (node: NodeConfig)
        ensures
            node == (NodeConfig { listen: ListenAddr::unspecified(), id: 0 }),
    {
        NodeConfig { listen: ListenAddr::any(), id: 0 }
    }
}

/// A node together with the name that the configuration gives it.
struct NamedNode {
    name: String,
    node: NodeConfig,
}

impl View for NamedNode {
    type V = (Seq<char>, NodeConfig);

    closed spec fn view(&self) -> (Seq<char>, NodeConfig) {
        (self.name@, self.node)
    }
}

/// Whether no name occurs twice among `nodes`.
pub open spec fn names_distinct(nodes: Seq<(Seq<char>, NodeConfig)>) -> bool {
    forall|i: int, j: int|
        0 <= i < j < nodes.len() ==> (#[trigger] nodes[i]).0 != (#[trigger] nodes[j]).0
}

/// Whether `nodes` holds a node under `name`.
pub open spec fn has_node(nodes: Seq<(Seq<char>, NodeConfig)>, name: Seq<char>) -> bool {
    exists|i: int| 0 <= i < nodes.len() && (#[trigger] nodes[i]).0 == name
}

/// Whether `nodes` holds `node` under `name`.
pub open spec fn is_node(
    nodes: Seq<(Seq<char>, NodeConfig)>,
    name: Seq<char>,
    node: NodeConfig,
) -> bool {
    exists|i: int| 0 <= i < nodes.len() && #[trigger] nodes[i] == (name, node)
}

/// The peer table that `nodes` give, taken first to last: where two nodes share an
/// identifier, the address of the later one stands.
pub open spec fn peer_map(nodes: Seq<(Seq<char>, NodeConfig)>) -> Map<PeerId, ListenAddr>
    decreases nodes.len(),
{
    if nodes.len() == 0 {
        Map::empty()
    } else {
        peer_map(nodes.drop_last()).insert(nodes.last().1.id, nodes.last().1.listen)
    }
}

/// The configuration of the process: how much to log, and the nodes of the cluster by name.
pub struct Config {
    verbosity: String,
    node: Vec<NamedNode>,
}

impl Config {
    /// What every configuration made by this module satisfies: no two nodes share a name.
    pub open spec fn well_formed(&self) -> bool {
        names_distinct(self.nodes())
    }

    /// The logging level, as text.
    pub closed spec fn verbosity_text(&self) -> Seq<char> {
        self.verbosity@
    }

    /// The nodes in the order in which they were first named, each with its name.
    pub closed spec fn nodes(&self) -> Seq<(Seq<char>, NodeConfig)> {
        self.node@.map_values(|named: NamedNode| named@)
    }

    /// The logging level, as text.
    pub fn verbosity(&self) -> (level: &String)
        ensures
            level@ == self.verbosity_text(),
    {
        &self.verbosity
    }

    pub fn set_verbosity(&mut self, level: String)
        ensures
            final(self).verbosity_text() == level@,
            final(self).nodes() == old(self).nodes(),
    {
        self.verbosity = level;
    }

    /// The number of nodes.
    pub fn node_count(&self) -> (n: usize)
        ensures
            n == self.nodes().len(),
    {
        self.node.len()
    }

    /// Puts `node` under `name`. A node that stood under that name before is replaced,
    /// in its place, and handed back; a new name goes to the end.
    pub fn set_node(&mut self, name: String, node: NodeConfig) -> (previous: Option<NodeConfig>)
        ensures
            old(self).well_formed() ==> final(self).well_formed(),
            final(self).verbosity_text() == old(self).verbosity_text(),
            is_node(final(self).nodes(), name@, node),
            match previous {
                Some(replaced) => exists|i: int|
                    0 <= i < old(self).nodes().len() && #[trigger] old(self).nodes()[i] == (
                        name@,
                        replaced,
                    ) && final(self).nodes() == old(self).nodes().update(i, (name@, node)),
                None => !has_node(old(self).nodes(), name@) && final(self).nodes() == old(
                    self,
                ).nodes().push((name@, node)),
            },
    {
        let ghost before = self.nodes();
        let mut i: usize = 0;
        while i < self.node.len()
            invariant
                i <= self.node.len(),
                self.nodes() == before,
                before == old(self).nodes(),
                self.verbosity_text() == old(self).verbosity_text(),
                forall|k: int| 0 <= k < i ==> (#[trigger] before[k]).0 != name@,
            decreases self.node.len() - i,
        {
            if self.node[i].name == name {
                let replaced = self.node[i].node;
                assert(before[i as int] == (name@, replaced));
                let ghost after = before.update(i as int, (name@, node));
                proof {
                    if names_distinct(before) {
                        assert forall|a: int, b: int| 0 <= a < b < after.len() implies (
                        #[trigger] after[a]).0 != (#[trigger] after[b]).0 by {
                            assert(after[a].0 == before[a].0);
                            assert(after[b].0 == before[b].0);
                        }
                    }
                }
                self.node.set(i, NamedNode { name, node });
                assert(self.nodes() =~= after);
                assert(self.nodes()[i as int] == (name@, node));
                return Some(replaced);
            }
            i = i + 1;
        }
        let ghost after = before.push((name@, node));
        proof {
            if names_distinct(before) {
                assert forall|a: int, b: int| 0 <= a < b < after.len() implies (
                #[trigger] after[a]).0 != (#[trigger] after[b]).0 by {
                    assert(after[a] == before[a]);
                    if b < before.len() {
                        assert(after[b] == before[b]);
                    }
                }
            }
        }
        self.node.push(NamedNode { name, node });
        assert(self.nodes() =~= after);
        assert(self.nodes()[before.len() as int] == (name@, node));
        None
    }

    /// The node that the configuration names `name`: the local node, when `name` is the
    /// name that the process was started under. A name that the configuration does not
    /// hold is an error.
    pub fn local_node(&self, name: &String) -> (outcome: Result<NodeConfig, ConfigError>)
        ensures
            outcome is Ok <==> has_node(self.nodes(), name@),
            outcome matches Ok(node) ==> is_node(self.nodes(), name@, node),
            outcome matches Err(e) ==> e == ConfigError::UnknownNode,
    {
        let mut i: usize = 0;
        while i < self.node.len()
            invariant
                i <= self.node.len(),
                forall|k: int| 0 <= k < i ==> (#[trigger] self.nodes()[k]).0 != name@,
            decreases self.node.len() - i,
        {
            if self.node[i].name == *name {
                assert(self.nodes()[i as int] == (name@, self.node[i as int].node));
                return Ok(self.node[i].node);
            }
            i = i + 1;
        }
        Err(ConfigError::UnknownNode)
    }

    /// The peer table of the cluster: every node's address under the node's identifier.
    pub fn peer_table(&self) -> (table: PeerTable)
        ensures
            table@ == peer_map(self.nodes()),
    {
        let mut table = PeerTable::new();
        let mut i: usize = 0;
        while i < self.node.len()
            invariant
                i <= self.node.len(),
                table@ == peer_map(self.nodes().take(i as int)),
            decreases self.node.len() - i,
        {
            let node = self.node[i].node;
            proof {
                let upto = self.nodes().take(i as int + 1);
                assert(upto.drop_last() == self.nodes().take(i as int));
                assert(upto.last() == self.nodes()[i as int]);
            }
            table.insert(node.id, node.listen);
            i = i + 1;
        }
        proof {
            assert(self.nodes().take(self.nodes().len() as int) == self.nodes());
        }
        table
    }

    /// Plans the links of the node named `name` to every other node of the cluster.
    ///
    /// The one error is a name that the configuration does not hold. It is found before
    /// any link is planned.
    pub fn bootstrap(&self, name: &String, status: LeadershipStatus) -> (outcome: Result<
        BootstrapPlan,
        ConfigError,
    >)
        ensures
            outcome is Ok <==> has_node(self.nodes(), name@),
            outcome matches Err(e) ==> e == ConfigError::UnknownNode,
            outcome matches Ok(plan) ==> {
                &&& exists|node: NodeConfig|
                    #[trigger] is_node(self.nodes(), name@, node) && plan.local == node.id
                &&& peer_map(self.nodes()).contains_key(plan.local)
                &&& plan.listen == peer_map(self.nodes())[plan.local]
                &&& is_plan_for(plan.links@, peer_map(self.nodes()), status, plan.local)
            },
    {
        let node = match self.local_node(name) {
            Ok(node) => node,
            Err(e) => {
                return Err(e);
            },
        };
        let table = self.peer_table();
        proof {
            let i = choose|i: int|
                0 <= i < self.nodes().len() && #[trigger] self.nodes()[i] == (name@, node);
            lemma_peer_map_holds_every_id(self.nodes(), i);
        }
        plan(&table, status, node.id)
    }
}

impl Default for Config {
    /// A configuration that logs at level `trace` and names no node.
    fn default() -> (config: Config)
        ensures
            config.well_formed(),
            config.verbosity_text() == "trace"@,
            config.nodes() == Seq::<(Seq<char>, NodeConfig)>::empty(),
    {
        let config = Config { verbosity: "trace".to_owned(), node: Vec::new() };
        assert(config.nodes() =~= Seq::<(Seq<char>, NodeConfig)>::empty());
        config
    }
}

/// The identifier of every configured node is a member of the peer table.
pub proof fn lemma_peer_map_holds_every_id(nodes: Seq<(Seq<char>, NodeConfig)>, i: int)
    requires
        0 <= i < nodes.len(),
    ensures
        peer_map(nodes).contains_key(nodes[i].1.id),
    decreases nodes.len(),
{
    if i < nodes.len() - 1 {
        lemma_peer_map_holds_every_id(nodes.drop_last(), i);
    }
}

/// The members of the peer table are the identifiers of the configured nodes and no others.
pub proof fn lemma_peer_map_members(nodes: Seq<(Seq<char>, NodeConfig)>, id: PeerId)
    ensures
        peer_map(nodes).contains_key(id) <==> exists|i: int|
            0 <= i < nodes.len() && (#[trigger] nodes[i]).1.id == id,
    decreases nodes.len(),
{
    if nodes.len() > 0 {
        let front = nodes.drop_last();
        lemma_peer_map_members(front, id);
        if exists|i: int| 0 <= i < front.len() && (#[trigger] front[i]).1.id == id {
            let i = choose|i: int| 0 <= i < front.len() && (#[trigger] front[i]).1.id == id;
            assert(nodes[i].1.id == id);
        }
        if exists|i: int| 0 <= i < nodes.len() && (#[trigger] nodes[i]).1.id == id {
            let i = choose|i: int| 0 <= i < nodes.len() && (#[trigger] nodes[i]).1.id == id;
            if i < front.len() {
                assert(front[i].1.id == id);
            } else {
                assert(nodes.last().1.id == id);
            }
        }
    }
}

/// A node whose identifier no later node shares is found in the peer table under its
/// own address.
pub proof fn lemma_peer_map_keeps_last_address(nodes: Seq<(Seq<char>, NodeConfig)>, i: int)
    requires
        0 <= i < nodes.len(),
        forall|j: int| i < j < nodes.len() ==> (#[trigger] nodes[j]).1.id != nodes[i].1.id,
    ensures
        peer_map(nodes).contains_key(nodes[i].1.id),
        peer_map(nodes)[nodes[i].1.id] == nodes[i].1.listen,
    decreases nodes.len(),
{
    if i < nodes.len() - 1 {
        let front = nodes.drop_last();
        assert forall|j: int| i < j < front.len() implies (#[trigger] front[j]).1.id
            != front[i].1.id by {
            assert(nodes[j].1.id != nodes[i].1.id);
        }
        lemma_peer_map_keeps_last_address(front, i);
        assert(nodes[nodes.len() - 1].1.id != nodes[i].1.id);
    }
}

} // verus!
