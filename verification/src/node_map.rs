//! Nodes with their addresses, in ascending order of the nodes.

use crate::node::lemma_order_is_asymmetric;
use crate::node::NodeAddress;
use crate::node::NodeId;
use crate::node_set::ascending;
use crate::node_set::NodeSet;
use vstd::prelude::*;

verus! {

/// The map that takes `nodes[i]` to `addresses[i]`.
pub open spec fn paired(nodes: Seq<NodeId>, addresses: Seq<NodeAddress>) -> Map<NodeId, NodeAddress> {
    Map::new(|node: NodeId| nodes.contains(node), |node: NodeId| addresses[nodes.index_of(node)])
}

/// A set of nodes, each with its address.
#[derive(Debug, PartialEq, Eq)]
pub struct NodeMap {
    keys: NodeSet,
    addresses: Vec<NodeAddress>,
}

impl View for NodeMap {
    type V = Map<NodeId, NodeAddress>;

    closed spec fn view(&self) -> Map<NodeId, NodeAddress> {
        paired(self.keys.ordered(), self.addresses@)
    }
}

impl NodeMap {
    #[verifier::type_invariant]
    spec fn well_formed(self) -> bool {
        self.keys.ordered().len() == self.addresses@.len()
    }

    /// The map without nodes.
    pub fn new() -> (map: NodeMap)
        ensures
            map@ == Map::<NodeId, NodeAddress>::empty(),
    {
        let map = NodeMap { keys: NodeSet::new(), addresses: Vec::new() };
        assert(map@ =~= Map::<NodeId, NodeAddress>::empty());
        map
    }

    /// The nodes.
    pub fn keys(&self) -> (keys: &NodeSet)
        ensures
            keys@ == self@.dom(),
            self@.dom().finite(),
    {
        let nodes = self.keys.nodes();
        assert(self.keys@ =~= self@.dom());
        &self.keys
    }

    /// Tells whether `node` is in the map.
    pub fn contains_key(&self, node: &NodeId) -> (found: bool)
        ensures
            found == self@.contains_key(*node),
    {
        self.keys().contains(node)
    }

    /// The address of `node`.
    pub fn get(&self, node: &NodeId) -> (address: Option<NodeAddress>)
        ensures
            address == (if self@.contains_key(*node) {
                Some(self@[*node])
            } else {
                None
            }),
    {
        let found = self.keys.place_of(node);
        if found.1 {
            proof {
                use_type_invariant(self);
                lemma_index_of(self.keys.ordered(), found.0 as int);
            }
            Some(self.addresses[found.0])
        } else {
            None
        }
    }

    /// Gives `node` the address `address`, in place of the one that it may have had, which is
    /// returned.
    pub fn insert(&mut self, node: NodeId, address: NodeAddress) -> (replaced: Option<NodeAddress>)
        ensures
            final(self)@ == old(self)@.insert(node, address),
            replaced == (if old(self)@.contains_key(node) {
                Some(old(self)@[node])
            } else {
                None
            }),
    {
        let replaced = self.get(&node);
        let found = self.keys.place_of(&node);
        let mut taken = NodeMap::new();
        std::mem::swap(self, &mut taken);
        proof {
            use_type_invariant(&taken);
        }
        let NodeMap { mut keys, mut addresses } = taken;
        let ghost nodes_before = keys.ordered();
        let ghost addresses_before = addresses@;
        let at = found.0;
        if found.1 {
            addresses.set(at, address);
            proof {
                lemma_replace(nodes_before, addresses_before, at as int, address);
            }
        } else {
            keys.insert_at(at, node);
            addresses.insert(at, address);
            proof {
                lemma_insert(nodes_before, addresses_before, at as int, node, address);
            }
        }
        *self = NodeMap { keys, addresses };
        replaced
    }
}

impl Clone for NodeMap {
    fn clone(&self) -> (copy: NodeMap)
        ensures
            copy@ == self@,
    {
        proof {
            use_type_invariant(self);
        }
        let keys = self.keys.clone();
        let addresses = self.addresses.clone();
        assert(addresses@ =~= self.addresses@);
        NodeMap { keys, addresses }
    }
}

impl Default for NodeMap {
    /// The default map has no nodes.
    fn default() -> (map: NodeMap)
        ensures
            map@ == Map::<NodeId, NodeAddress>::empty(),
    {
        NodeMap::new()
    }
}

/// In a sequence in ascending order a node has one place only.
proof fn lemma_index_of(nodes: Seq<NodeId>, at: int)
    requires
        ascending(nodes),
        0 <= at < nodes.len(),
    ensures
        nodes.index_of(nodes[at]) == at,
{
    let k = nodes.index_of(nodes[at]);
    assert(0 <= k < nodes.len() && nodes[k] == nodes[at]);
    if k < at {
        lemma_order_is_asymmetric(nodes[k], nodes[at]);
    } else if at < k {
        lemma_order_is_asymmetric(nodes[at], nodes[k]);
    }
}

/// Setting the address at a node's place sets the address of that node alone.
proof fn lemma_replace(nodes: Seq<NodeId>, addresses: Seq<NodeAddress>, at: int, address: NodeAddress)
    requires
        ascending(nodes),
        nodes.len() == addresses.len(),
        0 <= at < nodes.len(),
    ensures
        paired(nodes, addresses.update(at, address)) == paired(nodes, addresses).insert(
            nodes[at],
            address,
        ),
{
    let after = paired(nodes, addresses.update(at, address));
    lemma_index_of(nodes, at);
    assert forall|node: NodeId| nodes.contains(node) && node != nodes[at] implies after[node]
        == paired(nodes, addresses)[node] by {
        let k = nodes.index_of(node);
        assert(nodes[k] == node);
    }
    assert(after =~= paired(nodes, addresses).insert(nodes[at], address));
}

/// Inserting a node and its address at one place adds that pair alone.
proof fn lemma_insert(
    nodes: Seq<NodeId>,
    addresses: Seq<NodeAddress>,
    at: int,
    node: NodeId,
    address: NodeAddress,
)
    requires
        ascending(nodes),
        ascending(nodes.insert(at, node)),
        nodes.len() == addresses.len(),
        0 <= at <= nodes.len(),
        !nodes.contains(node),
    ensures
        paired(nodes.insert(at, node), addresses.insert(at, address)) == paired(
            nodes,
            addresses,
        ).insert(node, address),
{
    let nodes_after = nodes.insert(at, node);
    let addresses_after = addresses.insert(at, address);
    let before = paired(nodes, addresses);
    let after = paired(nodes_after, addresses_after);
    lemma_index_of(nodes_after, at);
    assert(nodes_after[at] == node);
    assert forall|n: NodeId| nodes.contains(n) implies nodes_after.contains(n) && after[n]
        == before[n] by {
        let k = nodes.index_of(n);
        let k_after = if k < at {
            k
        } else {
            k + 1
        };
        assert(nodes[k] == n);
        assert(nodes_after[k_after] == n);
        lemma_index_of(nodes_after, k_after);
    }
    assert forall|n: NodeId| nodes_after.contains(n) && n != node implies nodes.contains(n) by {
        let k = nodes_after.index_of(n);
        assert(nodes_after[k] == n);
        let k_before = if k < at {
            k
        } else {
            k - 1
        };
        assert(nodes[k_before] == n);
    }
    assert(after =~= before.insert(node, address));
}

} // verus!
