//! Sets of nodes that hand their members out in ascending order.

use crate::node::lemma_order_is_asymmetric;
use crate::node::lemma_order_is_irreflexive;
use crate::node::lemma_order_is_total;
use crate::node::lemma_order_is_transitive;
use crate::node::NodeId;
use vstd::prelude::*;

verus! {

/// Each node of the sequence comes strictly before all that follow it.
pub open spec fn ascending(nodes: Seq<NodeId>) -> bool {
    forall|i: int, j: int|
        0 <= i < j < nodes.len() ==> (#[trigger] nodes[i]).precedes(#[trigger] nodes[j])
}

/// `node` is the member of `nodes` that comes before all the others.
pub open spec fn is_least(nodes: Set<NodeId>, node: NodeId) -> bool {
    &&& nodes.contains(node)
    &&& forall|other: NodeId| nodes.contains(other) && other != node ==> node.precedes(other)
}

/// A set of nodes.
#[derive(Debug, PartialEq, Eq)]
pub struct NodeSet {
    nodes: Vec<NodeId>,
}

impl View for NodeSet {
    type V = Set<NodeId>;

    closed spec fn view(&self) -> Set<NodeId> {
        self.nodes@.to_set()
    }
}

impl NodeSet {
    #[verifier::type_invariant]
    spec fn well_formed(self) -> bool {
        ascending(self.nodes@)
    }

    /// The members in ascending order.
    pub closed spec fn ordered(self) -> Seq<NodeId> {
        self.nodes@
    }

    /// The place that `node` has, or would take, among the members in ascending order.
    pub open spec fn is_place_of(self, node: NodeId, at: int) -> bool {
        &&& 0 <= at <= self.ordered().len()
        &&& forall|i: int| 0 <= i < at ==> (#[trigger] self.ordered()[i]).precedes(node)
        &&& forall|i: int|
            at <= i < self.ordered().len() ==> (#[trigger] self.ordered()[i]) == node
                || node.precedes(self.ordered()[i])
    }

    /// The set without members.
    pub fn new() -> (set: NodeSet)
        ensures
            set@ == Set::<NodeId>::empty(),
            set.ordered() == Seq::<NodeId>::empty(),
    {
        let set = NodeSet { nodes: Vec::new() };
        assert(set@ =~= Set::<NodeId>::empty());
        set
    }

    /// The members in ascending order.
    pub fn nodes(&self) -> (nodes: &Vec<NodeId>)
        ensures
            nodes@ == self.ordered(),
            nodes@.to_set() == self@,
            ascending(nodes@),
    {
        proof {
            use_type_invariant(self);
        }
        &self.nodes
    }

    /// Finds the place of `node`, and tells whether it is taken by `node` itself.
    pub(crate) fn place_of(&self, node: &NodeId) -> (found: (usize, bool))
        ensures
            self.is_place_of(*node, found.0 as int),
            found.1 == self@.contains(*node),
            found.1 ==> found.0 < self.ordered().len() && self.ordered()[found.0 as int] == *node,
            ascending(self.ordered()),
            self.ordered().to_set() == self@,
    {
        proof {
            use_type_invariant(self);
        }
        let mut at: usize = 0;
        while at < self.nodes.len() && self.nodes[at].is_before(node)
            invariant
                at <= self.nodes@.len(),
                forall|i: int| 0 <= i < at ==> (#[trigger] self.nodes@[i]).precedes(*node),
            decreases self.nodes@.len() - at,
        {
            at = at + 1;
        }
        proof {
            lemma_place(self.nodes@, *node, at as int);
        }
        let taken = at < self.nodes.len() && self.nodes[at] == *node;
        (at, taken)
    }

    /// Tells whether `node` is a member.
    pub fn contains(&self, node: &NodeId) -> (member: bool)
        ensures
            member == self@.contains(*node),
    {
        self.place_of(node).1
    }

    /// Puts `node`, which is no member yet, at its place.
    pub(crate) fn insert_at(&mut self, at: usize, node: NodeId)
        requires
            old(self).is_place_of(node, at as int),
            !old(self)@.contains(node),
        ensures
            final(self)@ == old(self)@.insert(node),
            final(self).ordered() == old(self).ordered().insert(at as int, node),
            ascending(final(self).ordered()),
    {
        let mut nodes: Vec<NodeId> = Vec::new();
        proof {
            use_type_invariant(&*self);
        }
        std::mem::swap(&mut nodes, &mut self.nodes);
        let ghost before = nodes@;
        nodes.insert(at, node);
        proof {
            lemma_insert_keeps_order(before, at as int, node);
        }
        self.nodes = nodes;
    }

    /// Makes `node` a member. Tells whether it was none before.
    pub fn insert(&mut self, node: NodeId) -> (added: bool)
        ensures
            final(self)@ == old(self)@.insert(node),
            added == !old(self)@.contains(node),
    {
        let found = self.place_of(&node);
        if found.1 {
            assert(self@ =~= self@.insert(node));
            false
        } else {
            self.insert_at(found.0, node);
            true
        }
    }

    /// Removes `node`. Tells whether it was a member.
    pub fn remove(&mut self, node: &NodeId) -> (removed: bool)
        ensures
            final(self)@ == old(self)@.remove(*node),
            removed == old(self)@.contains(*node),
    {
        let found = self.place_of(node);
        if found.1 {
            let mut nodes: Vec<NodeId> = Vec::new();
            proof {
                use_type_invariant(&*self);
            }
            std::mem::swap(&mut nodes, &mut self.nodes);
            let ghost before = nodes@;
            nodes.remove(found.0);
            proof {
                lemma_remove_keeps_order(before, found.0 as int);
            }
            self.nodes = nodes;
            true
        } else {
            assert(self@ =~= self@.remove(*node));
            false
        }
    }

    /// Tells whether every member is a member of `other` too.
    pub fn is_subset(&self, other: &NodeSet) -> (subset: bool)
        ensures
            subset == self@.subset_of(other@),
    {
        let mut i: usize = 0;
        while i < self.nodes.len()
            invariant
                i <= self.nodes@.len(),
                forall|j: int| 0 <= j < i ==> other@.contains(#[trigger] self.nodes@[j]),
            decreases self.nodes@.len() - i,
        {
            if !other.contains(&self.nodes[i]) {
                assert(self@.contains(self.nodes@[i as int]));
                return false;
            }
            i = i + 1;
        }
        true
    }

    /// Tells whether both sets have the same members.
    pub fn is_same(&self, other: &NodeSet) -> (same: bool)
        ensures
            same == (self@ == other@),
    {
        let same = self.is_subset(other) && other.is_subset(self);
        assert(same ==> self@ =~= other@);
        same
    }

    /// The member that comes before all the others, if there is any member.
    pub fn first(&self) -> (first: Option<&NodeId>)
        ensures
            match first {
                Some(node) => is_least(self@, *node),
                None => self@ == Set::<NodeId>::empty(),
            },
    {
        if self.nodes.len() == 0 {
            assert(self@ =~= Set::<NodeId>::empty());
            None
        } else {
            proof {
                use_type_invariant(self);
                assert(self@.contains(self.nodes@[0]));
            }
            Some(&self.nodes[0])
        }
    }

    /// The member that comes before all the others that `other` has too.
    pub fn first_common(&self, other: &NodeSet) -> (first: Option<&NodeId>)
        ensures
            match first {
                Some(node) => is_least(self@.intersect(other@), *node),
                None => self@.intersect(other@) == Set::<NodeId>::empty(),
            },
    {
        proof {
            use_type_invariant(self);
        }
        let mut i: usize = 0;
        while i < self.nodes.len()
            invariant
                i <= self.nodes@.len(),
                ascending(self.nodes@),
                forall|j: int| 0 <= j < i ==> !other@.contains(#[trigger] self.nodes@[j]),
            decreases self.nodes@.len() - i,
        {
            if other.contains(&self.nodes[i]) {
                assert(self@.contains(self.nodes@[i as int]));
                assert forall|node: NodeId|
                    self@.intersect(other@).contains(node) && node != self.nodes@[i as int]
                    implies self.nodes@[i as int].precedes(node) by {
                    let k = choose|k: int| 0 <= k < self.nodes@.len() && self.nodes@[k] == node;
                    assert(i < k);
                }
                return Some(&self.nodes[i]);
            }
            i = i + 1;
        }
        assert(self@.intersect(other@) =~= Set::<NodeId>::empty());
        None
    }
}

impl Clone for NodeSet {
    fn clone(&self) -> (copy: NodeSet)
        ensures
            copy@ == self@,
            copy.ordered() == self.ordered(),
    {
        proof {
            use_type_invariant(self);
        }
        let nodes = self.nodes.clone();
        assert(nodes@ =~= self.nodes@);
        NodeSet { nodes }
    }
}

impl Default for NodeSet {
    /// The default set has no members.
    fn default() -> (set: NodeSet)
        ensures
            set@ == Set::<NodeId>::empty(),
    {
        NodeSet::new()
    }
}

/// A sequence in ascending order holds no node twice.
proof fn lemma_ascending_has_no_duplicates(nodes: Seq<NodeId>)
    requires
        ascending(nodes),
    ensures
        nodes.no_duplicates(),
{
    assert forall|i: int, j: int|
        0 <= i < nodes.len() && 0 <= j < nodes.len() && i != j implies nodes[i] != nodes[j] by {
        if i < j {
            lemma_order_is_asymmetric(nodes[i], nodes[j]);
        } else {
            lemma_order_is_asymmetric(nodes[j], nodes[i]);
        }
    }
}

/// Once all nodes below `node` are passed, `node` is next or it is nowhere.
proof fn lemma_place(nodes: Seq<NodeId>, node: NodeId, at: int)
    requires
        ascending(nodes),
        0 <= at <= nodes.len(),
        forall|i: int| 0 <= i < at ==> (#[trigger] nodes[i]).precedes(node),
        at < nodes.len() ==> !nodes[at].precedes(node),
    ensures
        forall|i: int|
            at <= i < nodes.len() ==> (#[trigger] nodes[i]) == node || node.precedes(nodes[i]),
        nodes.to_set().contains(node) == (at < nodes.len() && nodes[at] == node),
{
    assert forall|i: int| at <= i < nodes.len() implies (#[trigger] nodes[i]) == node
        || node.precedes(nodes[i]) by {
        lemma_order_is_total(node, nodes[at]);
        if at < i && node != nodes[at] {
            lemma_order_is_transitive(node, nodes[at], nodes[i]);
        }
    }
    if nodes.to_set().contains(node) {
        let k = choose|k: int| 0 <= k < nodes.len() && nodes[k] == node;
        lemma_order_is_irreflexive(node);
        assert(at <= k);
        if at < k {
            assert(nodes[at].precedes(nodes[k]));
        }
    }
}

/// A node put at its place leaves the order ascending.
proof fn lemma_insert_keeps_order(nodes: Seq<NodeId>, at: int, node: NodeId)
    requires
        ascending(nodes),
        0 <= at <= nodes.len(),
        forall|i: int| 0 <= i < at ==> (#[trigger] nodes[i]).precedes(node),
        forall|i: int|
            at <= i < nodes.len() ==> (#[trigger] nodes[i]) == node || node.precedes(nodes[i]),
        !nodes.to_set().contains(node),
    ensures
        ascending(nodes.insert(at, node)),
        nodes.insert(at, node).to_set() == nodes.to_set().insert(node),
{
    let after = nodes.insert(at, node);
    assert forall|i: int, j: int| 0 <= i < j < after.len() implies (#[trigger] after[i]).precedes(
        #[trigger] after[j],
    ) by {
        assert(at <= j - 1 && j - 1 < nodes.len() ==> nodes.to_set().contains(nodes[j - 1]));
    }
    assert(after.to_set() =~= nodes.to_set().insert(node)) by {
        assert(after[at] == node);
        assert forall|n: NodeId| nodes.to_set().contains(n) implies after.to_set().contains(n) by {
            let k = choose|k: int| 0 <= k < nodes.len() && nodes[k] == n;
            if k < at {
                assert(after[k] == n);
            } else {
                assert(after[k + 1] == n);
            }
        }
        assert forall|n: NodeId| after.to_set().contains(n) && n != node implies nodes.to_set().contains(n) by {
            let k = choose|k: int| 0 <= k < after.len() && after[k] == n;
            if k < at {
                assert(nodes[k] == n);
            } else {
                assert(nodes[k - 1] == n);
            }
        }
    }
}

/// A node taken out leaves the order ascending.
proof fn lemma_remove_keeps_order(nodes: Seq<NodeId>, at: int)
    requires
        ascending(nodes),
        0 <= at < nodes.len(),
    ensures
        ascending(nodes.remove(at)),
        nodes.remove(at).to_set() == nodes.to_set().remove(nodes[at]),
{
    let after = nodes.remove(at);
    lemma_ascending_has_no_duplicates(nodes);
    assert(after.to_set() =~= nodes.to_set().remove(nodes[at])) by {
        assert forall|n: NodeId| nodes.to_set().contains(n) && n != nodes[at]
            implies after.to_set().contains(n) by {
            let k = choose|k: int| 0 <= k < nodes.len() && nodes[k] == n;
            if k < at {
                assert(after[k] == n);
            } else {
                assert(after[k - 1] == n);
            }
        }
        assert forall|n: NodeId| after.to_set().contains(n) implies nodes.to_set().contains(n)
            && n != nodes[at] by {
            let k = choose|k: int| 0 <= k < after.len() && after[k] == n;
            if k < at {
                assert(nodes[k] == n);
            } else {
                assert(nodes[k + 1] == n);
            }
        }
    }
}

} // verus!
