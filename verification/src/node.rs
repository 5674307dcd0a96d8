//! Nodes of the cluster: their identities, the order of these, and their addresses.

use vstd::prelude::*;

verus! {

/// Identity of a node: its public key.
#[derive(Clone, Copy, Debug)]
pub struct NodeId {
    /// Bytes of the key, most significant first.
    pub bytes: [u8; 64],
}

/// Public key of a node.
pub type Public = NodeId;

/// Address at which a node listens.
#[derive(Clone, Copy, Debug, PartialEq, Eq, Structural)]
pub enum NodeAddress {
    /// An IPv4 address and a port.
    V4(u32, u16),
    /// An IPv6 address, a port, flow information and a scope.
    V6(u128, u16, u32, u32),
}

impl NodeId {
    /// The identity whose bytes are all zero.
    pub open spec fn zero_spec() -> NodeId {
        NodeId { bytes: vstd::array::spec_array_fill_for_copy_type::<u8, 64>(0u8) }
    }

    /// `self` and `other` part at byte `i`, where `self` has the smaller byte.
    pub open spec fn parts_below_at(self, other: NodeId, i: int) -> bool {
        &&& 0 <= i < 64
        &&& self.bytes[i] < other.bytes[i]
        &&& forall|j: int| 0 <= j < i ==> self.bytes[j] == other.bytes[j]
    }

    /// Strict lexicographic order of the bytes.
    pub open spec fn precedes(self, other: NodeId) -> bool {
        exists|i: int| self.parts_below_at(other, i)
    }

    /// Tells whether `self` comes strictly before `other`.
    pub fn is_before(&self, other: &NodeId) -> (before: bool)
        ensures
            before == self.precedes(*other),
    {
        let mut i: usize = 0;
        while i < 64
            invariant
                i <= 64,
                forall|j: int| 0 <= j < i ==> self.bytes[j] == other.bytes[j],
            decreases 64 - i,
        {
            if self.bytes[i] != other.bytes[i] {
                proof {
                    if self.bytes[i as int] < other.bytes[i as int] {
                        assert(self.parts_below_at(*other, i as int));
                    } else {
                        assert(other.parts_below_at(*self, i as int));
                        lemma_order_is_asymmetric(*other, *self);
                    }
                }
                return self.bytes[i] < other.bytes[i];
            }
            i = i + 1;
        }
        assert(self.bytes =~= other.bytes);
        proof {
            lemma_order_is_irreflexive(*self);
        }
        false
    }
}

impl Default for NodeId {
    /// The default identity is zero.
    fn default() -> (id: NodeId)
        ensures
            id == NodeId::zero_spec(),
            forall|i: int| 0 <= i < 64 ==> id.bytes[i] == 0,
    {
        NodeId { bytes: [0u8; 64] }
    }
}

impl PartialEq for NodeId {
    fn eq(&self, other: &NodeId) -> (equal: bool) {
        let mut i: usize = 0;
        while i < 64
            invariant
                i <= 64,
                forall|j: int| 0 <= j < i ==> self.bytes[j] == other.bytes[j],
            decreases 64 - i,
        {
            if self.bytes[i] != other.bytes[i] {
                return false;
            }
            i = i + 1;
        }
        assert(self.bytes =~= other.bytes);
        true
    }
}

impl vstd::std_specs::cmp::PartialEqSpecImpl for NodeId {
    open spec fn obeys_eq_spec() -> bool {
        true
    }

    open spec fn eq_spec(&self, other: &NodeId) -> bool {
        *self == *other
    }
}

impl Eq for NodeId {

}

/// No node comes before itself.
pub proof fn lemma_order_is_irreflexive(a: NodeId)
    ensures
        !a.precedes(a),
{
}

/// Of two nodes at most one comes before the other.
pub proof fn lemma_order_is_asymmetric(a: NodeId, b: NodeId)
    requires
        a.precedes(b),
    ensures
        !b.precedes(a),
        a != b,
{
    let i = choose|i: int| a.parts_below_at(b, i);
    if b.precedes(a) {
        let j = choose|j: int| b.parts_below_at(a, j);
        if i < j {
            assert(b.bytes[i] == a.bytes[i]);
        } else if j < i {
            assert(a.bytes[j] == b.bytes[j]);
        }
    }
}

/// What comes before a node comes before all that come after it.
pub proof fn lemma_order_is_transitive(a: NodeId, b: NodeId, c: NodeId)
    requires
        a.precedes(b),
        b.precedes(c),
    ensures
        a.precedes(c),
{
    let i = choose|i: int| a.parts_below_at(b, i);
    let j = choose|j: int| b.parts_below_at(c, j);
    if i <= j {
        assert(a.parts_below_at(c, i));
    } else {
        assert(a.parts_below_at(c, j));
    }
}

/// Of two different nodes one comes before the other.
pub proof fn lemma_order_is_total(a: NodeId, b: NodeId)
    ensures
        a.precedes(b) || b.precedes(a) || a == b,
{
    if a != b {
        if forall|i: int| 0 <= i < 64 ==> a.bytes[i] == b.bytes[i] {
            assert(a.bytes =~= b.bytes);
        }
        let i = choose|i: int| 0 <= i < 64 && a.bytes[i] != b.bytes[i];
        lemma_first_difference(a, b, i);
    }
}

/// Nodes that differ at byte `i` are ordered, by the first byte at which they differ.
proof fn lemma_first_difference(a: NodeId, b: NodeId, i: int)
    requires
        0 <= i < 64,
        a.bytes[i] != b.bytes[i],
    ensures
        a.precedes(b) || b.precedes(a),
    decreases i,
{
    if exists|j: int| 0 <= j < i && a.bytes[j] != b.bytes[j] {
        let j = choose|j: int| 0 <= j < i && a.bytes[j] != b.bytes[j];
        lemma_first_difference(a, b, j);
    } else {
        assert(a.parts_below_at(b, i) || b.parts_below_at(a, i));
    }
}

} // verus!
