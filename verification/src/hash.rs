//! 256-bit identifiers.

use vstd::prelude::*;

verus! {

/// Identifier of a migration.
#[derive(Clone, Copy, Debug)]
pub struct H256 {
    /// Bytes of the identifier, most significant first.
    pub bytes: [u8; 32],
}

impl H256 {
    /// The identifier whose bytes are all zero.
    pub open spec fn zero_spec() -> H256 {
        H256 { bytes: vstd::array::spec_array_fill_for_copy_type::<u8, 32>(0u8) }
    }

    /// The identifier whose bytes are all zero.
    pub fn zero() -> (id: H256)
        ensures
            id == H256::zero_spec(),
            forall|i: int| 0 <= i < 32 ==> id.bytes[i] == 0,
    {
        H256 { bytes: [0u8; 32] }
    }
}

impl Default for H256 {
    /// The default identifier is zero.
    fn default() -> (id: H256)
        ensures
            id == H256::zero_spec(),
    {
        H256::zero()
    }
}

impl PartialEq for H256 {
    fn eq(&self, other: &H256) -> (equal: bool) {
        let mut i: usize = 0;
        while i < 32
            invariant
                i <= 32,
                forall|j: int| 0 <= j < i ==> self.bytes[j] == other.bytes[j],
            decreases 32 - i,
        {
            if self.bytes[i] != other.bytes[i] {
                return false;
            }
            i = i + 1;
        }
        assert(self.bytes =~= other.bytes);
        true
    }
}

impl vstd::std_specs::cmp::PartialEqSpecImpl for H256 {
    open spec fn obeys_eq_spec() -> bool {
        true
    }

    open spec fn eq_spec(&self, other: &H256) -> bool {
        *self == *other
    }
}

impl Eq for H256 {

}

/// Draws a fresh identifier with `ethcore_bigint::hash::H256::random`.
///
/// That function fills 32 bytes from the operating system's random source, so nothing is
/// claimed of the value that comes back: any identifier may. It panics where the operating
/// system offers no random source at all.
#[verifier::external_body]
pub(crate) fn random_id() -> (id: H256)
{
    H256 { bytes: ethcore_bigint::hash::H256::random().0 }
}

} // verus!
