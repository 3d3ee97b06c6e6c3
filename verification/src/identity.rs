//! Account identities.

use vstd::prelude::*;
use vstd::std_specs::cmp::PartialEqSpecImpl;

verus! {

/// The identity of an account: 32 bytes. Two identities are equal when their
/// bytes are.
#[derive(Clone, Copy, Debug)]
pub struct Identity {
    pub bytes: [u8; 32],
}

impl View for Identity {
    type V = Seq<u8>;

    /// The 32 bytes.
    open spec fn view(&self) -> Seq<u8> {
        self.bytes@
    }
}

impl Identity {
    /// The null identity, whose bytes are all zero. An account record that
    /// nobody owns yet carries it as its owner.
    pub open spec fn null() -> Identity {
        Identity { bytes: vstd::array::spec_array_fill_for_copy_type(0u8) }
    }

    /// Whether this is the null identity.
    pub open spec fn is_null(self) -> bool {
        forall|i: int| 0 <= i < 32 ==> self@[i] == 0u8
    }

    /// The identity with the given bytes.
    pub fn new(bytes: [u8; 32]) -> (id: Identity)
        ensures
            id.bytes == bytes,
    {
        Identity { bytes }
    }

    /// Tests for the null identity.
    pub fn is_default(&self) -> (r: bool)
        ensures
            r == self.is_null(),
            r == (*self == Identity::null()),
    {
        let mut i: usize = 0;
        while i < 32
            invariant
                i <= 32,
                forall|j: int| 0 <= j < i ==> self.bytes[j] == 0u8,
            decreases 32 - i,
        {
            if self.bytes[i] != 0 {
                proof {
                    lemma_null_is_unique(*self);
                }
                return false;
            }
            i += 1;
        }
        proof {
            lemma_null_is_unique(*self);
        }
        true
    }
}

/// Identities with the same bytes are the same.
pub proof fn lemma_identity_is_its_bytes(a: Identity, b: Identity)
    ensures
        a@.len() == 32,
        a@ == b@ <==> a == b,
{
    if a@ == b@ {
        assert(a.bytes =~= b.bytes);
    }
}

/// There is one null identity.
pub proof fn lemma_null_is_unique(id: Identity)
    ensures
        Identity::null().is_null(),
        id.is_null() <==> id == Identity::null(),
{
    if id.is_null() {
        assert(id@ =~= Identity::null()@);
        lemma_identity_is_its_bytes(id, Identity::null());
    }
}

impl Default for Identity {
    /// The null identity.
    fn default() -> (id: Identity)
        ensures
            id == Identity::null(),
    {
        Identity { bytes: [0u8;32] }
    }
}

impl PartialEq for Identity {
    fn eq(&self, other: &Identity) -> (r: bool) {
        let mut i: usize = 0;
        while i < 32
            invariant
                i <= 32,
                forall|j: int| 0 <= j < i ==> self.bytes[j] == other.bytes[j],
            decreases 32 - i,
        {
            if self.bytes[i] != other.bytes[i] {
                return false;
            }
            i += 1;
        }
        proof {
            assert(self@ =~= other@);
            lemma_identity_is_its_bytes(*self, *other);
        }
        true
    }
}

impl PartialEqSpecImpl for Identity {
    open spec fn obeys_eq_spec() -> bool {
        true
    }

    open spec fn eq_spec(&self, other: &Identity) -> bool {
        *self == *other
    }
}

impl Eq for Identity {

}

} // verus!
