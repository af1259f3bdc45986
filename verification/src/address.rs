//! Account identities: 32-byte addresses for creators, promoters, the
//! marketplace owner, token denominations and derived custody authorities.

use vstd::prelude::*;

verus! {

broadcast use vstd::array::group_array_axioms;

/// A 32-byte account identity. Its view is the byte sequence; two addresses
/// are the same identity exactly when their bytes agree.
#[derive(Clone, Copy, Debug)]
pub struct Address {
    pub bytes: [u8; 32],
}

impl View for Address {
    type V = Seq<u8>;

    open spec fn view(&self) -> Seq<u8> {
        self.bytes@
    }
}

impl Address {
    /// The null identity: all 32 bytes zero. No real account carries it; an
    /// update naming it as promoter is rejected.
    pub open spec fn spec_null() -> Seq<u8> {
        Seq::new(32, |i: int| 0u8)
    }

    pub fn new(bytes: [u8; 32]) -> (a: Address)
        ensures
            a@ == bytes@,
    {
        Address { bytes }
    }

    /// The null identity as a value.
    pub fn null() -> (a: Address)
        ensures
            a@ == Address::spec_null(),
    {
        let a = Address { bytes: [0u8; 32] };
        proof {
            assert(a@ =~= Address::spec_null());
        }
        a
    }
}

impl PartialEq for Address {
    fn eq(&self, other: &Address) -> (r: bool) {
        let mut i: usize = 0;
        while i < 32
            invariant
                0 <= i <= 32,
                forall|j: int| 0 <= j < i ==> self.bytes@[j] == other.bytes@[j],
            decreases 32 - i,
        {
            if self.bytes[i] != other.bytes[i] {
                assert(self.bytes@[i as int] != other.bytes@[i as int]);
                return false;
            }
            i = i + 1;
        }
        proof {
            assert(self.bytes@ =~= other.bytes@);
        }
        true
    }
}

impl vstd::std_specs::cmp::PartialEqSpecImpl for Address {
    open spec fn obeys_eq_spec() -> bool {
        true
    }

    open spec fn eq_spec(&self, other: &Address) -> bool {
        self@ == other@
    }
}

impl Default for Address {
    /// The null identity, as `Pubkey::default` is on the host platform.
    fn default() -> (a: Address)
        ensures
            a@ == Address::spec_null(),
    {
        Address::null()
    }
}

} // verus!
