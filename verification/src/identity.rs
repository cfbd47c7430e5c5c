//! Fixed-size binary identities for accounts, tokens and signers.

use vstd::prelude::*;

verus! {

/// A 32-byte account identity, as the platform's addresses are.
///
/// The controller never looks inside an identity: it only compares identities
/// for equality and hands them to the address-derivation rule as seed bytes.
#[derive(Clone, Copy, Debug)]
pub struct Identity {
    pub bytes: [u8; 32],
}

impl View for Identity {
    type V = Seq<u8>;

    open spec fn view(&self) -> Seq<u8> {
        self.bytes@
    }
}

impl PartialEq for Identity {
    fn eq(&self, other: &Identity) -> (r: bool) {
        let mut i: usize = 0;
        while i < 32
            invariant
                0 <= i <= 32,
                forall|j: int| 0 <= j < i ==> self.bytes@[j] == other.bytes@[j],
            decreases 32 - i,
        {
            if self.bytes[i] != other.bytes[i] {
                return false;
            }
            i = i + 1;
        }
        proof {
            assert(self.bytes@ =~= other.bytes@);
        }
        true
    }
}

impl vstd::std_specs::cmp::PartialEqSpecImpl for Identity {
    open spec fn obeys_eq_spec() -> bool {
        true
    }

    open spec fn eq_spec(&self, other: &Identity) -> bool {
        self.bytes@ == other.bytes@
    }
}

/// The all-zero identity, the content of a freshly allocated record.
pub open spec fn spec_zero_identity() -> Seq<u8> {
    Seq::<u8>::new(32, |i: int| 0u8)
}

impl Default for Identity {
    /// The all-zero identity.
    fn default() -> (r: Identity)
        ensures
            r@ == spec_zero_identity(),
    {
        let r = Identity { bytes: [0u8; 32] };
        proof {
            assert(r@ =~= spec_zero_identity());
        }
        r
    }
}

} // verus!
