//! Who an account or a caller is.

use vstd::prelude::*;

verus! {

/// The name of a principal or an account on the ledger: thirty-two opaque
/// bytes. Two identities are the same exactly when their bytes are.
///
/// An identity handed to an operation is taken as already authenticated: the
/// operations compare identities and never verify signatures themselves.
#[derive(Clone, Copy, Debug, PartialEq, Eq)]
pub struct Identity {
    pub bytes: [u8; 32],
}

impl Identity {
    /// Tells whether `self` and `other` name the same principal.
    pub fn same(&self, other: &Identity) -> (r: bool)
        ensures
            r == (*self == *other),
            r == (self.bytes@ == other.bytes@),
    {
        let mut i: usize = 0;
        while i < 32
            invariant
                i <= 32,
                forall|j: int| 0 <= j < i ==> self.bytes[j] == other.bytes[j],
            decreases 32 - i,
        {
            if self.bytes[i] != other.bytes[i] {
                return false;
            }
            i += 1;
        }
        assert(self.bytes =~= other.bytes);
        assert(self.bytes@ =~= other.bytes@);
        true
    }
}

} // verus!
