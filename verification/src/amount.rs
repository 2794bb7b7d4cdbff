//! Unsigned 256-bit quantities, as the chains count tokens and proposals.

use vstd::prelude::*;

verus! {

/// A 256-bit unsigned number, held as four 64-bit limbs, least significant
/// first.
#[derive(Clone, Copy, Debug, PartialEq, Eq)]
pub struct Uint256 {
    pub limbs: [u64; 4],
}

impl Uint256 {
    /// The number that the limbs stand for.
    pub open spec fn value(self) -> nat {
        (self.limbs[0] as nat) + (self.limbs[1] as nat) * 0x1_0000_0000_0000_0000
            + (self.limbs[2] as nat) * 0x1_0000_0000_0000_0000 * 0x1_0000_0000_0000_0000
            + (self.limbs[3] as nat) * 0x1_0000_0000_0000_0000 * 0x1_0000_0000_0000_0000
            * 0x1_0000_0000_0000_0000
    }

    /// The quantity `n`.
    pub fn from_u64(n: u64) -> (quantity: Uint256)
        ensures
            quantity.value() == n,
            quantity.limbs[0] == n,
            quantity.limbs[1] == 0,
            quantity.limbs[2] == 0,
            quantity.limbs[3] == 0,
    {
        Uint256 { limbs: [n, 0, 0, 0] }
    }
}

} // verus!
