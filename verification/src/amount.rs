//! Exact decimal amounts of money.

use vstd::prelude::*;

verus! {

/// The decimal number `mantissa / 10^scale`, held exactly.
#[derive(Clone, Copy, Debug, PartialEq, Eq, Structural)]
pub struct Amount {
    pub mantissa: i128,
    pub scale: u32,
}

impl Amount {
    /// Whether the amount is strictly greater than zero. The power of
    /// ten it is divided by is positive, so the sign is the mantissa's.
    pub open spec fn spec_is_positive(&self) -> bool {
        self.mantissa > 0
    }

    /// The amount `mantissa / 10^scale`.
    pub fn new(mantissa: i128, scale: u32) -> (amount: Amount)
        ensures
            amount == (Amount { mantissa, scale }),
    {
        Amount { mantissa, scale }
    }

    /// Whether the amount is strictly greater than zero.
    #[verifier::when_used_as_spec(spec_is_positive)]
    pub fn is_positive(&self) -> (positive: bool)
        ensures
            positive == self.spec_is_positive(),
    {
        self.mantissa > 0
    }
}

} // verus!
