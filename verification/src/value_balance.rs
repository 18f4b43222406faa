//! Amounts of money and the balances of the chain's value pools.
use vstd::prelude::*;

verus! {

/// A non-negative amount, in the smallest unit of the currency.
#[derive(Clone, Copy, Debug, PartialEq, Eq, Structural, Hash)]
pub struct Amount(pub u64);

/// What each value pool of the chain holds.
///
/// The partial-chain builder never reads the balances: it carries them from
/// one transaction fixup to the next.
#[derive(Clone, Copy, Debug, PartialEq, Eq, Structural, Hash)]
pub struct ValueBalance {
    pub transparent: Amount,
    pub sprout: Amount,
    pub sapling: Amount,
    pub orchard: Amount,
}

impl ValueBalance {
    /// The balance of a chain that holds nothing yet.
    pub fn zero() -> (r: ValueBalance)
        ensures
            r == (ValueBalance {
                transparent: Amount(0),
                sprout: Amount(0),
                sapling: Amount(0),
                orchard: Amount(0),
            }),
    {
        ValueBalance {
            transparent: Amount(0),
            sprout: Amount(0),
            sapling: Amount(0),
            orchard: Amount(0),
        }
    }
}

} // verus!
