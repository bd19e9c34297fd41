//! Token amounts, carried as a plain count of atto-units.

use vstd::prelude::*;

verus! {

/// A non-negative token amount in atto-units.
#[derive(Clone, Copy, Debug, PartialEq, Eq, Structural)]
pub struct TokenAmount {
    pub atto: u128,
}

impl TokenAmount {
    /// The amount worth `atto` atto-units.
    pub fn from_atto(atto: u128) -> (r: TokenAmount)
        ensures
            r.atto == atto,
    {
        TokenAmount { atto }
    }

    /// The zero amount.
    pub fn zero() -> (r: TokenAmount)
        ensures
            r.atto == 0,
    {
        TokenAmount { atto: 0 }
    }

    pub fn is_zero(&self) -> (r: bool)
        ensures
            r == (self.atto == 0),
    {
        self.atto == 0
    }
}

} // verus!
