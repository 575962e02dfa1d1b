//! Abstract instructions.  The core never moves funds itself: each
//! operation returns the list of payments, burns, pulls and share mints
//! that the surrounding layer must turn into actual transfer messages.

use vstd::prelude::*;
use crate::asset::Asset;

verus! {

/// One instruction for the surrounding layer.
#[derive(Debug)]
pub enum Instruction {
    /// Pay `asset` out to `recipient` (a bank send for a native coin, a
    /// token transfer for a token contract).
    Transfer { recipient: String, asset: Asset },
    /// Destroy `asset` permanently (a native burn or a token burn).
    Burn { asset: Asset },
    /// Pull a declared token deposit from `owner` into the pool contract.
    PullDeposit { owner: String, asset: Asset },
    /// Mint `amount` of liquidity shares to `recipient`.
    MintShares { recipient: String, amount: u128 },
    /// Burn `amount` of liquidity shares returned to the pool.
    BurnShares { amount: u128 },
}

} // verus!
