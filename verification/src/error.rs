use vstd::prelude::*;

verus! {

/// A feature of the pool that can be switched off by the owner.
#[derive(Clone, Copy, Debug, PartialEq, Eq, Structural)]
pub enum Feature {
    Deposits,
    Swaps,
    Withdrawals,
}

/// Every way an operation on the pool can fail.  All errors are terminal for
/// the current invocation: no ledger or reserve is changed on an error path.
#[derive(Clone, Debug)]
pub enum ContractError {
    /// The offer or ask asset is not among the pool's configured assets, or
    /// the two refer to the same asset.
    AssetMismatch,
    /// A deposit or swap amount was declared as zero.
    InvalidZeroAmount,
    /// A liquidity deposit is too small: the first deposit does not cover
    /// the permanently locked minimum, or a later one grows the invariant
    /// by nothing.
    InvalidInitialLiquidityAmount,
    /// A checked integer operation overflowed or underflowed.
    OverflowError,
    /// The Newton solve did not converge within the iteration bound.
    ConvergenceFailure,
    /// A configured fee schedule whose shares leave `[0, 1)` or sum to 1
    /// or more; rejected at configuration time.
    InvalidFee,
    /// A configured amplification factor outside its allowed range;
    /// rejected at configuration time.
    InvalidAmpFactor,
    /// The slippage or belief-price assertion failed.
    MaxSpreadExceeded,
    /// The named feature is switched off.
    OperationDisabled(Feature),
    /// The caller is not allowed to perform the operation.
    Unauthorized,
}

} // verus!
