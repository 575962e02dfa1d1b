//! The fee engine: fee ratios in 18-digit fixed point, the pool's fee
//! schedule, and the split of a gross swap output into the trader's return
//! and the protocol, swap and burn fee streams.

use vstd::prelude::*;
use crate::error::ContractError;
use crate::wide::{mul_div, lemma_mul_div_le, lemma_div_add_le};

verus! {

/// One unit in the fixed-point representation of a ratio: ratios carry 18
/// fractional decimal digits.
pub const DECIMAL_FRACTIONAL: u128 = 1_000_000_000_000_000_000;

/// A fee ratio in `[0, 1)`, stored as `share_atomics / DECIMAL_FRACTIONAL`.
#[derive(Clone, Copy, Debug)]
pub struct Fee {
    pub share_atomics: u128,
}

impl Fee {
    /// The ratio lies in `[0, 1)`.
    pub open spec fn is_valid(&self) -> bool {
        self.share_atomics < DECIMAL_FRACTIONAL
    }

    /// The fee taken from `amount`: `floor(amount * share)`.
    pub open spec fn spec_compute(&self, amount: u128) -> int {
        (amount * self.share_atomics) / (DECIMAL_FRACTIONAL as int)
    }

    /// A fee of zero.
    pub fn zero() -> (r: Fee)
        ensures
            r.share_atomics == 0,
    {
        Fee { share_atomics: 0 }
    }

    /// The ratio `numerator / denominator`, rounded down to 18 fractional
    /// digits.  `None` when the denominator is zero or the ratio does not
    /// fit the fixed-point range.
    pub fn from_ratio(numerator: u128, denominator: u128) -> (r: Option<Fee>)
        ensures
            r matches Some(f) ==> denominator != 0 && f.share_atomics == (numerator
                * DECIMAL_FRACTIONAL) / (denominator as int),
            r is None ==> denominator == 0 || (numerator * DECIMAL_FRACTIONAL) / (
            denominator as int) > u128::MAX,
    {
        match mul_div(numerator, DECIMAL_FRACTIONAL, denominator) {
            Some(a) => Some(Fee { share_atomics: a }),
            None => None,
        }
    }

    /// Computes the fee on `amount`, rounded down; never more than `amount`.
    pub fn compute(&self, amount: u128) -> (r: u128)
        requires
            self.is_valid(),
        ensures
            r == self.spec_compute(amount),
            r <= amount,
    {
        proof {
            lemma_mul_div_le(amount as int, self.share_atomics as int, DECIMAL_FRACTIONAL as int);
        }
        mul_div(amount, self.share_atomics, DECIMAL_FRACTIONAL).unwrap()
    }
}

/// The pool's fee schedule: protocol, swap and burn shares of every gross
/// swap output.  A pool variant without a burn stream uses a zero burn fee.
#[derive(Clone, Copy, Debug)]
pub struct PoolFee {
    pub protocol_fee: Fee,
    pub swap_fee: Fee,
    pub burn_fee: Fee,
}

impl PoolFee {
    /// Every share lies in `[0, 1)`.
    pub open spec fn each_valid(&self) -> bool {
        self.protocol_fee.is_valid() && self.swap_fee.is_valid() && self.burn_fee.is_valid()
    }

    /// The sum of the three shares.
    pub open spec fn spec_total_atomics(&self) -> int {
        self.protocol_fee.share_atomics + self.swap_fee.share_atomics
            + self.burn_fee.share_atomics
    }

    /// A schedule is accepted at configuration time only when every share is
    /// in `[0, 1)` and the three together stay below 1, so that a swap's
    /// return can never go negative.
    pub open spec fn is_valid(&self) -> bool {
        self.each_valid() && self.spec_total_atomics() < DECIMAL_FRACTIONAL
    }

    /// The configuration-time check of the schedule.
    pub fn validate(&self) -> (r: bool)
        ensures
            r == self.is_valid(),
    {
        self.protocol_fee.share_atomics < DECIMAL_FRACTIONAL
            && self.swap_fee.share_atomics < DECIMAL_FRACTIONAL
            && self.burn_fee.share_atomics < DECIMAL_FRACTIONAL
            && self.protocol_fee.share_atomics + self.swap_fee.share_atomics
                <= u128::MAX - self.burn_fee.share_atomics
            && self.protocol_fee.share_atomics + self.swap_fee.share_atomics
                + self.burn_fee.share_atomics < DECIMAL_FRACTIONAL
    }
}

/// A swap's outcome: what the trader receives, the price impact against the
/// one-to-one reference price, and the three fee portions.  Immutable once
/// produced and never persisted.
#[derive(Clone, Copy, Debug, PartialEq, Eq, Structural)]
pub struct SwapComputation {
    pub return_amount: u128,
    pub spread_amount: u128,
    pub swap_fee_amount: u128,
    pub protocol_fee_amount: u128,
    pub burn_fee_amount: u128,
}

/// Splits `gross` into the three fee portions (each rounded down) and the
/// trader's return, carrying `spread_amount` through unchanged.
///
/// The three fee portions and the return always add up to `gross` exactly.
/// The split fails with an overflow error exactly when the fees together
/// exceed `gross`, which cannot happen under a valid fee schedule.
pub fn apply_fees(gross: u128, spread_amount: u128, fees: &PoolFee) -> (r: Result<
    SwapComputation,
    ContractError,
>)
    requires
        fees.each_valid(),
    ensures
        r matches Ok(sc) ==> {
            &&& sc.protocol_fee_amount == fees.protocol_fee.spec_compute(gross)
            &&& sc.swap_fee_amount == fees.swap_fee.spec_compute(gross)
            &&& sc.burn_fee_amount == fees.burn_fee.spec_compute(gross)
            &&& sc.return_amount + sc.protocol_fee_amount + sc.swap_fee_amount
                + sc.burn_fee_amount == gross
            &&& sc.spread_amount == spread_amount
        },
        r is Ok <==> fees.protocol_fee.spec_compute(gross) + fees.swap_fee.spec_compute(gross)
            + fees.burn_fee.spec_compute(gross) <= gross,
        r is Err ==> r == Err::<SwapComputation, ContractError>(ContractError::OverflowError),
        fees.is_valid() ==> r is Ok,
{
    let protocol_fee_amount = fees.protocol_fee.compute(gross);
    let swap_fee_amount = fees.swap_fee.compute(gross);
    let burn_fee_amount = fees.burn_fee.compute(gross);
    proof {
        if fees.is_valid() {
            lemma_fee_split_fits(gross, *fees);
        }
    }
    let after_protocol = match gross.checked_sub(protocol_fee_amount) {
        Some(v) => v,
        None => return Err(ContractError::OverflowError),
    };
    let after_swap = match after_protocol.checked_sub(swap_fee_amount) {
        Some(v) => v,
        None => return Err(ContractError::OverflowError),
    };
    let return_amount = match after_swap.checked_sub(burn_fee_amount) {
        Some(v) => v,
        None => return Err(ContractError::OverflowError),
    };
    Ok(
        SwapComputation {
            return_amount,
            spread_amount,
            swap_fee_amount,
            protocol_fee_amount,
            burn_fee_amount,
        },
    )
}

/// Under a valid schedule the three rounded-down fee portions never exceed
/// the gross amount they are taken from.
pub proof fn lemma_fee_split_fits(gross: u128, fees: PoolFee)
    requires
        fees.is_valid(),
    ensures
        fees.protocol_fee.spec_compute(gross) + fees.swap_fee.spec_compute(gross)
            + fees.burn_fee.spec_compute(gross) <= gross,
{
    let d = DECIMAL_FRACTIONAL as int;
    let g = gross as int;
    let pa = fees.protocol_fee.share_atomics as int;
    let sa = fees.swap_fee.share_atomics as int;
    let ba = fees.burn_fee.share_atomics as int;
    lemma_div_add_le(g * pa, g * sa, d);
    lemma_div_add_le(g * pa + g * sa, g * ba, d);
    assert(g * pa + g * sa + g * ba == g * (pa + sa + ba)) by {
        vstd::arithmetic::mul::lemma_mul_is_distributive_add(g, pa, sa);
        vstd::arithmetic::mul::lemma_mul_is_distributive_add(g, pa + sa, ba);
    }
    lemma_mul_div_le(g, pa + sa + ba, d);
}

} // verus!
