//! The swap pipeline: gross output from the invariant solver, spread
//! against the one-to-one reference price, the fee split, and the reverse
//! quote that asks how much must be offered for a desired output.

use vstd::prelude::*;
use crate::curve::{
    compute_d, compute_new_reserve, spec_compute_d, spec_compute_new_reserve,
};
use crate::error::ContractError;
use crate::fee::{apply_fees, Fee, PoolFee, SwapComputation, DECIMAL_FRACTIONAL};
use crate::wide::{mul_div, lemma_mul_div_le};

verus! {

/// A reverse quote's outcome: the offer needed for a desired output, the
/// spread, and the fee portions that the forward swap would take.
#[derive(Clone, Copy, Debug, PartialEq, Eq, Structural)]
pub struct OfferAmountComputation {
    pub offer_amount: u128,
    pub spread_amount: u128,
    pub swap_fee_amount: u128,
    pub protocol_fee_amount: u128,
    pub burn_fee_amount: u128,
}

/// The gross (pre-fee) output of a swap: solve for `D` on the current
/// reserves, add the offer to its reserve, solve for the new ask reserve,
/// and pay out one unit less than the difference so that rounding always
/// favours the pool.
pub open spec fn spec_gross_return(
    offer_pool: u128,
    ask_pool: u128,
    unswapped: Seq<u128>,
    offer_amount: u128,
    amp: u64,
) -> Result<u128, ContractError> {
    match spec_compute_d(seq![offer_pool, ask_pool] + unswapped, amp) {
        Err(e) => Err(e),
        Ok(d) => if offer_pool + offer_amount > u128::MAX {
            Err(ContractError::OverflowError)
        } else {
            match spec_compute_new_reserve(
                seq![(offer_pool + offer_amount) as u128] + unswapped,
                d,
                amp,
            ) {
                Err(e) => Err(e),
                Ok(y) => if y + 1 <= ask_pool {
                    Ok((ask_pool - y - 1) as u128)
                } else {
                    Err(ContractError::OverflowError)
                },
            }
        },
    }
}

/// A full forward swap: gross output, spread against the one-to-one
/// reference price (clamped at zero), and the fee split of the gross
/// amount.
pub open spec fn spec_compute_swap(
    offer_pool: u128,
    ask_pool: u128,
    unswapped: Seq<u128>,
    offer_amount: u128,
    fees: PoolFee,
    amp: u64,
) -> Result<SwapComputation, ContractError> {
    match spec_gross_return(offer_pool, ask_pool, unswapped, offer_amount, amp) {
        Err(e) => Err(e),
        Ok(g) => {
            let spread = if offer_amount >= g {
                (offer_amount - g) as u128
            } else {
                0u128
            };
            let p = fees.protocol_fee.spec_compute(g);
            let s = fees.swap_fee.spec_compute(g);
            let b = fees.burn_fee.spec_compute(g);
            if p + s + b > g {
                Err(ContractError::OverflowError)
            } else {
                Ok(
                    SwapComputation {
                        return_amount: (g - p - s - b) as u128,
                        spread_amount: spread,
                        swap_fee_amount: s as u128,
                        protocol_fee_amount: p as u128,
                        burn_fee_amount: b as u128,
                    },
                )
            }
        },
    }
}

/// Computes what a trader receives for `offer_amount`, with the fees taken
/// out of the gross output.  The three fee portions and the return always
/// add up to the gross output exactly.
#[verifier::loop_isolation(false)]
pub fn compute_swap(
    offer_pool: u128,
    ask_pool: u128,
    unswapped_pool: &Vec<u128>,
    offer_amount: u128,
    pool_fees: &PoolFee,
    amp: u64,
) -> (r: Result<SwapComputation, ContractError>)
    requires
        1 <= amp,
        unswapped_pool@.len() <= 1,
        pool_fees.each_valid(),
    ensures
        r == spec_compute_swap(offer_pool, ask_pool, unswapped_pool@, offer_amount, *pool_fees, amp),
        r matches Ok(sc) ==> {
            &&& spec_gross_return(offer_pool, ask_pool, unswapped_pool@, offer_amount, amp)
                matches Ok(g)
            &&& sc.return_amount + sc.protocol_fee_amount + sc.swap_fee_amount
                + sc.burn_fee_amount
                == spec_gross_return(offer_pool, ask_pool, unswapped_pool@, offer_amount, amp)->Ok_0
        },
{
    let mut xs: Vec<u128> = Vec::new();
    xs.push(offer_pool);
    xs.push(ask_pool);
    if unswapped_pool.len() > 0 {
        xs.push(unswapped_pool[0]);
    }
    proof {
        assert(xs@ =~= seq![offer_pool, ask_pool] + unswapped_pool@);
    }
    let d = match compute_d(&xs, amp) {
        Ok(v) => v,
        Err(e) => return Err(e),
    };

    let new_offer_pool = match offer_pool.checked_add(offer_amount) {
        Some(v) => v,
        None => return Err(ContractError::OverflowError),
    };
    let mut others: Vec<u128> = Vec::new();
    others.push(new_offer_pool);
    if unswapped_pool.len() > 0 {
        others.push(unswapped_pool[0]);
    }
    proof {
        assert(others@ =~= seq![new_offer_pool] + unswapped_pool@);
    }
    let y = match compute_new_reserve(&others, d, amp) {
        Ok(v) => v,
        Err(e) => return Err(e),
    };

    let gross = match ask_pool.checked_sub(y) {
        Some(v) => v,
        None => return Err(ContractError::OverflowError),
    };
    let gross = match gross.checked_sub(1) {
        Some(v) => v,
        None => return Err(ContractError::OverflowError),
    };
    let spread_amount = if offer_amount >= gross {
        offer_amount - gross
    } else {
        0
    };
    apply_fees(gross, spread_amount, pool_fees)
}

/// The gross output that must be produced so that `ask_amount` is left
/// after the fees: `ask_amount * 1 / (1 - total fee share)`, both divisions
/// rounded down at 18 fractional digits.
pub open spec fn spec_before_commission(ask_amount: u128, fees: PoolFee) -> int {
    let inv = (DECIMAL_FRACTIONAL * DECIMAL_FRACTIONAL) / (DECIMAL_FRACTIONAL
        - fees.spec_total_atomics());
    (ask_amount * inv) / (DECIMAL_FRACTIONAL as int)
}

/// A full reverse quote: the offer needed so that, after the invariant
/// solve and the fee split, the trader is left with `ask_amount`.  The
/// extra unit on the offer makes the rounding favour the pool.
pub open spec fn spec_compute_offer_amount(
    offer_pool: u128,
    ask_pool: u128,
    unswapped: Seq<u128>,
    ask_amount: u128,
    fees: PoolFee,
    amp: u64,
) -> Result<OfferAmountComputation, ContractError> {
    if spec_before_commission(ask_amount, fees) > u128::MAX {
        Err(ContractError::OverflowError)
    } else {
        let before = spec_before_commission(ask_amount, fees) as u128;
        match spec_compute_d(seq![offer_pool, ask_pool] + unswapped, amp) {
            Err(e) => Err(e),
            Ok(d) => if before > ask_pool {
                Err(ContractError::OverflowError)
            } else {
                match spec_compute_new_reserve(
                    seq![(ask_pool - before) as u128] + unswapped,
                    d,
                    amp,
                ) {
                    Err(e) => Err(e),
                    Ok(new_offer) => if new_offer < offer_pool || new_offer - offer_pool + 1
                        > u128::MAX {
                        Err(ContractError::OverflowError)
                    } else {
                        let offer_amount = (new_offer - offer_pool + 1) as u128;
                        Ok(
                            OfferAmountComputation {
                                offer_amount,
                                spread_amount: if offer_amount >= before {
                                    (offer_amount - before) as u128
                                } else {
                                    0u128
                                },
                                swap_fee_amount: fees.swap_fee.spec_compute(before) as u128,
                                protocol_fee_amount: fees.protocol_fee.spec_compute(before) as u128,
                                burn_fee_amount: fees.burn_fee.spec_compute(before) as u128,
                            },
                        )
                    },
                }
            },
        }
    }
}

/// Computes how much of the offer asset is needed so that the trader is
/// left with `ask_amount` of the ask asset after fees.
#[verifier::loop_isolation(false)]
pub fn compute_offer_amount(
    offer_pool: u128,
    ask_pool: u128,
    unswapped_pool: &Vec<u128>,
    ask_amount: u128,
    pool_fees: &PoolFee,
    amp: u64,
) -> (r: Result<OfferAmountComputation, ContractError>)
    requires
        1 <= amp,
        unswapped_pool@.len() <= 1,
        pool_fees.is_valid(),
    ensures
        r == spec_compute_offer_amount(
            offer_pool,
            ask_pool,
            unswapped_pool@,
            ask_amount,
            *pool_fees,
            amp,
        ),
{
    let total = pool_fees.protocol_fee.share_atomics + pool_fees.swap_fee.share_atomics
        + pool_fees.burn_fee.share_atomics;
    let one_minus = DECIMAL_FRACTIONAL - total;
    proof {
        vstd::arithmetic::div_mod::lemma_div_is_ordered_by_denominator(
            (DECIMAL_FRACTIONAL * DECIMAL_FRACTIONAL) as int,
            1,
            one_minus as int,
        );
    }
    let inv = mul_div(DECIMAL_FRACTIONAL, DECIMAL_FRACTIONAL, one_minus).unwrap();
    let before_commission = match mul_div(ask_amount, inv, DECIMAL_FRACTIONAL) {
        Some(v) => v,
        None => return Err(ContractError::OverflowError),
    };

    let mut xs: Vec<u128> = Vec::new();
    xs.push(offer_pool);
    xs.push(ask_pool);
    if unswapped_pool.len() > 0 {
        xs.push(unswapped_pool[0]);
    }
    proof {
        assert(xs@ =~= seq![offer_pool, ask_pool] + unswapped_pool@);
    }
    let d = match compute_d(&xs, amp) {
        Ok(v) => v,
        Err(e) => return Err(e),
    };

    let new_ask_pool = match ask_pool.checked_sub(before_commission) {
        Some(v) => v,
        None => return Err(ContractError::OverflowError),
    };
    let mut others: Vec<u128> = Vec::new();
    others.push(new_ask_pool);
    if unswapped_pool.len() > 0 {
        others.push(unswapped_pool[0]);
    }
    proof {
        assert(others@ =~= seq![new_ask_pool] + unswapped_pool@);
    }
    let new_offer_pool = match compute_new_reserve(&others, d, amp) {
        Ok(v) => v,
        Err(e) => return Err(e),
    };

    let grown = match new_offer_pool.checked_sub(offer_pool) {
        Some(v) => v,
        None => return Err(ContractError::OverflowError),
    };
    let offer_amount = match grown.checked_add(1) {
        Some(v) => v,
        None => return Err(ContractError::OverflowError),
    };
    let spread_amount = if offer_amount >= before_commission {
        offer_amount - before_commission
    } else {
        0
    };
    Ok(
        OfferAmountComputation {
            offer_amount,
            spread_amount,
            swap_fee_amount: pool_fees.swap_fee.compute(before_commission),
            protocol_fee_amount: pool_fees.protocol_fee.compute(before_commission),
            burn_fee_amount: pool_fees.burn_fee.compute(before_commission),
        },
    )
}

/// Whether the slippage protection accepts the trade.  With a belief price
/// (18 fractional digits, offer per ask) the trader expects
/// `offer * 1e18 / belief`; the trade fails when the shortfall of the
/// actual return against that expectation exceeds `max_spread` of it.
/// Without one, the trade fails when the spread exceeds `max_spread` of the
/// gross output.  Both ratios are compared rounded down to 18 fractional
/// digits.
pub open spec fn spec_max_spread_check(
    belief_price_atomics: Option<u128>,
    max_spread: Option<Fee>,
    offer_amount: u128,
    return_amount: u128,
    spread_amount: u128,
) -> Result<(), ContractError> {
    match max_spread {
        None => Ok(()),
        Some(ms) => match belief_price_atomics {
            Some(bp) => {
                let expected = (offer_amount * DECIMAL_FRACTIONAL) / (bp as int);
                if expected > u128::MAX {
                    Err(ContractError::OverflowError)
                } else if return_amount < expected && ((expected - return_amount)
                    * DECIMAL_FRACTIONAL) / expected > ms.share_atomics {
                    Err(ContractError::MaxSpreadExceeded)
                } else {
                    Ok(())
                }
            },
            None => {
                if return_amount + spread_amount > u128::MAX {
                    Err(ContractError::OverflowError)
                } else if return_amount + spread_amount > 0 && (spread_amount
                    * DECIMAL_FRACTIONAL) / (return_amount + spread_amount) > ms.share_atomics {
                    Err(ContractError::MaxSpreadExceeded)
                } else {
                    Ok(())
                }
            },
        },
    }
}

/// Checks the trade against the caller's slippage protection.
pub fn assert_max_spread(
    belief_price_atomics: Option<u128>,
    max_spread: Option<Fee>,
    offer_amount: u128,
    return_amount: u128,
    spread_amount: u128,
) -> (r: Result<(), ContractError>)
    requires
        belief_price_atomics matches Some(bp) ==> bp > 0,
    ensures
        r == spec_max_spread_check(
            belief_price_atomics,
            max_spread,
            offer_amount,
            return_amount,
            spread_amount,
        ),
{
    let ms = match max_spread {
        None => return Ok(()),
        Some(ms) => ms,
    };
    match belief_price_atomics {
        Some(bp) => {
            let expected = match mul_div(offer_amount, DECIMAL_FRACTIONAL, bp) {
                Some(v) => v,
                None => return Err(ContractError::OverflowError),
            };
            if return_amount < expected {
                let shortfall = expected - return_amount;
                proof {
                    lemma_mul_div_le(
                        DECIMAL_FRACTIONAL as int,
                        shortfall as int,
                        expected as int,
                    );
                    vstd::arithmetic::mul::lemma_mul_is_commutative(
                        shortfall as int,
                        DECIMAL_FRACTIONAL as int,
                    );
                }
                let ratio = mul_div(shortfall, DECIMAL_FRACTIONAL, expected).unwrap();
                if ratio > ms.share_atomics {
                    return Err(ContractError::MaxSpreadExceeded);
                }
            }
            Ok(())
        },
        None => {
            let gross = match return_amount.checked_add(spread_amount) {
                Some(v) => v,
                None => return Err(ContractError::OverflowError),
            };
            if gross > 0 {
                proof {
                    lemma_mul_div_le(DECIMAL_FRACTIONAL as int, spread_amount as int, gross as int);
                    vstd::arithmetic::mul::lemma_mul_is_commutative(
                        spread_amount as int,
                        DECIMAL_FRACTIONAL as int,
                    );
                }
                let ratio = mul_div(spread_amount, DECIMAL_FRACTIONAL, gross).unwrap();
                if ratio > ms.share_atomics {
                    return Err(ContractError::MaxSpreadExceeded);
                }
            }
            Ok(())
        },
    }
}

} // verus!
