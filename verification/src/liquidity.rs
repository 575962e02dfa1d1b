//! Liquidity accounting: converting deposits into minted shares and share
//! burns into proportional multi-asset refunds.  Deposits are excluded
//! from the reserve snapshot before shares are computed, and pending fees
//! are excluded before any solve, so that neither inflates the price of a
//! share.

use vstd::prelude::*;
use crate::asset::{Asset, Pool};
use crate::curve::{compute_d, spec_compute_d};
use crate::error::{ContractError, Feature};
use crate::fee::{Fee, DECIMAL_FRACTIONAL};
use crate::instruction::Instruction;
use crate::pair::FeatureToggle;
use crate::router::{
    deduct_pending_fees, find_asset, spec_after_fees, spec_covers_pending, spec_find_asset,
};
use crate::state::spec_fee_for;
use crate::wide::{mul_div, lemma_mul_div_le};

verus! {

/// Share amount permanently locked to the pool itself on the first
/// deposit, per asset slot, to keep the first depositor from squeezing
/// later, smaller providers out.
pub const MINIMUM_LIQUIDITY_AMOUNT: u128 = 1_000;

/// The shares the very first deposit mints: the invariant of the deposits
/// less the locked minimum (one minimum per asset slot); too small a
/// deposit is rejected.
pub open spec fn spec_first_deposit_share(deposits: Seq<u128>, amp: u64) -> Result<
    u128,
    ContractError,
> {
    match spec_compute_d(deposits, amp) {
        Err(e) => Err(e),
        Ok(d) => {
            let locked = MINIMUM_LIQUIDITY_AMOUNT * deposits.len();
            if d >= locked {
                Ok((d - locked) as u128)
            } else {
                Err(ContractError::InvalidInitialLiquidityAmount)
            }
        },
    }
}

/// Computes the shares the very first deposit mints, leaving the locked
/// minimum with the pool.
pub fn compute_first_deposit_share(deposits: &Vec<u128>, amp: u64) -> (r: Result<
    u128,
    ContractError,
>)
    requires
        1 <= amp,
        2 <= deposits@.len() <= 3,
    ensures
        r == spec_first_deposit_share(deposits@, amp),
{
    let d = match compute_d(deposits, amp) {
        Ok(v) => v,
        Err(e) => return Err(e),
    };
    let locked = MINIMUM_LIQUIDITY_AMOUNT * (deposits.len() as u128);
    match d.checked_sub(locked) {
        Some(v) => Ok(v),
        None => Err(ContractError::InvalidInitialLiquidityAmount),
    }
}

/// The reserves after the deposits arrive, entry by entry.
pub open spec fn spec_grown_reserves(reserves: Seq<u128>, deposits: Seq<u128>) -> Seq<u128> {
    Seq::new(reserves.len(), |i: int| (reserves[i] + deposits[i]) as u128)
}

/// Whether every grown reserve still fits the 128-bit range.
pub open spec fn spec_growth_fits(reserves: Seq<u128>, deposits: Seq<u128>) -> bool {
    forall|i: int|
        #![trigger reserves[i]]
        0 <= i < reserves.len() ==> reserves[i] + deposits[i] <= u128::MAX
}

/// The shares a later deposit mints: the total share scaled by the
/// relative growth of the invariant, rounded down.  A deposit that does
/// not grow the invariant is rejected.
pub open spec fn spec_mint_amount(
    deposits: Seq<u128>,
    reserves: Seq<u128>,
    total_share: u128,
    amp: u64,
) -> Result<u128, ContractError> {
    match spec_compute_d(reserves, amp) {
        Err(e) => Err(e),
        Ok(d0) => {
            if !spec_growth_fits(reserves, deposits) {
                Err(ContractError::OverflowError)
            } else {
                match spec_compute_d(spec_grown_reserves(reserves, deposits), amp) {
                    Err(e) => Err(e),
                    Ok(d1) => if d1 <= d0 {
                        Err(ContractError::InvalidInitialLiquidityAmount)
                    } else if d0 == 0 || (total_share * (d1 - d0)) / (d0 as int) > u128::MAX {
                        Err(ContractError::OverflowError)
                    } else {
                        Ok(((total_share * (d1 - d0)) / (d0 as int)) as u128)
                    },
                }
            }
        },
    }
}

/// Computes the shares minted for a deposit into a pool that already has
/// liquidity: `total_share * (D_after - D_before) / D_before`.
#[verifier::loop_isolation(false)]
pub fn compute_mint_amount_for_deposit(
    deposits: &Vec<u128>,
    reserves: &Vec<u128>,
    total_share: u128,
    amp: u64,
) -> (r: Result<u128, ContractError>)
    requires
        1 <= amp,
        2 <= reserves@.len() <= 3,
        deposits@.len() == reserves@.len(),
    ensures
        r == spec_mint_amount(deposits@, reserves@, total_share, amp),
{
    let d0 = match compute_d(reserves, amp) {
        Ok(v) => v,
        Err(e) => return Err(e),
    };
    let mut grown: Vec<u128> = Vec::new();
    let mut k: usize = 0;
    while k < reserves.len()
        invariant
            0 <= k <= reserves@.len(),
            grown@.len() == k,
            forall|i: int|
                #![trigger grown@[i]]
                0 <= i < k ==> grown@[i] == reserves@[i] + deposits@[i],
            forall|i: int|
                #![trigger reserves@[i]]
                0 <= i < k ==> reserves@[i] + deposits@[i] <= u128::MAX,
        decreases reserves@.len() - k,
    {
        let g = match reserves[k].checked_add(deposits[k]) {
            Some(v) => v,
            None => return Err(ContractError::OverflowError),
        };
        grown.push(g);
        k += 1;
    }
    proof {
        assert(grown@ =~= spec_grown_reserves(reserves@, deposits@));
    }
    let d1 = match compute_d(&grown, amp) {
        Ok(v) => v,
        Err(e) => return Err(e),
    };
    if d1 <= d0 {
        return Err(ContractError::InvalidInitialLiquidityAmount);
    }
    match mul_div(total_share, d1 - d0, d0) {
        Some(v) => Ok(v),
        None => Err(ContractError::OverflowError),
    }
}

/// The ideal-ratio tolerance check on a deposit, against the first asset's
/// ratio.  Each declared deposit, relative to its reserve, must stay
/// within the tolerance band of the first asset's ratio, both ways.
/// Ratios are in 18-digit fixed point, rounded down.  An empty pool (all
/// reserves zero) accepts any deposit; a partially empty one accepts none.
pub open spec fn spec_slippage_check(
    slippage_tolerance: Option<Fee>,
    deposits: Seq<u128>,
    reserves: Seq<u128>,
) -> Result<(), ContractError> {
    match slippage_tolerance {
        None => Ok(()),
        Some(st) => {
            if forall|i: int| #![trigger reserves[i]] 0 <= i < reserves.len() ==> reserves[i] == 0 {
                Ok(())
            } else if exists|i: int|
                #![trigger reserves[i]]
                0 <= i < reserves.len() && reserves[i] == 0 {
                Err(ContractError::MaxSpreadExceeded)
            } else {
                let ratios = Seq::new(
                    reserves.len(),
                    |i: int| (deposits[i] * DECIMAL_FRACTIONAL) / (reserves[i] as int),
                );
                if exists|i: int|
                    #![trigger ratios[i]]
                    0 <= i < ratios.len() && ratios[i] > u128::MAX {
                    Err(ContractError::OverflowError)
                } else if forall|i: int|
                    #![trigger ratios[i]]
                    0 <= i < ratios.len() ==> ((ratios[i] > ratios[0] ==> ratios[i] - ratios[0]
                        <= (ratios[0] * st.share_atomics) / (DECIMAL_FRACTIONAL as int)) && (
                    ratios[0] > ratios[i] ==> ratios[0] - ratios[i] <= (ratios[i]
                        * st.share_atomics) / (DECIMAL_FRACTIONAL as int))) {
                    Ok(())
                } else {
                    Err(ContractError::MaxSpreadExceeded)
                }
            }
        },
    }
}

/// Asserts that the declared deposit does not move any asset's ratio out
/// of the tolerance band.
#[verifier::loop_isolation(false)]
pub fn assert_slippage_tolerance(
    slippage_tolerance: Option<Fee>,
    deposits: &Vec<u128>,
    reserves: &Vec<u128>,
) -> (r: Result<(), ContractError>)
    requires
        deposits@.len() == reserves@.len(),
        1 <= reserves@.len(),
        slippage_tolerance matches Some(st) ==> st.is_valid(),
    ensures
        r == spec_slippage_check(slippage_tolerance, deposits@, reserves@),
{
    let st = match slippage_tolerance {
        None => return Ok(()),
        Some(st) => st,
    };
    let mut any_zero: bool = false;
    let mut all_zero: bool = true;
    let mut k: usize = 0;
    while k < reserves.len()
        invariant
            0 <= k <= reserves@.len(),
            any_zero == exists|i: int|
                #![trigger reserves@[i]]
                0 <= i < k && reserves@[i] == 0,
            all_zero == forall|i: int| #![trigger reserves@[i]] 0 <= i < k ==> reserves@[i] == 0,
        decreases reserves@.len() - k,
    {
        if reserves[k] == 0 {
            any_zero = true;
        } else {
            all_zero = false;
        }
        k += 1;
    }
    if all_zero {
        return Ok(());
    }
    if any_zero {
        return Err(ContractError::MaxSpreadExceeded);
    }

    let ghost ratios = Seq::new(
        reserves@.len(),
        |i: int| (deposits@[i] * DECIMAL_FRACTIONAL) / (reserves@[i] as int),
    );
    let mut ratio_vec: Vec<u128> = Vec::new();
    let mut k: usize = 0;
    while k < reserves.len()
        invariant
            0 <= k <= reserves@.len(),
            ratio_vec@.len() == k,
            forall|i: int| #![trigger reserves@[i]] 0 <= i < reserves@.len() ==> reserves@[i] > 0,
            forall|i: int| #![trigger ratio_vec@[i]] 0 <= i < k ==> ratio_vec@[i] == ratios[i],
        decreases reserves@.len() - k,
    {
        let ri = match mul_div(deposits[k], DECIMAL_FRACTIONAL, reserves[k]) {
            Some(v) => v,
            None => {
                proof {
                    assert(ratios[k as int] > u128::MAX);
                }
                return Err(ContractError::OverflowError);
            },
        };
        ratio_vec.push(ri);
        k += 1;
    }

    proof {
        assert forall|i: int| 0 <= i < ratios.len() implies ratios[i] <= u128::MAX by {
            assert(ratio_vec@[i] == ratios[i]);
        }
    }
    let r0 = ratio_vec[0];
    proof {
        lemma_mul_div_le(r0 as int, st.share_atomics as int, DECIMAL_FRACTIONAL as int);
        vstd::arithmetic::mul::lemma_mul_is_commutative(r0 as int, st.share_atomics as int);
    }
    let allowance0 = mul_div(r0, st.share_atomics, DECIMAL_FRACTIONAL).unwrap();
    let mut k: usize = 0;
    while k < ratio_vec.len()
        invariant
            0 <= k <= ratio_vec@.len(),
            forall|i: int|
                #![trigger ratios[i]]
                0 <= i < k ==> ((ratios[i] > ratios[0] ==> ratios[i] - ratios[0] <= (ratios[0]
                    * st.share_atomics) / (DECIMAL_FRACTIONAL as int)) && (ratios[0] > ratios[i]
                    ==> ratios[0] - ratios[i] <= (ratios[i] * st.share_atomics) / (
                DECIMAL_FRACTIONAL as int))),
        decreases ratio_vec@.len() - k,
    {
        let ri = ratio_vec[k];
        proof {
            lemma_mul_div_le(ri as int, st.share_atomics as int, DECIMAL_FRACTIONAL as int);
            vstd::arithmetic::mul::lemma_mul_is_commutative(ri as int, st.share_atomics as int);
        }
        let allowance_i = mul_div(ri, st.share_atomics, DECIMAL_FRACTIONAL).unwrap();
        if ri > r0 && ri - r0 > allowance0 {
            return Err(ContractError::MaxSpreadExceeded);
        }
        if r0 > ri && r0 - ri > allowance_i {
            return Err(ContractError::MaxSpreadExceeded);
        }
        k += 1;
    }
    Ok(())
}

/// The declared deposit amounts arranged in pool order: for each pool
/// slot, the amount of the first declared entry naming that asset; `None`
/// when some pool asset has no declared entry.
pub open spec fn spec_match_deposits(assets: Seq<Asset>, deposits: Seq<Asset>) -> Option<
    Seq<u128>,
> {
    if forall|i: int|
        #![trigger assets[i]]
        0 <= i < assets.len() ==> spec_find_asset(deposits, assets[i].info, 0) is Some {
        Some(
            Seq::new(
                assets.len(),
                |i: int| deposits[spec_find_asset(deposits, assets[i].info, 0)->Some_0].amount,
            ),
        )
    } else {
        None
    }
}

/// Whether every native reserve covers the deposit credited to it.
pub open spec fn spec_native_fits(assets: Seq<Asset>, amounts: Seq<u128>) -> bool {
    forall|i: int|
        #![trigger assets[i]]
        0 <= i < assets.len() ==> (assets[i].info.spec_is_native() ==> amounts[i]
            <= assets[i].amount)
}

/// The reserves with each native asset's just-credited deposit taken back
/// out; token reserves are untouched, their deposit arrives by a pull
/// instruction.
pub open spec fn spec_native_adjusted(assets: Seq<Asset>, amounts: Seq<u128>) -> Seq<Asset> {
    Seq::new(
        assets.len(),
        |i: int|
            if assets[i].info.spec_is_native() {
                Asset { info: assets[i].info, amount: (assets[i].amount - amounts[i]) as u128 }
            } else {
                assets[i]
            },
    )
}

/// The amounts of a reserve vector, in order.
pub open spec fn spec_amounts(assets: Seq<Asset>) -> Seq<u128> {
    Seq::new(assets.len(), |i: int| assets[i].amount)
}

/// The pull instructions for the token deposits from slot `k` on, in pool
/// order.
pub open spec fn spec_pull_actions(
    assets: Seq<Asset>,
    amounts: Seq<u128>,
    sender: String,
    k: int,
) -> Seq<Instruction>
    decreases assets.len() - k,
{
    if k >= assets.len() {
        Seq::empty()
    } else {
        let rest = spec_pull_actions(assets, amounts, sender, k + 1);
        if assets[k].info.spec_is_native() {
            rest
        } else {
            seq![
                Instruction::PullDeposit {
                    owner: sender,
                    asset: Asset { info: assets[k].info, amount: amounts[k] },
                },
            ] + rest
        }
    }
}

/// The shares a deposit mints, after every validation: feature toggle,
/// declared assets, nonzero amounts, native deposit exclusion, pending-fee
/// exclusion and the slippage band; the first deposit keeps the locked
/// minimum with the pool.
pub open spec fn spec_provide_share(
    assets: Seq<Asset>,
    collected: Seq<Asset>,
    deposits: Seq<Asset>,
    slippage_tolerance: Option<Fee>,
    total_share: u128,
    amp: u64,
    toggle: FeatureToggle,
) -> Result<u128, ContractError> {
    if !toggle.deposits_enabled {
        Err(ContractError::OperationDisabled(Feature::Deposits))
    } else {
        match spec_match_deposits(assets, deposits) {
            None => Err(ContractError::AssetMismatch),
            Some(amounts) => {
                if exists|i: int| #![trigger amounts[i]] 0 <= i < amounts.len() && amounts[i] == 0 {
                    Err(ContractError::InvalidZeroAmount)
                } else if !spec_native_fits(assets, amounts) {
                    Err(ContractError::OverflowError)
                } else {
                    let adjusted = spec_native_adjusted(assets, amounts);
                    if !spec_covers_pending(adjusted, collected) {
                        Err(ContractError::OverflowError)
                    } else {
                        let working = spec_amounts(spec_after_fees(adjusted, collected));
                        match spec_slippage_check(slippage_tolerance, amounts, working) {
                            Err(e) => Err(e),
                            Ok(_) => if total_share == 0 {
                                spec_first_deposit_share(amounts, amp)
                            } else {
                                spec_mint_amount(amounts, working, total_share, amp)
                            },
                        }
                    }
                }
            },
        }
    }
}

/// What a deposit produces: the minted shares and the instruction list.
#[derive(Debug)]
pub struct ProvideLiquidityResult {
    pub share: u128,
    pub actions: Vec<Instruction>,
}

/// Converts a deposit into minted shares: validates the declared amounts,
/// excludes native deposits and pending fees from the reserve snapshot,
/// asserts the slippage band, and prices the deposit with the invariant
/// solver.  The returned instructions pull the token deposits, then mint
/// the locked minimum to the pool itself on a first deposit, then mint the
/// depositor's shares to the receiver.
#[verifier::loop_isolation(false)]
pub fn provide_liquidity(
    pool: &Pool,
    collected_pending: &Vec<Asset>,
    deposits: &Vec<Asset>,
    slippage_tolerance: Option<Fee>,
    total_share: u128,
    amp: u64,
    toggle: &FeatureToggle,
    sender: &String,
    contract_addr: &String,
    receiver: &String,
) -> (r: Result<ProvideLiquidityResult, ContractError>)
    requires
        pool.is_valid(),
        1 <= amp,
        slippage_tolerance matches Some(st) ==> st.is_valid(),
    ensures
        match r {
            Ok(res) => {
                &&& spec_provide_share(
                    pool.assets@,
                    collected_pending@,
                    deposits@,
                    slippage_tolerance,
                    total_share,
                    amp,
                    *toggle,
                ) == Ok::<u128, ContractError>(res.share)
                &&& res.actions@ == spec_pull_actions(
                    pool.assets@,
                    spec_match_deposits(pool.assets@, deposits@)->Some_0,
                    *sender,
                    0,
                ) + (if total_share == 0 {
                    seq![
                        Instruction::MintShares {
                            recipient: *contract_addr,
                            amount: (MINIMUM_LIQUIDITY_AMOUNT * pool.assets@.len()) as u128,
                        },
                    ]
                } else {
                    Seq::<Instruction>::empty()
                }) + seq![Instruction::MintShares { recipient: *receiver, amount: res.share }]
            },
            Err(e) => spec_provide_share(
                pool.assets@,
                collected_pending@,
                deposits@,
                slippage_tolerance,
                total_share,
                amp,
                *toggle,
            ) == Err::<u128, ContractError>(e),
        },
{
    if !toggle.deposits_enabled {
        return Err(ContractError::OperationDisabled(Feature::Deposits));
    }
    let ghost assets_view = pool.assets@;

    // declared amounts in pool order
    let mut amounts: Vec<u128> = Vec::new();
    let mut k: usize = 0;
    while k < pool.assets.len()
        invariant
            0 <= k <= assets_view.len(),
            amounts@.len() == k,
            forall|i: int|
                #![trigger assets_view[i]]
                0 <= i < k ==> spec_find_asset(deposits@, assets_view[i].info, 0) is Some,
            forall|i: int|
                #![trigger amounts@[i]]
                0 <= i < k ==> amounts@[i] == deposits@[spec_find_asset(
                    deposits@,
                    assets_view[i].info,
                    0,
                )->Some_0].amount,
        decreases assets_view.len() - k,
    {
        let idx = match find_asset(deposits, &pool.assets[k].info) {
            Some(i) => i,
            None => {
                return Err(ContractError::AssetMismatch);
            },
        };
        amounts.push(deposits[idx].amount);
        k += 1;
    }
    proof {
        assert(spec_match_deposits(assets_view, deposits@) matches Some(m) && m =~= amounts@);
    }

    // reject a zero deposit
    let mut k: usize = 0;
    while k < amounts.len()
        invariant
            0 <= k <= amounts@.len(),
            forall|i: int| #![trigger amounts@[i]] 0 <= i < k ==> amounts@[i] != 0,
        decreases amounts@.len() - k,
    {
        if amounts[k] == 0 {
            return Err(ContractError::InvalidZeroAmount);
        }
        k += 1;
    }

    // exclude native deposits from the snapshot; pull token deposits
    let mut adjusted: Vec<Asset> = Vec::new();
    let mut actions: Vec<Instruction> = Vec::new();
    let mut k: usize = 0;
    while k < pool.assets.len()
        invariant
            0 <= k <= assets_view.len(),
            amounts@.len() == assets_view.len(),
            adjusted@.len() == k,
            forall|i: int|
                #![trigger adjusted@[i]]
                0 <= i < k ==> adjusted@[i] == spec_native_adjusted(assets_view, amounts@)[i],
            forall|i: int|
                #![trigger assets_view[i]]
                0 <= i < k ==> (assets_view[i].info.spec_is_native() ==> amounts@[i]
                    <= assets_view[i].amount),
            spec_pull_actions(assets_view, amounts@, *sender, 0) == actions@ + spec_pull_actions(
                assets_view,
                amounts@,
                *sender,
                k as int,
            ),
        decreases assets_view.len() - k,
    {
        let ghost actions_old = actions@;
        if pool.assets[k].info.is_native_token() {
            let amt = match pool.assets[k].amount.checked_sub(amounts[k]) {
                Some(v) => v,
                None => return Err(ContractError::OverflowError),
            };
            adjusted.push(Asset { info: pool.assets[k].info.clone(), amount: amt });
        } else {
            adjusted.push(pool.assets[k].clone());
            actions.push(
                Instruction::PullDeposit {
                    owner: sender.clone(),
                    asset: Asset { info: pool.assets[k].info.clone(), amount: amounts[k] },
                },
            );
            proof {
                assert(actions@ =~= actions_old + seq![
                    Instruction::PullDeposit {
                        owner: *sender,
                        asset: Asset { info: assets_view[k as int].info, amount: amounts@[k as int] },
                    },
                ]);
                assert(actions_old + seq![
                    Instruction::PullDeposit {
                        owner: *sender,
                        asset: Asset { info: assets_view[k as int].info, amount: amounts@[k as int] },
                    },
                ] + spec_pull_actions(assets_view, amounts@, *sender, k + 1) =~= actions_old + (seq![
                    Instruction::PullDeposit {
                        owner: *sender,
                        asset: Asset { info: assets_view[k as int].info, amount: amounts@[k as int] },
                    },
                ] + spec_pull_actions(assets_view, amounts@, *sender, k + 1)));
            }
        }
        k += 1;
    }
    proof {
        assert(adjusted@ =~= spec_native_adjusted(assets_view, amounts@));
        assert(spec_pull_actions(assets_view, amounts@, *sender, assets_view.len() as int)
            =~= Seq::<Instruction>::empty());
        assert(actions@ =~= spec_pull_actions(assets_view, amounts@, *sender, 0));
    }

    // exclude pending fees
    let working_assets = match deduct_pending_fees(&adjusted, collected_pending) {
        Ok(v) => v,
        Err(e) => return Err(e),
    };
    let mut working: Vec<u128> = Vec::new();
    let mut k: usize = 0;
    while k < working_assets.len()
        invariant
            0 <= k <= working_assets@.len(),
            working@.len() == k,
            forall|i: int|
                #![trigger working@[i]]
                0 <= i < k ==> working@[i] == working_assets@[i].amount,
        decreases working_assets@.len() - k,
    {
        working.push(working_assets[k].amount);
        k += 1;
    }
    proof {
        assert(working@ =~= spec_amounts(working_assets@));
    }

    // the declared ratios must stay inside the tolerance band
    match assert_slippage_tolerance(slippage_tolerance, &amounts, &working) {
        Ok(_) => (),
        Err(e) => return Err(e),
    }

    let ghost pulls = actions@;
    let share: u128;
    if total_share == 0 {
        share = match compute_first_deposit_share(&amounts, amp) {
            Ok(v) => v,
            Err(e) => return Err(e),
        };
        let locked = MINIMUM_LIQUIDITY_AMOUNT * (pool.assets.len() as u128);
        actions.push(Instruction::MintShares { recipient: contract_addr.clone(), amount: locked });
    } else {
        share = match compute_mint_amount_for_deposit(&amounts, &working, total_share, amp) {
            Ok(v) => v,
            Err(e) => return Err(e),
        };
    }
    actions.push(Instruction::MintShares { recipient: receiver.clone(), amount: share });
    proof {
        assert(actions@ =~= pulls + (if total_share == 0 {
            seq![
                Instruction::MintShares {
                    recipient: *contract_addr,
                    amount: (MINIMUM_LIQUIDITY_AMOUNT * assets_view.len()) as u128,
                },
            ]
        } else {
            Seq::<Instruction>::empty()
        }) + seq![Instruction::MintShares { recipient: *receiver, amount: share }]);
    }
    Ok(ProvideLiquidityResult { share, actions })
}

/// The pending-fee-adjusted refunds a share burn pays out: each reserve
/// net of its pending fee, scaled by the burned fraction of the total
/// share, rounded down.
pub open spec fn spec_withdraw_refunds(
    assets: Seq<Asset>,
    collected: Seq<Asset>,
    burn_amount: u128,
    total_share: u128,
    toggle: FeatureToggle,
) -> Result<Seq<Asset>, ContractError> {
    if !toggle.withdrawals_enabled {
        Err(ContractError::OperationDisabled(Feature::Withdrawals))
    } else {
        let ratio = (burn_amount * DECIMAL_FRACTIONAL) / (total_share as int);
        if ratio > u128::MAX {
            Err(ContractError::OverflowError)
        } else if !spec_covers_pending(assets, collected) {
            Err(ContractError::OverflowError)
        } else {
            let after = spec_after_fees(assets, collected);
            if exists|i: int|
                #![trigger after[i]]
                0 <= i < after.len() && (after[i].amount * ratio) / (DECIMAL_FRACTIONAL as int)
                    > u128::MAX {
                Err(ContractError::OverflowError)
            } else {
                Ok(
                    Seq::new(
                        after.len(),
                        |i: int|
                            Asset {
                                info: after[i].info,
                                amount: ((after[i].amount * ratio) / (
                                DECIMAL_FRACTIONAL as int)) as u128,
                            },
                    ),
                )
            }
        }
    }
}

/// What a share burn produces: the refunds and the instruction list.
#[derive(Debug)]
pub struct WithdrawLiquidityResult {
    pub refund_assets: Vec<Asset>,
    pub actions: Vec<Instruction>,
}

/// Converts a share burn into proportional refunds of every pool asset,
/// each net of its pending fees.  The returned instructions pay each
/// refund to the withdrawing owner and burn the returned shares.  Any
/// failing per-asset subtraction aborts the whole withdrawal.
#[verifier::loop_isolation(false)]
pub fn withdraw_liquidity(
    pool: &Pool,
    collected_pending: &Vec<Asset>,
    burn_amount: u128,
    total_share: u128,
    toggle: &FeatureToggle,
    sender: &String,
) -> (r: Result<WithdrawLiquidityResult, ContractError>)
    requires
        total_share > 0,
    ensures
        match r {
            Ok(res) => {
                &&& spec_withdraw_refunds(
                    pool.assets@,
                    collected_pending@,
                    burn_amount,
                    total_share,
                    *toggle,
                ) == Ok::<Seq<Asset>, ContractError>(res.refund_assets@)
                &&& res.actions@ == Seq::new(
                    res.refund_assets@.len(),
                    |i: int|
                        Instruction::Transfer {
                            recipient: *sender,
                            asset: res.refund_assets@[i],
                        },
                ) + seq![Instruction::BurnShares { amount: burn_amount }]
            },
            Err(e) => spec_withdraw_refunds(
                pool.assets@,
                collected_pending@,
                burn_amount,
                total_share,
                *toggle,
            ) == Err::<Seq<Asset>, ContractError>(e),
        },
{
    if !toggle.withdrawals_enabled {
        return Err(ContractError::OperationDisabled(Feature::Withdrawals));
    }
    let ratio = match mul_div(burn_amount, DECIMAL_FRACTIONAL, total_share) {
        Some(v) => v,
        None => return Err(ContractError::OverflowError),
    };
    let after = match deduct_pending_fees(&pool.assets, collected_pending) {
        Ok(v) => v,
        Err(e) => return Err(e),
    };
    let ghost after_view = spec_after_fees(pool.assets@, collected_pending@);
    let mut refund_assets: Vec<Asset> = Vec::new();
    let mut actions: Vec<Instruction> = Vec::new();
    let mut k: usize = 0;
    while k < after.len()
        invariant
            0 <= k <= after_view.len(),
            after@ == after_view,
            refund_assets@.len() == k,
            actions@.len() == k,
            forall|i: int|
                #![trigger after_view[i]]
                0 <= i < k ==> (after_view[i].amount * ratio) / (DECIMAL_FRACTIONAL as int)
                    <= u128::MAX,
            forall|i: int|
                #![trigger refund_assets@[i]]
                0 <= i < k ==> refund_assets@[i] == (Asset {
                    info: after_view[i].info,
                    amount: ((after_view[i].amount * ratio) / (DECIMAL_FRACTIONAL as int)) as u128,
                }),
            forall|i: int|
                #![trigger actions@[i]]
                0 <= i < k ==> actions@[i] == (Instruction::Transfer {
                    recipient: *sender,
                    asset: refund_assets@[i],
                }),
        decreases after_view.len() - k,
    {
        let amount = match mul_div(after[k].amount, ratio, DECIMAL_FRACTIONAL) {
            Some(v) => v,
            None => {
                proof {
                    assert((after_view[k as int].amount * ratio) / (DECIMAL_FRACTIONAL as int)
                        > u128::MAX);
                }
                return Err(ContractError::OverflowError);
            },
        };
        let refund = Asset { info: after[k].info.clone(), amount };
        refund_assets.push(refund.clone());
        actions.push(Instruction::Transfer { recipient: sender.clone(), asset: refund });
        k += 1;
    }
    actions.push(Instruction::BurnShares { amount: burn_amount });
    proof {
        assert(refund_assets@ =~= spec_withdraw_refunds(
            pool.assets@,
            collected_pending@,
            burn_amount,
            total_share,
            *toggle,
        )->Ok_0);
        assert(actions@ =~= Seq::new(
            refund_assets@.len(),
            |i: int| Instruction::Transfer { recipient: *sender, asset: refund_assets@[i] },
        ) + seq![Instruction::BurnShares { amount: burn_amount }]);
    }
    Ok(WithdrawLiquidityResult { refund_assets, actions })
}

} // verus!
