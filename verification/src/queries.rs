//! The read-only views of the pool: reserves net of pending fees, swap
//! and reverse-swap simulations, and the fee ledgers.  Simulation paths
//! never apply the native-deposit correction of the execute path: there
//! is no pending deposit to correct for.

use vstd::prelude::*;
use crate::amp::AmplificationSchedule;
use crate::asset::{Asset, AssetInfo, Pool};
use crate::error::ContractError;
use crate::fee::{PoolFee, SwapComputation};
use crate::pair::{PoolResponse, ProtocolFeesResponse, ReverseSimulationResponse, SimulationResponse};
use crate::router::{deduct_pending_fees, resolve_roles, spec_after_fees, spec_covers_pending, spec_find_asset};
use crate::commands::spec_unswapped_from;
use crate::state::clone_assets;
use crate::swap::{
    compute_offer_amount, compute_swap, spec_compute_offer_amount, spec_compute_swap,
    OfferAmountComputation,
};

verus! {

/// The reserves net of pending fees, with the total share.
pub fn query_pool(pool: &Pool, collected_pending: &Vec<Asset>, total_share: u128) -> (r: Result<
    PoolResponse,
    ContractError,
>)
    ensures
        r is Ok <==> spec_covers_pending(pool.assets@, collected_pending@),
        r is Err ==> r == Err::<PoolResponse, ContractError>(ContractError::OverflowError),
        r matches Ok(resp) ==> {
            &&& resp.assets@ == spec_after_fees(pool.assets@, collected_pending@)
            &&& resp.total_share == total_share
        },
{
    let assets = match deduct_pending_fees(&pool.assets, collected_pending) {
        Ok(v) => v,
        Err(e) => return Err(e),
    };
    Ok(PoolResponse { assets, total_share })
}

/// What a swap would yield, priced on the pending-fee-adjusted reserves.
pub open spec fn spec_simulation(
    assets: Seq<Asset>,
    pending: Seq<Asset>,
    offer: Asset,
    ask_info: AssetInfo,
    fees: PoolFee,
    amp: u64,
) -> Result<SwapComputation, ContractError> {
    if offer.info.spec_eq(&ask_info) || spec_find_asset(assets, offer.info, 0) is None
        || spec_find_asset(assets, ask_info, 0) is None {
        Err(ContractError::AssetMismatch)
    } else {
        let oi = spec_find_asset(assets, offer.info, 0)->Some_0;
        let ai = spec_find_asset(assets, ask_info, 0)->Some_0;
        if !spec_covers_pending(assets, pending) {
            Err(ContractError::OverflowError)
        } else {
            let af = spec_after_fees(assets, pending);
            spec_compute_swap(
                af[oi].amount,
                af[ai].amount,
                spec_unswapped_from(af, oi, ai, 0),
                offer.amount,
                fees,
                amp,
            )
        }
    }
}

/// Simulates a swap: how much of the ask asset `offer_asset` would buy,
/// and the spread and fee portions it would incur.
#[verifier::loop_isolation(false)]
pub fn query_simulation(
    pool: &Pool,
    collected_pending: &Vec<Asset>,
    pool_fees: &PoolFee,
    amp_schedule: &AmplificationSchedule,
    block: u64,
    offer_asset: &Asset,
    ask_info: &AssetInfo,
) -> (r: Result<SimulationResponse, ContractError>)
    requires
        pool.is_valid(),
        amp_schedule.is_valid(),
        pool_fees.each_valid(),
    ensures
        match r {
            Ok(resp) => spec_simulation(
                pool.assets@,
                collected_pending@,
                *offer_asset,
                *ask_info,
                *pool_fees,
                amp_schedule.spec_amp(block) as u64,
            ) == Ok::<SwapComputation, ContractError>(
                SwapComputation {
                    return_amount: resp.return_amount,
                    spread_amount: resp.spread_amount,
                    swap_fee_amount: resp.swap_fee_amount,
                    protocol_fee_amount: resp.protocol_fee_amount,
                    burn_fee_amount: resp.burn_fee_amount,
                },
            ),
            Err(e) => spec_simulation(
                pool.assets@,
                collected_pending@,
                *offer_asset,
                *ask_info,
                *pool_fees,
                amp_schedule.spec_amp(block) as u64,
            ) == Err::<SwapComputation, ContractError>(e),
        },
{
    let amp = amp_schedule.amp_factor(block);
    let roles = match resolve_roles(&pool.assets, &offer_asset.info, ask_info) {
        Ok(v) => v,
        Err(e) => return Err(e),
    };
    let after_fees = match deduct_pending_fees(&pool.assets, collected_pending) {
        Ok(v) => v,
        Err(e) => return Err(e),
    };
    let offer_pool = after_fees[roles.offer_idx].amount;
    let ask_pool = after_fees[roles.ask_idx].amount;
    let ghost af = after_fees@;
    let ghost oi = roles.offer_idx as int;
    let ghost ai = roles.ask_idx as int;
    let mut unswapped: Vec<u128> = Vec::new();
    let mut k: usize = 0;
    while k < after_fees.len()
        invariant
            0 <= k <= af.len(),
            unswapped@.len() == k - (if oi < k {
                1int
            } else {
                0int
            }) - (if ai < k {
                1int
            } else {
                0int
            }),
            spec_unswapped_from(af, oi, ai, 0) == unswapped@ + spec_unswapped_from(
                af,
                oi,
                ai,
                k as int,
            ),
        decreases af.len() - k,
    {
        let ghost unswapped_old = unswapped@;
        if k != roles.offer_idx && k != roles.ask_idx {
            unswapped.push(after_fees[k].amount);
            proof {
                assert(unswapped@ =~= unswapped_old + seq![af[k as int].amount]);
                assert(unswapped_old + seq![af[k as int].amount] + spec_unswapped_from(
                    af,
                    oi,
                    ai,
                    k + 1,
                ) =~= unswapped_old + (seq![af[k as int].amount] + spec_unswapped_from(
                    af,
                    oi,
                    ai,
                    k + 1,
                )));
            }
        }
        k += 1;
    }
    proof {
        assert(spec_unswapped_from(af, oi, ai, af.len() as int) =~= Seq::<u128>::empty());
        assert(unswapped@ =~= spec_unswapped_from(af, oi, ai, 0));
    }
    let sc = match compute_swap(
        offer_pool,
        ask_pool,
        &unswapped,
        offer_asset.amount,
        pool_fees,
        amp,
    ) {
        Ok(v) => v,
        Err(e) => return Err(e),
    };
    Ok(
        SimulationResponse {
            return_amount: sc.return_amount,
            spread_amount: sc.spread_amount,
            swap_fee_amount: sc.swap_fee_amount,
            protocol_fee_amount: sc.protocol_fee_amount,
            burn_fee_amount: sc.burn_fee_amount,
        },
    )
}

/// What must be offered so a swap yields the asked amount, priced on the
/// pending-fee-adjusted reserves.
pub open spec fn spec_reverse_simulation(
    assets: Seq<Asset>,
    pending: Seq<Asset>,
    ask: Asset,
    offer_info: AssetInfo,
    fees: PoolFee,
    amp: u64,
) -> Result<OfferAmountComputation, ContractError> {
    if offer_info.spec_eq(&ask.info) || spec_find_asset(assets, offer_info, 0) is None
        || spec_find_asset(assets, ask.info, 0) is None {
        Err(ContractError::AssetMismatch)
    } else {
        let oi = spec_find_asset(assets, offer_info, 0)->Some_0;
        let ai = spec_find_asset(assets, ask.info, 0)->Some_0;
        if !spec_covers_pending(assets, pending) {
            Err(ContractError::OverflowError)
        } else {
            let af = spec_after_fees(assets, pending);
            spec_compute_offer_amount(
                af[oi].amount,
                af[ai].amount,
                spec_unswapped_from(af, oi, ai, 0),
                ask.amount,
                fees,
                amp,
            )
        }
    }
}

/// Simulates a reverse swap: how much of the offer asset is needed so
/// that the trader is left with `ask_asset` after fees.
#[verifier::loop_isolation(false)]
pub fn query_reverse_simulation(
    pool: &Pool,
    collected_pending: &Vec<Asset>,
    pool_fees: &PoolFee,
    amp_schedule: &AmplificationSchedule,
    block: u64,
    ask_asset: &Asset,
    offer_info: &AssetInfo,
) -> (r: Result<ReverseSimulationResponse, ContractError>)
    requires
        pool.is_valid(),
        amp_schedule.is_valid(),
        pool_fees.is_valid(),
    ensures
        match r {
            Ok(resp) => spec_reverse_simulation(
                pool.assets@,
                collected_pending@,
                *ask_asset,
                *offer_info,
                *pool_fees,
                amp_schedule.spec_amp(block) as u64,
            ) == Ok::<OfferAmountComputation, ContractError>(
                OfferAmountComputation {
                    offer_amount: resp.offer_amount,
                    spread_amount: resp.spread_amount,
                    swap_fee_amount: resp.swap_fee_amount,
                    protocol_fee_amount: resp.protocol_fee_amount,
                    burn_fee_amount: resp.burn_fee_amount,
                },
            ),
            Err(e) => spec_reverse_simulation(
                pool.assets@,
                collected_pending@,
                *ask_asset,
                *offer_info,
                *pool_fees,
                amp_schedule.spec_amp(block) as u64,
            ) == Err::<OfferAmountComputation, ContractError>(e),
        },
{
    let amp = amp_schedule.amp_factor(block);
    let roles = match resolve_roles(&pool.assets, offer_info, &ask_asset.info) {
        Ok(v) => v,
        Err(e) => return Err(e),
    };
    let after_fees = match deduct_pending_fees(&pool.assets, collected_pending) {
        Ok(v) => v,
        Err(e) => return Err(e),
    };
    let offer_pool = after_fees[roles.offer_idx].amount;
    let ask_pool = after_fees[roles.ask_idx].amount;
    let ghost af = after_fees@;
    let ghost oi = roles.offer_idx as int;
    let ghost ai = roles.ask_idx as int;
    let mut unswapped: Vec<u128> = Vec::new();
    let mut k: usize = 0;
    while k < after_fees.len()
        invariant
            0 <= k <= af.len(),
            unswapped@.len() == k - (if oi < k {
                1int
            } else {
                0int
            }) - (if ai < k {
                1int
            } else {
                0int
            }),
            spec_unswapped_from(af, oi, ai, 0) == unswapped@ + spec_unswapped_from(
                af,
                oi,
                ai,
                k as int,
            ),
        decreases af.len() - k,
    {
        let ghost unswapped_old = unswapped@;
        if k != roles.offer_idx && k != roles.ask_idx {
            unswapped.push(after_fees[k].amount);
            proof {
                assert(unswapped@ =~= unswapped_old + seq![af[k as int].amount]);
                assert(unswapped_old + seq![af[k as int].amount] + spec_unswapped_from(
                    af,
                    oi,
                    ai,
                    k + 1,
                ) =~= unswapped_old + (seq![af[k as int].amount] + spec_unswapped_from(
                    af,
                    oi,
                    ai,
                    k + 1,
                )));
            }
        }
        k += 1;
    }
    proof {
        assert(spec_unswapped_from(af, oi, ai, af.len() as int) =~= Seq::<u128>::empty());
        assert(unswapped@ =~= spec_unswapped_from(af, oi, ai, 0));
    }
    let oc = match compute_offer_amount(
        offer_pool,
        ask_pool,
        &unswapped,
        ask_asset.amount,
        pool_fees,
        amp,
    ) {
        Ok(v) => v,
        Err(e) => return Err(e),
    };
    Ok(
        ReverseSimulationResponse {
            offer_amount: oc.offer_amount,
            spread_amount: oc.spread_amount,
            swap_fee_amount: oc.swap_fee_amount,
            protocol_fee_amount: oc.protocol_fee_amount,
            burn_fee_amount: oc.burn_fee_amount,
        },
    )
}

/// The ledger entries whose identifier is `id`, from entry `k` on.
pub open spec fn spec_filter_fees(fees: Seq<Asset>, id: Seq<char>, k: int) -> Seq<Asset>
    decreases fees.len() - k,
{
    if k >= fees.len() {
        Seq::empty()
    } else {
        let rest = spec_filter_fees(fees, id, k + 1);
        if fees[k].info.spec_id() == id {
            seq![fees[k]] + rest
        } else {
            rest
        }
    }
}

/// Reads a fee ledger: the all-time entries when asked for them, the
/// entries of one asset when an identifier is given, the whole pending
/// ledger otherwise.
#[verifier::loop_isolation(false)]
pub fn query_fees(
    fees: &Vec<Asset>,
    all_time_fees: Option<&Vec<Asset>>,
    asset_id: Option<&String>,
    all_time: Option<bool>,
) -> (r: ProtocolFeesResponse)
    ensures
        (all_time == Some(true) && all_time_fees is Some) ==> r.fees@ == all_time_fees->0@,
        !(all_time == Some(true) && all_time_fees is Some) ==> match asset_id {
            Some(id) => r.fees@ == spec_filter_fees(fees@, id@, 0),
            None => r.fees@ == fees@,
        },
{
    if let Some(true) = all_time {
        if let Some(at) = all_time_fees {
            return ProtocolFeesResponse { fees: clone_assets(at) };
        }
    }
    match asset_id {
        Some(id) => {
            let mut out: Vec<Asset> = Vec::new();
            let mut k: usize = 0;
            while k < fees.len()
                invariant
                    0 <= k <= fees@.len(),
                    spec_filter_fees(fees@, id@, 0) == out@ + spec_filter_fees(
                        fees@,
                        id@,
                        k as int,
                    ),
                decreases fees@.len() - k,
            {
                let ghost out_old = out@;
                let entry_id = fees[k].info.get_id();
                if entry_id == *id {
                    out.push(fees[k].clone());
                    proof {
                        assert(out@ =~= out_old + seq![fees@[k as int]]);
                        assert(out_old + seq![fees@[k as int]] + spec_filter_fees(
                            fees@,
                            id@,
                            k + 1,
                        ) =~= out_old + (seq![fees@[k as int]] + spec_filter_fees(
                            fees@,
                            id@,
                            k + 1,
                        )));
                    }
                }
                k += 1;
            }
            proof {
                assert(spec_filter_fees(fees@, id@, fees@.len() as int) =~= Seq::<Asset>::empty());
                assert(out@ =~= spec_filter_fees(fees@, id@, 0));
            }
            ProtocolFeesResponse { fees: out }
        },
        None => ProtocolFeesResponse { fees: clone_assets(fees) },
    }
}

} // verus!
