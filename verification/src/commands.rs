//! The state-mutating operations: the swap itself, the protocol-fee
//! collection sweep, configuration updates, and the authorization rules
//! for callers.  Every operation computes its complete outcome — the new
//! ledgers and the instruction list — before anything is handed back, so
//! an error path changes nothing.

use vstd::prelude::*;
use crate::amp::{AmplificationSchedule, MAX_AMP};
use crate::asset::{Asset, AssetInfo, Pool};
use crate::error::{ContractError, Feature};
use crate::fee::{Fee, PoolFee, SwapComputation};
use crate::instruction::Instruction;
use crate::pair::FeatureToggle;
use crate::router::{
    deduct_offer_deposit, deduct_pending_fees, resolve_roles, spec_after_fees,
    spec_covers_deposit, spec_covers_pending, spec_deposit_adjusted, spec_find_asset,
};
use crate::state::{clone_assets, spec_store_fee, store_fee, FeeLedger};
use crate::swap::{assert_max_spread, compute_swap, spec_compute_swap, spec_max_spread_check};

verus! {

/// The pool's configuration.
#[derive(Debug)]
pub struct Config {
    pub owner: String,
    pub fee_collector_addr: String,
    pub pool_fees: PoolFee,
    pub feature_toggle: FeatureToggle,
    pub amp_schedule: AmplificationSchedule,
}

impl Config {
    /// The fee schedule and the amplification ramp are within bounds.
    pub open spec fn is_valid(&self) -> bool {
        self.pool_fees.is_valid() && self.amp_schedule.is_valid()
    }
}

/// Applies the owner's configuration changes: each field is replaced
/// exactly when a new value is given; an invalid fee schedule or
/// amplification factor is rejected, and only the owner may update.
pub fn update_config(
    config: &Config,
    sender: &String,
    owner: Option<String>,
    fee_collector_addr: Option<String>,
    pool_fees: Option<PoolFee>,
    feature_toggle: Option<FeatureToggle>,
    amp_factor: Option<u64>,
) -> (r: Result<Config, ContractError>)
    ensures
        sender@ == config.owner@ && (pool_fees matches Some(f) ==> f.is_valid()) && (
        amp_factor matches Some(a) ==> 1 <= a <= MAX_AMP) ==> r is Ok,
        sender@ != config.owner@ ==> r == Err::<Config, ContractError>(ContractError::Unauthorized),
        sender@ == config.owner@ && (pool_fees matches Some(f) && !f.is_valid()) ==> r == Err::<
            Config,
            ContractError,
        >(ContractError::InvalidFee),
        sender@ == config.owner@ && (pool_fees matches Some(f) ==> f.is_valid()) && (
        amp_factor matches Some(a) && !(1 <= a <= MAX_AMP)) ==> r == Err::<Config, ContractError>(
            ContractError::InvalidAmpFactor,
        ),
        r matches Ok(c) ==> {
            &&& sender@ == config.owner@
            &&& c.owner == (if owner is Some {
                owner->0
            } else {
                config.owner
            })
            &&& c.fee_collector_addr == (if fee_collector_addr is Some {
                fee_collector_addr->0
            } else {
                config.fee_collector_addr
            })
            &&& c.pool_fees == (if pool_fees is Some {
                pool_fees->0
            } else {
                config.pool_fees
            })
            &&& c.pool_fees.is_valid() || pool_fees is None
            &&& c.feature_toggle == (if feature_toggle is Some {
                feature_toggle->0
            } else {
                config.feature_toggle
            })
            &&& c.amp_schedule == (match amp_factor {
                Some(a) => AmplificationSchedule {
                    initial_amp: a,
                    future_amp: a,
                    initial_amp_block: 0,
                    future_amp_block: 0,
                },
                None => config.amp_schedule,
            })
        },
{
    if !(*sender == config.owner) {
        return Err(ContractError::Unauthorized);
    }
    if let Some(f) = pool_fees {
        if !f.validate() {
            return Err(ContractError::InvalidFee);
        }
    }
    if let Some(a) = amp_factor {
        if a < 1 || a > MAX_AMP {
            return Err(ContractError::InvalidAmpFactor);
        }
    }
    let new_owner = match owner {
        Some(o) => o,
        None => config.owner.clone(),
    };
    let new_collector = match fee_collector_addr {
        Some(a) => a,
        None => config.fee_collector_addr.clone(),
    };
    let new_fees = match pool_fees {
        Some(f) => f,
        None => config.pool_fees,
    };
    let new_toggle = match feature_toggle {
        Some(t) => t,
        None => config.feature_toggle,
    };
    let new_schedule = match amp_factor {
        Some(a) => AmplificationSchedule {
            initial_amp: a,
            future_amp: a,
            initial_amp_block: 0,
            future_amp_block: 0,
        },
        None => config.amp_schedule,
    };
    Ok(
        Config {
            owner: new_owner,
            fee_collector_addr: new_collector,
            pool_fees: new_fees,
            feature_toggle: new_toggle,
            amp_schedule: new_schedule,
        },
    )
}

/// Only one of the pool's own token contracts may start a swap through a
/// token-transfer hook.
pub open spec fn spec_is_pool_token(assets: Seq<Asset>, sender: Seq<char>) -> bool {
    exists|i: int|
        #![trigger assets[i]]
        0 <= i < assets.len() && !assets[i].info.spec_is_native() && assets[i].info.spec_id()
            == sender
}

/// Authorizes a swap arriving through a token-transfer hook: the sending
/// contract must be one of the pool's token assets.
#[verifier::loop_isolation(false)]
pub fn authorize_cw20_swap(assets: &Vec<Asset>, sender: &String) -> (r: Result<
    (),
    ContractError,
>)
    ensures
        r is Ok <==> spec_is_pool_token(assets@, sender@),
        r is Err ==> r == Err::<(), ContractError>(ContractError::Unauthorized),
{
    let mut k: usize = 0;
    while k < assets.len()
        invariant
            0 <= k <= assets@.len(),
            forall|i: int|
                #![trigger assets@[i]]
                0 <= i < k ==> (assets@[i].info.spec_is_native() || assets@[i].info.spec_id()
                    != sender@),
        decreases assets@.len() - k,
    {
        if !assets[k].info.is_native_token() {
            let id = assets[k].info.get_id();
            if id == *sender {
                return Ok(());
            }
        }
        k += 1;
    }
    Err(ContractError::Unauthorized)
}

/// Authorizes a directly submitted swap: only a native coin can be
/// offered this way; a token swap must come through the token's own
/// transfer hook, which proves the tokens really moved.
pub fn authorize_direct_swap(offer_info: &AssetInfo) -> (r: Result<(), ContractError>)
    ensures
        r is Ok <==> offer_info.spec_is_native(),
        r is Err ==> r == Err::<(), ContractError>(ContractError::Unauthorized),
{
    if offer_info.is_native_token() {
        Ok(())
    } else {
        Err(ContractError::Unauthorized)
    }
}

/// The working reserves of the slots that stay out of the trade, from
/// slot `k` on, in pool order.
pub open spec fn spec_unswapped_from(adj: Seq<Asset>, oi: int, ai: int, k: int) -> Seq<u128>
    decreases adj.len() - k,
{
    if k >= adj.len() {
        Seq::empty()
    } else if k == oi || k == ai {
        spec_unswapped_from(adj, oi, ai, k + 1)
    } else {
        seq![adj[k].amount] + spec_unswapped_from(adj, oi, ai, k + 1)
    }
}

/// The outcome a swap commits: toggle, role resolution, working reserves
/// (pending fees out, the native offer deposit out), the invariant solve
/// with the fee split, and the slippage assertion.
pub open spec fn spec_swap_outcome(
    assets: Seq<Asset>,
    pending: Seq<Asset>,
    offer: Asset,
    ask_info: AssetInfo,
    fees: PoolFee,
    amp: u64,
    toggle: FeatureToggle,
    belief_price_atomics: Option<u128>,
    max_spread: Option<Fee>,
) -> Result<SwapComputation, ContractError> {
    if !toggle.swaps_enabled {
        Err(ContractError::OperationDisabled(Feature::Swaps))
    } else if offer.info.spec_eq(&ask_info) || spec_find_asset(assets, offer.info, 0) is None
        || spec_find_asset(assets, ask_info, 0) is None {
        Err(ContractError::AssetMismatch)
    } else {
        let oi = spec_find_asset(assets, offer.info, 0)->Some_0;
        let ai = spec_find_asset(assets, ask_info, 0)->Some_0;
        if !spec_covers_pending(assets, pending) {
            Err(ContractError::OverflowError)
        } else {
            let af = spec_after_fees(assets, pending);
            if !spec_covers_deposit(af, offer.info, offer.amount) {
                Err(ContractError::OverflowError)
            } else {
                let adj = spec_deposit_adjusted(af, offer.info, offer.amount);
                match spec_compute_swap(
                    adj[oi].amount,
                    adj[ai].amount,
                    spec_unswapped_from(adj, oi, ai, 0),
                    offer.amount,
                    fees,
                    amp,
                ) {
                    Err(e) => Err(e),
                    Ok(sc) => match spec_max_spread_check(
                        belief_price_atomics,
                        max_spread,
                        offer.amount,
                        sc.return_amount,
                        sc.spread_amount,
                    ) {
                        Err(e) => Err(e),
                        Ok(_) => Ok(sc),
                    },
                }
            }
        }
    }
}

/// Whether the ledgers can absorb a priced swap's fee records: the
/// protocol fee on both horizons and, when there is one, the burn fee on
/// its all-time ledger, all keyed by the ask asset.
pub open spec fn spec_swap_records_fit(
    assets: Seq<Asset>,
    pending: Seq<Asset>,
    all_time: Seq<Asset>,
    burned: Seq<Asset>,
    ask_info: AssetInfo,
    sc: SwapComputation,
) -> bool {
    let ask_id = spec_find_ask_id(assets, ask_info);
    &&& spec_store_fee(pending, ask_id, sc.protocol_fee_amount) is Ok
    &&& spec_store_fee(all_time, ask_id, sc.protocol_fee_amount) is Ok
    &&& (sc.burn_fee_amount == 0 || spec_store_fee(burned, ask_id, sc.burn_fee_amount) is Ok)
}

/// Everything a committed swap produces: the computation, the updated
/// ledgers, and the payment and burn instructions.
#[derive(Debug)]
pub struct SwapResult {
    pub computation: SwapComputation,
    pub ledger: FeeLedger,
    pub burned_all_time: Vec<Asset>,
    pub actions: Vec<Instruction>,
}

/// Executes a swap: resolves the roles, forms the fee- and
/// deposit-adjusted working reserves, prices the trade, asserts the
/// slippage protection, records the protocol fee (pending and all-time,
/// keyed by the ask asset) and the burn fee (all-time), and produces the
/// payout and burn instructions.  Everything is computed into fresh
/// values; an error leaves every ledger as it was.
#[verifier::loop_isolation(false)]
pub fn swap(
    pool: &Pool,
    ledger: &FeeLedger,
    burned_all_time: &Vec<Asset>,
    pool_fees: &PoolFee,
    amp_schedule: &AmplificationSchedule,
    block: u64,
    toggle: &FeatureToggle,
    offer_asset: &Asset,
    ask_info: &AssetInfo,
    belief_price_atomics: Option<u128>,
    max_spread: Option<Fee>,
    receiver: &String,
) -> (r: Result<SwapResult, ContractError>)
    requires
        pool.is_valid(),
        amp_schedule.is_valid(),
        pool_fees.each_valid(),
        belief_price_atomics matches Some(bp) ==> bp > 0,
    ensures
        r is Ok <==> (spec_swap_outcome(
            pool.assets@,
            ledger.pending@,
            *offer_asset,
            *ask_info,
            *pool_fees,
            amp_schedule.spec_amp(block) as u64,
            *toggle,
            belief_price_atomics,
            max_spread,
        ) matches Ok(sc) && spec_swap_records_fit(
            pool.assets@,
            ledger.pending@,
            ledger.all_time@,
            burned_all_time@,
            *ask_info,
            sc,
        )),
        match r {
            Ok(res) => {
                &&& spec_swap_outcome(
                    pool.assets@,
                    ledger.pending@,
                    *offer_asset,
                    *ask_info,
                    *pool_fees,
                    amp_schedule.spec_amp(block) as u64,
                    *toggle,
                    belief_price_atomics,
                    max_spread,
                ) == Ok::<SwapComputation, ContractError>(res.computation)
                &&& {
                    let ask_id = spec_find_ask_id(pool.assets@, *ask_info);
                    &&& spec_store_fee(ledger.pending@, ask_id, res.computation.protocol_fee_amount)
                        == Ok::<Seq<Asset>, ContractError>(res.ledger.pending@)
                    &&& spec_store_fee(
                        ledger.all_time@,
                        ask_id,
                        res.computation.protocol_fee_amount,
                    ) == Ok::<Seq<Asset>, ContractError>(res.ledger.all_time@)
                    &&& (if res.computation.burn_fee_amount > 0 {
                        spec_store_fee(
                            burned_all_time@,
                            ask_id,
                            res.computation.burn_fee_amount,
                        ) == Ok::<Seq<Asset>, ContractError>(res.burned_all_time@)
                    } else {
                        res.burned_all_time@ == burned_all_time@
                    })
                    &&& {
                        let ask = pool.assets@[spec_find_asset(
                            pool.assets@,
                            *ask_info,
                            0,
                        )->Some_0].info;
                        res.actions@ == (if res.computation.return_amount > 0 {
                            seq![
                                Instruction::Transfer {
                                    recipient: *receiver,
                                    asset: Asset {
                                        info: ask,
                                        amount: res.computation.return_amount,
                                    },
                                },
                            ]
                        } else {
                            Seq::<Instruction>::empty()
                        }) + (if res.computation.burn_fee_amount > 0 {
                            seq![
                                Instruction::Burn {
                                    asset: Asset {
                                        info: ask,
                                        amount: res.computation.burn_fee_amount,
                                    },
                                },
                            ]
                        } else {
                            Seq::<Instruction>::empty()
                        })
                    }
                }
            },
            Err(e) => spec_swap_outcome(
                pool.assets@,
                ledger.pending@,
                *offer_asset,
                *ask_info,
                *pool_fees,
                amp_schedule.spec_amp(block) as u64,
                *toggle,
                belief_price_atomics,
                max_spread,
            ) == Err::<SwapComputation, ContractError>(e) || (spec_swap_outcome(
                pool.assets@,
                ledger.pending@,
                *offer_asset,
                *ask_info,
                *pool_fees,
                amp_schedule.spec_amp(block) as u64,
                *toggle,
                belief_price_atomics,
                max_spread,
            ) matches Ok(sc) && e == ContractError::OverflowError && !spec_swap_records_fit(
                pool.assets@,
                ledger.pending@,
                ledger.all_time@,
                burned_all_time@,
                *ask_info,
                sc,
            )),
        },
{
    if !toggle.swaps_enabled {
        return Err(ContractError::OperationDisabled(Feature::Swaps));
    }
    let amp = amp_schedule.amp_factor(block);
    let roles = match resolve_roles(&pool.assets, &offer_asset.info, ask_info) {
        Ok(v) => v,
        Err(e) => return Err(e),
    };
    let after_fees = match deduct_pending_fees(&pool.assets, &ledger.pending) {
        Ok(v) => v,
        Err(e) => return Err(e),
    };
    let adjusted = match deduct_offer_deposit(&after_fees, &offer_asset.info, offer_asset.amount) {
        Ok(v) => v,
        Err(e) => return Err(e),
    };

    let offer_pool = adjusted[roles.offer_idx].amount;
    let ask_pool = adjusted[roles.ask_idx].amount;
    let ghost adj = adjusted@;
    let ghost oi = roles.offer_idx as int;
    let ghost ai = roles.ask_idx as int;
    let mut unswapped: Vec<u128> = Vec::new();
    let mut k: usize = 0;
    while k < adjusted.len()
        invariant
            0 <= k <= adj.len(),
            unswapped@.len() == k - (if oi < k {
                1int
            } else {
                0int
            }) - (if ai < k {
                1int
            } else {
                0int
            }),
            spec_unswapped_from(adj, oi, ai, 0) == unswapped@ + spec_unswapped_from(
                adj,
                oi,
                ai,
                k as int,
            ),
        decreases adj.len() - k,
    {
        let ghost unswapped_old = unswapped@;
        if k != roles.offer_idx && k != roles.ask_idx {
            unswapped.push(adjusted[k].amount);
            proof {
                assert(unswapped@ =~= unswapped_old + seq![adj[k as int].amount]);
                assert(unswapped_old + seq![adj[k as int].amount] + spec_unswapped_from(
                    adj,
                    oi,
                    ai,
                    k + 1,
                ) =~= unswapped_old + (seq![adj[k as int].amount] + spec_unswapped_from(
                    adj,
                    oi,
                    ai,
                    k + 1,
                )));
            }
        }
        k += 1;
    }
    proof {
        assert(spec_unswapped_from(adj, oi, ai, adj.len() as int) =~= Seq::<u128>::empty());
        assert(unswapped@ =~= spec_unswapped_from(adj, oi, ai, 0));
    }

    let computation = match compute_swap(
        offer_pool,
        ask_pool,
        &unswapped,
        offer_asset.amount,
        pool_fees,
        amp,
    ) {
        Ok(v) => v,
        Err(e) => return Err(e),
    };
    match assert_max_spread(
        belief_price_atomics,
        max_spread,
        offer_asset.amount,
        computation.return_amount,
        computation.spread_amount,
    ) {
        Ok(_) => (),
        Err(e) => return Err(e),
    }

    let ask = &pool.assets[roles.ask_idx].info;
    let ask_id = ask.get_id();
    let new_ledger = match ledger.record(&ask_id, computation.protocol_fee_amount) {
        Ok(v) => v,
        Err(e) => return Err(e),
    };
    let new_burned = if computation.burn_fee_amount > 0 {
        match store_fee(burned_all_time, &ask_id, computation.burn_fee_amount) {
            Ok(v) => v,
            Err(e) => return Err(e),
        }
    } else {
        clone_assets(burned_all_time)
    };

    let mut actions: Vec<Instruction> = Vec::new();
    if computation.return_amount > 0 {
        actions.push(
            Instruction::Transfer {
                recipient: receiver.clone(),
                asset: Asset { info: ask.clone(), amount: computation.return_amount },
            },
        );
    }
    if computation.burn_fee_amount > 0 {
        actions.push(
            Instruction::Burn {
                asset: Asset { info: ask.clone(), amount: computation.burn_fee_amount },
            },
        );
    }
    proof {
        assert(actions@ =~= (if computation.return_amount > 0 {
            seq![
                Instruction::Transfer {
                    recipient: *receiver,
                    asset: Asset {
                        info: pool.assets@[ai].info,
                        amount: computation.return_amount,
                    },
                },
            ]
        } else {
            Seq::<Instruction>::empty()
        }) + (if computation.burn_fee_amount > 0 {
            seq![
                Instruction::Burn {
                    asset: Asset {
                        info: pool.assets@[ai].info,
                        amount: computation.burn_fee_amount,
                    },
                },
            ]
        } else {
            Seq::<Instruction>::empty()
        }));
    }
    Ok(SwapResult { computation, ledger: new_ledger, burned_all_time: new_burned, actions })
}

/// The identifier of the first slot holding `ask_info`.
pub open spec fn spec_find_ask_id(assets: Seq<Asset>, ask_info: AssetInfo) -> Seq<char> {
    assets[spec_find_asset(assets, ask_info, 0)->Some_0].info.spec_id()
}

/// The transfer instructions of a collection sweep: one per pending entry
/// with a nonzero amount, from entry `k` on, in ledger order.
pub open spec fn spec_collect_actions(pending: Seq<Asset>, collector: String, k: int) -> Seq<
    Instruction,
>
    decreases pending.len() - k,
{
    if k >= pending.len() {
        Seq::empty()
    } else {
        let rest = spec_collect_actions(pending, collector, k + 1);
        if pending[k].amount == 0 {
            rest
        } else {
            seq![Instruction::Transfer { recipient: collector, asset: pending[k] }] + rest
        }
    }
}

/// Sweeps the pending protocol fees: reads and zeroes the pending horizon
/// atomically and produces one transfer to the fee collector per asset
/// with a nonzero pending amount.  The all-time horizon is untouched.
#[verifier::loop_isolation(false)]
pub fn collect_protocol_fees(ledger: &FeeLedger, fee_collector_addr: &String) -> (r: (
    FeeLedger,
    Vec<Instruction>,
))
    ensures
        r.0.all_time@ == ledger.all_time@,
        r.0.pending@.len() == ledger.pending@.len(),
        forall|i: int|
            #![trigger r.0.pending@[i]]
            0 <= i < ledger.pending@.len() ==> r.0.pending@[i].info == ledger.pending@[i].info
                && r.0.pending@[i].amount == 0,
        r.1@ == spec_collect_actions(ledger.pending@, *fee_collector_addr, 0),
{
    let (new_ledger, collected) = ledger.reset_pending();
    let mut actions: Vec<Instruction> = Vec::new();
    let mut k: usize = 0;
    while k < collected.len()
        invariant
            0 <= k <= collected@.len(),
            collected@ == ledger.pending@,
            spec_collect_actions(ledger.pending@, *fee_collector_addr, 0) == actions@
                + spec_collect_actions(ledger.pending@, *fee_collector_addr, k as int),
        decreases collected@.len() - k,
    {
        let ghost actions_old = actions@;
        if collected[k].amount != 0 {
            actions.push(
                Instruction::Transfer {
                    recipient: fee_collector_addr.clone(),
                    asset: collected[k].clone(),
                },
            );
            proof {
                assert(actions@ =~= actions_old + seq![
                    Instruction::Transfer {
                        recipient: *fee_collector_addr,
                        asset: ledger.pending@[k as int],
                    },
                ]);
                assert(actions_old + seq![
                    Instruction::Transfer {
                        recipient: *fee_collector_addr,
                        asset: ledger.pending@[k as int],
                    },
                ] + spec_collect_actions(ledger.pending@, *fee_collector_addr, k + 1)
                    =~= actions_old + (seq![
                    Instruction::Transfer {
                        recipient: *fee_collector_addr,
                        asset: ledger.pending@[k as int],
                    },
                ] + spec_collect_actions(ledger.pending@, *fee_collector_addr, k + 1)));
            }
        }
        k += 1;
    }
    proof {
        assert(spec_collect_actions(ledger.pending@, *fee_collector_addr, ledger.pending@.len() as int)
            =~= Seq::<Instruction>::empty());
        assert(actions@ =~= spec_collect_actions(ledger.pending@, *fee_collector_addr, 0));
    }
    (new_ledger, actions)
}

} // verus!
