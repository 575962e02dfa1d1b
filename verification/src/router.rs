//! Role resolution and working reserves.  A trade names an offer and an
//! ask asset; the router finds their slots in the pool's configured list
//! and produces the fee-adjusted reserves that the solver works on.

use vstd::prelude::*;
use crate::asset::{Asset, AssetInfo};
use crate::error::ContractError;
use crate::state::spec_fee_for;
use crate::state::get_protocol_fee_for_asset;

verus! {

/// The first index at or after `k` holding the asset `info`.
pub open spec fn spec_find_asset(assets: Seq<Asset>, info: AssetInfo, k: int) -> Option<int>
    decreases assets.len() - k,
{
    if k >= assets.len() {
        None
    } else if assets[k].info.spec_eq(&info) {
        Some(k)
    } else {
        spec_find_asset(assets, info, k + 1)
    }
}

/// A found index holds the asset looked for, and no earlier slot does.
pub proof fn lemma_find_asset_props(assets: Seq<Asset>, info: AssetInfo, k: int, i: int)
    requires
        0 <= k <= assets.len(),
        spec_find_asset(assets, info, k) == Some(i),
    ensures
        k <= i < assets.len(),
        assets[i].info.spec_eq(&info),
        forall|j: int| #![trigger assets[j]] k <= j < i ==> !assets[j].info.spec_eq(&info),
    decreases assets.len() - k,
{
    if !assets[k].info.spec_eq(&info) {
        lemma_find_asset_props(assets, info, k + 1, i);
    }
}

/// The index of the first pool slot holding the asset `info`.
#[verifier::loop_isolation(false)]
pub fn find_asset(assets: &Vec<Asset>, info: &AssetInfo) -> (r: Option<usize>)
    ensures
        match r {
            Some(i) => Some(i as int) == spec_find_asset(assets@, *info, 0) && i < assets@.len(),
            None => spec_find_asset(assets@, *info, 0) is None,
        },
{
    let mut k: usize = 0;
    while k < assets.len()
        invariant
            0 <= k <= assets@.len(),
            spec_find_asset(assets@, *info, 0) == spec_find_asset(assets@, *info, k as int),
        decreases assets@.len() - k,
    {
        if assets[k].info.equal(info) {
            return Some(k);
        }
        k += 1;
    }
    None
}

/// The offer, ask and unswapped slots of a pool for one trade.
#[derive(Debug)]
pub struct SwapRoles {
    pub offer_idx: usize,
    pub ask_idx: usize,
    pub other_idxs: Vec<usize>,
}

/// Resolves which configured asset is offered, which is asked for, and
/// which slots stay out of the trade (in their pool order).  Fails with an
/// asset mismatch exactly when the two refer to the same asset or either
/// is not among the configured assets.
#[verifier::loop_isolation(false)]
pub fn resolve_roles(assets: &Vec<Asset>, offer_info: &AssetInfo, ask_info: &AssetInfo) -> (r:
    Result<SwapRoles, ContractError>)
    ensures
        r is Err <==> (offer_info.spec_eq(ask_info) || spec_find_asset(assets@, *offer_info, 0)
            is None || spec_find_asset(assets@, *ask_info, 0) is None),
        r is Err ==> r == Err::<SwapRoles, ContractError>(ContractError::AssetMismatch),
        r matches Ok(roles) ==> {
            &&& Some(roles.offer_idx as int) == spec_find_asset(assets@, *offer_info, 0)
            &&& Some(roles.ask_idx as int) == spec_find_asset(assets@, *ask_info, 0)
            &&& roles.offer_idx < assets@.len()
            &&& roles.ask_idx < assets@.len()
            &&& roles.offer_idx != roles.ask_idx
            &&& roles.other_idxs@.len() + 2 == assets@.len()
            &&& forall|j: int|
                #![trigger roles.other_idxs@[j]]
                0 <= j < roles.other_idxs@.len() ==> roles.other_idxs@[j] < assets@.len()
                    && roles.other_idxs@[j] != roles.offer_idx && roles.other_idxs@[j]
                    != roles.ask_idx
            &&& forall|j1: int, j2: int|
                #![trigger roles.other_idxs@[j1], roles.other_idxs@[j2]]
                0 <= j1 < j2 < roles.other_idxs@.len() ==> roles.other_idxs@[j1]
                    < roles.other_idxs@[j2]
        },
{
    if offer_info.equal(ask_info) {
        return Err(ContractError::AssetMismatch);
    }
    let offer_idx = match find_asset(assets, offer_info) {
        Some(i) => i,
        None => return Err(ContractError::AssetMismatch),
    };
    let ask_idx = match find_asset(assets, ask_info) {
        Some(i) => i,
        None => return Err(ContractError::AssetMismatch),
    };
    proof {
        lemma_find_asset_props(assets@, *offer_info, 0, offer_idx as int);
        lemma_find_asset_props(assets@, *ask_info, 0, ask_idx as int);
        assert(offer_idx != ask_idx);
    }
    let mut other_idxs: Vec<usize> = Vec::new();
    let mut i: usize = 0;
    while i < assets.len()
        invariant
            0 <= i <= assets@.len(),
            other_idxs@.len() == i - (if offer_idx < i {
                1int
            } else {
                0int
            }) - (if ask_idx < i {
                1int
            } else {
                0int
            }),
            forall|j: int|
                #![trigger other_idxs@[j]]
                0 <= j < other_idxs@.len() ==> other_idxs@[j] < i && other_idxs@[j] != offer_idx
                    && other_idxs@[j] != ask_idx,
            forall|j1: int, j2: int|
                #![trigger other_idxs@[j1], other_idxs@[j2]]
                0 <= j1 < j2 < other_idxs@.len() ==> other_idxs@[j1] < other_idxs@[j2],
        decreases assets@.len() - i,
    {
        if i != offer_idx && i != ask_idx {
            other_idxs.push(i);
        }
        i += 1;
    }
    Ok(SwapRoles { offer_idx, ask_idx, other_idxs })
}

/// Whether every reserve covers its asset's pending fee.
pub open spec fn spec_covers_pending(assets: Seq<Asset>, collected: Seq<Asset>) -> bool {
    forall|i: int|
        #![trigger assets[i]]
        0 <= i < assets.len() ==> spec_fee_for(collected, assets[i].info.spec_id())
            <= assets[i].amount
}

/// The reserves after each asset's pending fee is taken out.
pub open spec fn spec_after_fees(assets: Seq<Asset>, collected: Seq<Asset>) -> Seq<Asset> {
    Seq::new(
        assets.len(),
        |i: int|
            Asset {
                info: assets[i].info,
                amount: (assets[i].amount - spec_fee_for(collected, assets[i].info.spec_id())) as u128,
            },
    )
}

/// Subtracts each asset's pending fee from its reserve, producing the
/// working reserves the solver prices against.  A reserve smaller than its
/// pending fee — which would mean a corrupted ledger — fails the whole
/// operation with an overflow error; nothing ever wraps below zero.
#[verifier::loop_isolation(false)]
pub fn deduct_pending_fees(assets: &Vec<Asset>, collected: &Vec<Asset>) -> (r: Result<
    Vec<Asset>,
    ContractError,
>)
    ensures
        r is Ok <==> spec_covers_pending(assets@, collected@),
        r is Err ==> r == Err::<Vec<Asset>, ContractError>(ContractError::OverflowError),
        r matches Ok(nf) ==> nf@ == spec_after_fees(assets@, collected@),
        r matches Ok(nf) ==> {
            &&& nf@.len() == assets@.len()
            &&& forall|i: int|
                #![trigger nf@[i]]
                0 <= i < assets@.len() ==> nf@[i].info == assets@[i].info && nf@[i].amount
                    == assets@[i].amount - spec_fee_for(collected@, assets@[i].info.spec_id())
        },
{
    let mut out: Vec<Asset> = Vec::new();
    let mut k: usize = 0;
    while k < assets.len()
        invariant
            0 <= k <= assets@.len(),
            out@.len() == k,
            forall|i: int|
                #![trigger out@[i]]
                0 <= i < k ==> out@[i].info == assets@[i].info && out@[i].amount == assets@[i].amount
                    - spec_fee_for(collected@, assets@[i].info.spec_id()),
            forall|i: int|
                #![trigger assets@[i]]
                0 <= i < k ==> spec_fee_for(collected@, assets@[i].info.spec_id())
                    <= assets@[i].amount,
        decreases assets@.len() - k,
    {
        let id = assets[k].info.get_id();
        let fee = get_protocol_fee_for_asset(collected, &id);
        let amount = match assets[k].amount.checked_sub(fee) {
            Some(v) => v,
            None => return Err(ContractError::OverflowError),
        };
        out.push(Asset { info: assets[k].info.clone(), amount });
        k += 1;
    }
    proof {
        assert(out@ =~= spec_after_fees(assets@, collected@));
    }
    Ok(out)
}

/// Whether the offered asset's slots cover the just-deposited amount.
pub open spec fn spec_covers_deposit(
    assets: Seq<Asset>,
    offer_info: AssetInfo,
    offer_amount: u128,
) -> bool {
    forall|i: int|
        #![trigger assets[i]]
        0 <= i < assets.len() ==> (assets[i].info.spec_eq(&offer_info)
            && offer_info.spec_is_native() ==> offer_amount <= assets[i].amount)
}

/// The reserves with the just-deposited native offer amount taken back
/// out of the offered asset's slot.
pub open spec fn spec_deposit_adjusted(
    assets: Seq<Asset>,
    offer_info: AssetInfo,
    offer_amount: u128,
) -> Seq<Asset> {
    Seq::new(
        assets.len(),
        |i: int|
            if assets[i].info.spec_eq(&offer_info) && offer_info.spec_is_native() {
                Asset { info: assets[i].info, amount: (assets[i].amount - offer_amount) as u128 }
            } else {
                assets[i]
            },
    )
}

/// For the state-mutating path only: removes the just-deposited offer
/// amount from the offered asset's reserve when that asset is a native
/// coin, whose balance the platform credits before the handler runs.
/// Token reserves are left alone: their deposit is pulled by an explicit
/// instruction afterwards.  Simulation paths never apply this correction.
#[verifier::loop_isolation(false)]
pub fn deduct_offer_deposit(
    assets: &Vec<Asset>,
    offer_info: &AssetInfo,
    offer_amount: u128,
) -> (r: Result<Vec<Asset>, ContractError>)
    ensures
        r is Ok <==> spec_covers_deposit(assets@, *offer_info, offer_amount),
        r is Err ==> r == Err::<Vec<Asset>, ContractError>(ContractError::OverflowError),
        r matches Ok(nf) ==> nf@ == spec_deposit_adjusted(assets@, *offer_info, offer_amount),
        r matches Ok(nf) ==> {
            &&& nf@.len() == assets@.len()
            &&& forall|i: int|
                #![trigger nf@[i]]
                0 <= i < assets@.len() ==> nf@[i].info == assets@[i].info && nf@[i].amount == (
                if assets@[i].info.spec_eq(offer_info) && offer_info.spec_is_native() {
                    assets@[i].amount - offer_amount
                } else {
                    assets@[i].amount as int
                })
        },
{
    let mut out: Vec<Asset> = Vec::new();
    let mut k: usize = 0;
    while k < assets.len()
        invariant
            0 <= k <= assets@.len(),
            out@.len() == k,
            forall|i: int|
                #![trigger out@[i]]
                0 <= i < k ==> out@[i].info == assets@[i].info && out@[i].amount == (
                if assets@[i].info.spec_eq(offer_info) && offer_info.spec_is_native() {
                    assets@[i].amount - offer_amount
                } else {
                    assets@[i].amount as int
                }),
            forall|i: int|
                #![trigger assets@[i]]
                0 <= i < k ==> (assets@[i].info.spec_eq(offer_info)
                    && offer_info.spec_is_native() ==> offer_amount <= assets@[i].amount),
        decreases assets@.len() - k,
    {
        let amount = if assets[k].info.equal(offer_info) && offer_info.is_native_token() {
            match assets[k].amount.checked_sub(offer_amount) {
                Some(v) => v,
                None => return Err(ContractError::OverflowError),
            }
        } else {
            assets[k].amount
        };
        out.push(Asset { info: assets[k].info.clone(), amount });
        k += 1;
    }
    proof {
        assert(out@ =~= spec_deposit_adjusted(assets@, *offer_info, offer_amount));
    }
    Ok(out)
}

/// Whether the offered token's slots cover the hook-credited amount.
pub open spec fn spec_covers_token_deposit(
    assets: Seq<Asset>,
    offer_info: AssetInfo,
    offer_amount: u128,
) -> bool {
    forall|i: int|
        #![trigger assets[i]]
        0 <= i < assets.len() ==> (assets[i].info.spec_eq(&offer_info)
            && !offer_info.spec_is_native() ==> offer_amount <= assets[i].amount)
}

/// The reserves with a hook-credited token offer taken back out of the
/// offered asset's slot.
pub open spec fn spec_token_adjusted(
    assets: Seq<Asset>,
    offer_info: AssetInfo,
    offer_amount: u128,
) -> Seq<Asset> {
    Seq::new(
        assets.len(),
        |i: int|
            if assets[i].info.spec_eq(&offer_info) && !offer_info.spec_is_native() {
                Asset { info: assets[i].info, amount: (assets[i].amount - offer_amount) as u128 }
            } else {
                assets[i]
            },
    )
}

/// For a token offered through its transfer hook: the tokens were already
/// credited to the pool before the handler runs, so the snapshot handed
/// to the pricing path must exclude them.  The execute path itself
/// corrects only native credits, so this runs first.  Native reserves are
/// left alone.
#[verifier::loop_isolation(false)]
pub fn deduct_token_deposit(
    assets: &Vec<Asset>,
    offer_info: &AssetInfo,
    offer_amount: u128,
) -> (r: Result<Vec<Asset>, ContractError>)
    ensures
        r is Ok <==> spec_covers_token_deposit(assets@, *offer_info, offer_amount),
        r is Err ==> r == Err::<Vec<Asset>, ContractError>(ContractError::OverflowError),
        r matches Ok(nf) ==> nf@ == spec_token_adjusted(assets@, *offer_info, offer_amount),
{
    let mut out: Vec<Asset> = Vec::new();
    let mut k: usize = 0;
    while k < assets.len()
        invariant
            0 <= k <= assets@.len(),
            out@.len() == k,
            forall|i: int|
                #![trigger out@[i]]
                0 <= i < k ==> out@[i] == spec_token_adjusted(assets@, *offer_info, offer_amount)[i],
            forall|i: int|
                #![trigger assets@[i]]
                0 <= i < k ==> (assets@[i].info.spec_eq(offer_info)
                    && !offer_info.spec_is_native() ==> offer_amount <= assets@[i].amount),
        decreases assets@.len() - k,
    {
        let amount = if assets[k].info.equal(offer_info) && !offer_info.is_native_token() {
            match assets[k].amount.checked_sub(offer_amount) {
                Some(v) => v,
                None => return Err(ContractError::OverflowError),
            }
        } else {
            assets[k].amount
        };
        out.push(Asset { info: assets[k].info.clone(), amount });
        k += 1;
    }
    proof {
        assert(out@ =~= spec_token_adjusted(assets@, *offer_info, offer_amount));
    }
    Ok(out)
}

} // verus!
