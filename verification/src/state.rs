//! The fee ledger: the only state the core owns.  Amounts are kept per
//! asset on two horizons: pending (zeroed by each collection sweep) and
//! all-time (never reset).  Every update is computed into a fresh value so
//! that an error path leaves the caller's state untouched.

use vstd::prelude::*;
use crate::asset::{Asset, AssetInfo};
use crate::error::ContractError;

verus! {

/// The amount recorded for the asset with identifier `id`, looking from
/// entry `k` on: the first entry whose identifier matches, zero when none
/// does.
pub open spec fn spec_fee_for_from(fees: Seq<Asset>, id: Seq<char>, k: int) -> u128
    decreases fees.len() - k,
{
    if k >= fees.len() {
        0
    } else if fees[k].info.spec_id() == id {
        fees[k].amount
    } else {
        spec_fee_for_from(fees, id, k + 1)
    }
}

/// The amount recorded for the asset with identifier `id`.
pub open spec fn spec_fee_for(fees: Seq<Asset>, id: Seq<char>) -> u128 {
    spec_fee_for_from(fees, id, 0)
}

/// Looks up the amount recorded for the asset with identifier `asset_id`:
/// the first matching entry, zero when the ledger has none.
#[verifier::loop_isolation(false)]
pub fn get_protocol_fee_for_asset(fees: &Vec<Asset>, asset_id: &String) -> (r: u128)
    ensures
        r == spec_fee_for(fees@, asset_id@),
{
    let mut k: usize = 0;
    while k < fees.len()
        invariant
            0 <= k <= fees@.len(),
            spec_fee_for(fees@, asset_id@) == spec_fee_for_from(fees@, asset_id@, k as int),
        decreases fees@.len() - k,
    {
        let id = fees[k].info.get_id();
        if id == *asset_id {
            return fees[k].amount;
        }
        k += 1;
    }
    0
}

/// The entries after `amount` is added to every entry whose identifier is
/// `id`; an overflow error when any such addition leaves the 128-bit
/// range.
pub open spec fn spec_store_fee(fees: Seq<Asset>, id: Seq<char>, amount: u128) -> Result<
    Seq<Asset>,
    ContractError,
> {
    if forall|i: int|
        #![trigger fees[i]]
        0 <= i < fees.len() ==> (fees[i].info.spec_id() == id ==> fees[i].amount + amount
            <= u128::MAX) {
        Ok(
            Seq::new(
                fees.len(),
                |i: int|
                    if fees[i].info.spec_id() == id {
                        Asset { info: fees[i].info, amount: (fees[i].amount + amount) as u128 }
                    } else {
                        fees[i]
                    },
            ),
        )
    } else {
        Err(ContractError::OverflowError)
    }
}

/// Adds `amount` to every entry whose identifier is `asset_id`, into a
/// fresh ledger vector; the caller's vector is never touched, so an error
/// changes nothing.
#[verifier::loop_isolation(false)]
pub fn store_fee(fees: &Vec<Asset>, asset_id: &String, amount: u128) -> (r: Result<
    Vec<Asset>,
    ContractError,
>)
    ensures
        match r {
            Ok(nf) => spec_store_fee(fees@, asset_id@, amount) == Ok::<Seq<Asset>, ContractError>(
                nf@,
            ),
            Err(e) => spec_store_fee(fees@, asset_id@, amount) == Err::<Seq<Asset>, ContractError>(
                e,
            ),
        },
{
    let mut out: Vec<Asset> = Vec::new();
    let mut k: usize = 0;
    while k < fees.len()
        invariant
            0 <= k <= fees@.len(),
            out@.len() == k,
            forall|i: int|
                #![trigger out@[i]]
                0 <= i < k ==> out@[i] == (if fees@[i].info.spec_id() == asset_id@ {
                    Asset { info: fees@[i].info, amount: (fees@[i].amount + amount) as u128 }
                } else {
                    fees@[i]
                }),
            forall|i: int|
                #![trigger fees@[i]]
                0 <= i < k ==> (fees@[i].info.spec_id() == asset_id@ ==> fees@[i].amount + amount
                    <= u128::MAX),
        decreases fees@.len() - k,
    {
        let entry = &fees[k];
        let id = entry.info.get_id();
        if id == *asset_id {
            let new_amount = match entry.amount.checked_add(amount) {
                Some(v) => v,
                None => {
                    proof {
                        assert(fees@[k as int].info.spec_id() == asset_id@ && fees@[k as int].amount
                            + amount > u128::MAX);
                    }
                    return Err(ContractError::OverflowError);
                },
            };
            out.push(Asset { info: entry.info.clone(), amount: new_amount });
        } else {
            out.push(entry.clone());
        }
        k += 1;
    }
    proof {
        assert(out@ =~= spec_store_fee(fees@, asset_id@, amount)->Ok_0);
    }
    Ok(out)
}

/// An element-wise copy whose contents are known to equal the source
/// vector's.
#[verifier::loop_isolation(false)]
pub fn clone_assets(v: &Vec<Asset>) -> (r: Vec<Asset>)
    ensures
        r@ == v@,
{
    let mut out: Vec<Asset> = Vec::new();
    let mut k: usize = 0;
    while k < v.len()
        invariant
            0 <= k <= v@.len(),
            out@.len() == k,
            forall|i: int| #![trigger out@[i]] 0 <= i < k ==> out@[i] == v@[i],
        decreases v@.len() - k,
    {
        out.push(v[k].clone());
        k += 1;
    }
    proof {
        assert(out@ =~= v@);
    }
    out
}

/// The two-horizon fee ledger.
#[derive(Debug)]
pub struct FeeLedger {
    pub pending: Vec<Asset>,
    pub all_time: Vec<Asset>,
}

impl FeeLedger {
    /// Both horizons list the same assets in the same order.
    pub open spec fn is_valid(&self) -> bool {
        &&& self.pending@.len() == self.all_time@.len()
        &&& forall|i: int|
            #![trigger self.pending@[i]]
            0 <= i < self.pending@.len() ==> self.pending@[i].info == self.all_time@[i].info
    }

    /// A fresh ledger with a zero entry on both horizons for every
    /// configured asset.
    #[verifier::loop_isolation(false)]
    pub fn new_zeroed(infos: &Vec<AssetInfo>) -> (r: FeeLedger)
        ensures
            r.is_valid(),
            r.pending@.len() == infos@.len(),
            forall|i: int|
                #![trigger r.pending@[i]]
                0 <= i < infos@.len() ==> r.pending@[i].info == infos@[i]
                    && r.pending@[i].amount == 0,
            forall|i: int|
                #![trigger r.all_time@[i]]
                0 <= i < infos@.len() ==> r.all_time@[i].info == infos@[i]
                    && r.all_time@[i].amount == 0,
    {
        let mut pending: Vec<Asset> = Vec::new();
        let mut all_time: Vec<Asset> = Vec::new();
        let mut k: usize = 0;
        while k < infos.len()
            invariant
                0 <= k <= infos@.len(),
                pending@.len() == k,
                all_time@.len() == k,
                forall|i: int|
                    #![trigger pending@[i]]
                    0 <= i < k ==> pending@[i].info == infos@[i] && pending@[i].amount == 0,
                forall|i: int|
                    #![trigger all_time@[i]]
                    0 <= i < k ==> all_time@[i].info == infos@[i] && all_time@[i].amount == 0,
            decreases infos@.len() - k,
        {
            pending.push(Asset { info: infos[k].clone(), amount: 0 });
            all_time.push(Asset { info: infos[k].clone(), amount: 0 });
            k += 1;
        }
        FeeLedger { pending, all_time }
    }

    /// The entries pending collection.
    pub fn read_pending(&self) -> (r: Vec<Asset>)
        ensures
            r@ == self.pending@,
    {
        clone_assets(&self.pending)
    }

    /// The entries accrued over all time.
    pub fn read_all_time(&self) -> (r: Vec<Asset>)
        ensures
            r@ == self.all_time@,
    {
        clone_assets(&self.all_time)
    }

    /// Records a fee for the asset with identifier `asset_id` on both
    /// horizons, into a fresh ledger.  The all-time horizon never
    /// decreases, and a well-formed ledger stays well formed.
    pub fn record(&self, asset_id: &String, amount: u128) -> (r: Result<FeeLedger, ContractError>)
        ensures
            match r {
                Ok(nl) => {
                    &&& self.is_valid() ==> nl.is_valid()
                    &&& spec_store_fee(self.pending@, asset_id@, amount) == Ok::<
                        Seq<Asset>,
                        ContractError,
                    >(nl.pending@)
                    &&& spec_store_fee(self.all_time@, asset_id@, amount) == Ok::<
                        Seq<Asset>,
                        ContractError,
                    >(nl.all_time@)
                    &&& nl.all_time@.len() == self.all_time@.len()
                    &&& forall|i: int|
                        #![trigger nl.all_time@[i]]
                        0 <= i < self.all_time@.len() ==> nl.all_time@[i].amount
                            >= self.all_time@[i].amount
                },
                Err(e) => e == ContractError::OverflowError && (spec_store_fee(
                    self.pending@,
                    asset_id@,
                    amount,
                ) is Err || spec_store_fee(self.all_time@, asset_id@, amount) is Err),
            },
    {
        let pending = match store_fee(&self.pending, asset_id, amount) {
            Ok(v) => v,
            Err(e) => return Err(e),
        };
        let all_time = match store_fee(&self.all_time, asset_id, amount) {
            Ok(v) => v,
            Err(e) => return Err(e),
        };
        Ok(FeeLedger { pending, all_time })
    }

    /// The pending entries, next to a fresh ledger whose pending amounts
    /// are all zero; the all-time horizon is untouched.  The collection
    /// sweep reads and resets atomically through this.
    #[verifier::loop_isolation(false)]
    pub fn reset_pending(&self) -> (r: (FeeLedger, Vec<Asset>))
        ensures
            self.is_valid() ==> r.0.is_valid(),
            r.1@ == self.pending@,
            r.0.all_time@ == self.all_time@,
            r.0.pending@.len() == self.pending@.len(),
            forall|i: int|
                #![trigger r.0.pending@[i]]
                0 <= i < self.pending@.len() ==> r.0.pending@[i].info == self.pending@[i].info
                    && r.0.pending@[i].amount == 0,
    {
        let old_pending = clone_assets(&self.pending);
        let all_time = clone_assets(&self.all_time);
        let mut pending: Vec<Asset> = Vec::new();
        let mut k: usize = 0;
        while k < self.pending.len()
            invariant
                0 <= k <= self.pending@.len(),
                pending@.len() == k,
                forall|i: int|
                    #![trigger pending@[i]]
                    0 <= i < k ==> pending@[i].info == self.pending@[i].info && pending@[i].amount
                        == 0,
            decreases self.pending@.len() - k,
        {
            pending.push(Asset { info: self.pending[k].info.clone(), amount: 0 });
            k += 1;
        }
        (FeeLedger { pending, all_time }, old_pending)
    }
}

} // verus!
