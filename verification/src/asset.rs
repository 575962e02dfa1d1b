//! Assets and pools.  An asset is identified by a native coin denomination
//! or by a token contract address; a pool is an ordered list of 2 or 3
//! distinct assets with their current reserves and decimal precisions.

use vstd::prelude::*;

verus! {

/// Identifies one fungible asset: a native coin or a token contract.
#[derive(Debug)]
pub enum AssetInfo {
    NativeToken { denom: String },
    Token { contract_addr: String },
}

impl Clone for AssetInfo {
    fn clone(&self) -> (r: Self)
        ensures
            r == *self,
    {
        match self {
            AssetInfo::NativeToken { denom } => AssetInfo::NativeToken { denom: denom.clone() },
            AssetInfo::Token { contract_addr } => AssetInfo::Token {
                contract_addr: contract_addr.clone(),
            },
        }
    }
}

impl AssetInfo {
    /// The identifier string: the denomination of a native coin, the
    /// contract address of a token.
    pub open spec fn spec_id(&self) -> Seq<char> {
        match self {
            AssetInfo::NativeToken { denom } => denom@,
            AssetInfo::Token { contract_addr } => contract_addr@,
        }
    }

    pub open spec fn spec_is_native(&self) -> bool {
        match self {
            AssetInfo::NativeToken { .. } => true,
            AssetInfo::Token { .. } => false,
        }
    }

    /// Two infos refer to the same asset iff they are of the same kind and
    /// carry the same identifier.
    pub open spec fn spec_eq(&self, other: &AssetInfo) -> bool {
        self.spec_is_native() == other.spec_is_native() && self.spec_id() == other.spec_id()
    }

    pub fn is_native_token(&self) -> (r: bool)
        ensures
            r == self.spec_is_native(),
    {
        match self {
            AssetInfo::NativeToken { .. } => true,
            AssetInfo::Token { .. } => false,
        }
    }

    pub fn equal(&self, other: &AssetInfo) -> (r: bool)
        ensures
            r == self.spec_eq(other),
    {
        match (self, other) {
            (AssetInfo::NativeToken { denom: a }, AssetInfo::NativeToken { denom: b }) => *a == *b,
            (AssetInfo::Token { contract_addr: a }, AssetInfo::Token { contract_addr: b }) => *a == *b,
            _ => false,
        }
    }

    pub fn get_id(&self) -> (r: String)
        ensures
            r@ == self.spec_id(),
    {
        match self {
            AssetInfo::NativeToken { denom } => denom.clone(),
            AssetInfo::Token { contract_addr } => contract_addr.clone(),
        }
    }
}

/// An asset together with an amount: a reserve, a deposit, a fee entry or a
/// payment, depending on context.
#[derive(Debug)]
pub struct Asset {
    pub info: AssetInfo,
    pub amount: u128,
}

impl Clone for Asset {
    fn clone(&self) -> (r: Self)
        ensures
            r == *self,
    {
        Asset { info: self.info.clone(), amount: self.amount }
    }
}

/// A registered pool as the factory lists it: its assets, the addresses of
/// the pool contract and of its liquidity token, and the assets' decimal
/// precisions.
#[derive(Debug)]
pub struct PairInfo {
    pub asset_infos: Vec<AssetInfo>,
    pub contract_addr: String,
    pub liquidity_token: String,
    pub asset_decimals: Vec<u8>,
}

/// A pool: its assets with their current reserves, and each asset's decimal
/// precision, in matching order.
#[derive(Debug)]
pub struct Pool {
    pub assets: Vec<Asset>,
    pub asset_decimals: Vec<u8>,
}

impl Pool {
    /// 2 or 3 assets, one decimals entry each, and pairwise distinct assets.
    pub open spec fn is_valid(&self) -> bool {
        &&& 2 <= self.assets@.len() <= 3
        &&& self.asset_decimals@.len() == self.assets@.len()
        &&& forall|i: int, j: int|
            0 <= i < j < self.assets@.len() ==> !self.assets@[i].info.spec_eq(&self.assets@[j].info)
    }
}

} // verus!
