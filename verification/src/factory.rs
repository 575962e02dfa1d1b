//! Messages and responses of the factory that instantiates pool
//! contracts.

use vstd::prelude::*;
use crate::asset::{AssetInfo, PairInfo};
use crate::fee::PoolFee;

verus! {

/// Instantiates the factory.
#[derive(Debug)]
pub struct InstantiateMsg {
    pub pair_code_id: u64,
    pub token_code_id: u64,
    pub fee_collector_addr: String,
}

/// The operations the factory performs.
#[derive(Debug)]
pub enum ExecuteMsg {
    /// Updates code ids, the fee collector address or the owner.
    UpdateConfig {
        owner: Option<String>,
        fee_collector_addr: Option<String>,
        token_code_id: Option<u64>,
        pair_code_id: Option<u64>,
    },
    /// Instantiates a pool contract for the given assets.
    CreatePair { asset_infos: Vec<AssetInfo>, pool_fees: PoolFee },
    /// Registers a native denomination so pools can include it.
    AddNativeTokenDecimals { denom: String, decimals: u8 },
    /// Migrates a pool contract to a given code id.
    MigratePair { contract: String, code_id: Option<u64> },
    /// Removes a pool.
    RemovePair { pair_address: String },
}

/// The queries the factory answers.
#[derive(Debug)]
pub enum QueryMsg {
    /// The factory's configuration.
    Config {},
    /// The pool registered for the given assets.
    Pair { asset_infos: Vec<AssetInfo> },
    /// The pools the factory created, with pagination.
    Pairs { start_after: Option<Vec<AssetInfo>>, limit: Option<u32> },
    /// The registered decimals of a native denomination.
    NativeTokenDecimals { denom: String },
}

/// The factory's configuration.
#[derive(Debug)]
pub struct ConfigResponse {
    pub owner: String,
    pub fee_collector_addr: String,
    pub pair_code_id: u64,
    pub token_code_id: u64,
}

/// Migrations take no arguments.
#[derive(Clone, Copy, Debug, PartialEq, Eq, Structural)]
pub struct MigrateMsg {}

/// The pools the factory created.
#[derive(Debug)]
pub struct PairsResponse {
    pub pairs: Vec<PairInfo>,
}

/// The registered decimals of a native denomination.
#[derive(Clone, Copy, Debug, PartialEq, Eq, Structural)]
pub struct NativeTokenDecimalsResponse {
    pub decimals: u8,
}

} // verus!
