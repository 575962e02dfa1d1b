//! Messages and responses of a pool contract: instantiation, queries, the
//! feature toggle, and the plain-value response shapes of the query
//! functions.

use vstd::prelude::*;
use crate::asset::{Asset, AssetInfo};
use crate::fee::PoolFee;

verus! {

/// Instantiates a pool over 2 or 3 assets.
#[derive(Debug)]
pub struct InstantiateMsg {
    pub asset_infos: Vec<AssetInfo>,
    pub token_code_id: u64,
    pub asset_decimals: Vec<u8>,
    pub pool_fees: PoolFee,
    pub fee_collector_addr: String,
    pub amp_factor: u64,
}

/// The queries a pool answers.
#[derive(Debug)]
pub enum QueryMsg {
    /// The pool's configured assets and liquidity token.
    Pair {},
    /// The pool's configuration: owner, fees, feature toggle, amplification.
    Config {},
    /// The protocol fees accrued: all-time when `all_time` is set, else the
    /// fees pending collection, optionally for one asset.
    ProtocolFees { asset_id: Option<String>, all_time: Option<bool> },
    /// The reserves (net of pending fees) and the total share.
    Pool {},
    /// What a swap of `offer_asset` against `ask_asset` would yield.
    Simulation { offer_asset: Asset, ask_asset: Asset },
    /// What must be offered so a swap yields `ask_asset`.
    ReverseSimulation { ask_asset: Asset, offer_asset: Asset },
}

/// Which operations the pool currently allows.
#[derive(Clone, Copy, Debug, PartialEq, Eq, Structural)]
pub struct FeatureToggle {
    pub withdrawals_enabled: bool,
    pub deposits_enabled: bool,
    pub swaps_enabled: bool,
}

/// The reserves (net of pending fees) and the total share.
#[derive(Debug)]
pub struct PoolResponse {
    pub assets: Vec<Asset>,
    pub total_share: u128,
}

/// A swap simulation's outcome.
#[derive(Clone, Copy, Debug, PartialEq, Eq, Structural)]
pub struct SimulationResponse {
    pub return_amount: u128,
    pub spread_amount: u128,
    pub swap_fee_amount: u128,
    pub protocol_fee_amount: u128,
    pub burn_fee_amount: u128,
}

/// A reverse swap simulation's outcome.
#[derive(Clone, Copy, Debug, PartialEq, Eq, Structural)]
pub struct ReverseSimulationResponse {
    pub offer_amount: u128,
    pub spread_amount: u128,
    pub swap_fee_amount: u128,
    pub protocol_fee_amount: u128,
    pub burn_fee_amount: u128,
}

/// Fee entries read from a ledger.
#[derive(Debug)]
pub struct ProtocolFeesResponse {
    pub fees: Vec<Asset>,
}

/// Migrations take no arguments.
#[derive(Clone, Copy, Debug, PartialEq, Eq, Structural)]
pub struct MigrateMsg {}

} // verus!
