use stableswap_pool::amp::AmplificationSchedule;
use stableswap_pool::asset::{Asset, AssetInfo, Pool};
use stableswap_pool::commands::{authorize_cw20_swap, authorize_direct_swap, swap};
use stableswap_pool::error::ContractError;
use stableswap_pool::fee::{Fee, PoolFee};
use stableswap_pool::instruction::Instruction;
use stableswap_pool::pair::FeatureToggle;
use stableswap_pool::queries::{query_fees, query_reverse_simulation, query_simulation};
use stableswap_pool::state::{get_protocol_fee_for_asset, FeeLedger};
use stableswap_pool::swap::compute_swap;

fn native(denom: &str) -> AssetInfo {
    AssetInfo::NativeToken {
        denom: denom.to_string(),
    }
}

fn token(addr: &str) -> AssetInfo {
    AssetInfo::Token {
        contract_addr: addr.to_string(),
    }
}

fn all_enabled() -> FeatureToggle {
    FeatureToggle {
        withdrawals_enabled: true,
        deposits_enabled: true,
        swaps_enabled: true,
    }
}

fn permille(n: u128) -> Fee {
    Fee::from_ratio(n, 1000).unwrap()
}

fn zero_entries(infos: &[AssetInfo]) -> Vec<Asset> {
    infos
        .iter()
        .map(|info| Asset {
            info: info.clone(),
            amount: 0,
        })
        .collect()
}

#[test]
fn test_compute_swap_with_huge_pool_variance() {
    let pool_fees = PoolFee {
        protocol_fee: Fee::from_ratio(1, 100).unwrap(),
        swap_fee: Fee::from_ratio(1, 100).unwrap(),
        burn_fee: Fee::zero(),
    };

    let result = compute_swap(
        395451850234,
        317,
        &vec![1234567],
        1,
        &pool_fees,
        1000,
    )
    .unwrap();
    assert_eq!(result.return_amount, 0);
}

#[test]
fn try_native_to_token() {
    let collateral_pool_amount: u128 = 30_000_000_000;
    let asset_pool_amount: u128 = 20_000_000_000;
    let offer_amount: u128 = 1_500_000_000;

    let infos = [native("uusd"), token("asset0000"), token("asset0001")];
    // the user's native deposit is credited to the contract before the
    // handler runs, so the snapshot already includes it
    let pool = Pool {
        assets: vec![
            Asset {
                info: infos[0].clone(),
                amount: collateral_pool_amount + offer_amount,
            },
            Asset {
                info: infos[1].clone(),
                amount: asset_pool_amount,
            },
            Asset {
                info: infos[2].clone(),
                amount: asset_pool_amount,
            },
        ],
        asset_decimals: vec![6, 8, 10],
    };
    let pool_fees = PoolFee {
        protocol_fee: permille(1),
        swap_fee: permille(3),
        burn_fee: permille(1),
    };
    let ledger = FeeLedger::new_zeroed(&vec![
        infos[0].clone(),
        infos[1].clone(),
        infos[2].clone(),
    ]);
    let burned = zero_entries(&infos);
    let schedule = AmplificationSchedule::constant(1000);

    let result = swap(
        &pool,
        &ledger,
        &burned,
        &pool_fees,
        &schedule,
        0,
        &all_enabled(),
        &Asset {
            info: native("uusd"),
            amount: offer_amount,
        },
        &token("asset0000"),
        None,
        None,
        &"addr0000".to_string(),
    )
    .unwrap();

    let expected_spread_amount: u128 = 730_134;
    let expected_swap_fee_amount: u128 = 4_497_809;
    let expected_protocol_fee_amount: u128 = 1_499_269;
    let expected_burn_fee_amount: u128 = 1_499_269;
    let expected_return_amount: u128 = 1_491_773_519;

    assert_eq!(result.computation.return_amount, expected_return_amount);
    assert_eq!(result.computation.spread_amount, expected_spread_amount);
    assert_eq!(result.computation.swap_fee_amount, expected_swap_fee_amount);
    assert_eq!(
        result.computation.protocol_fee_amount,
        expected_protocol_fee_amount
    );
    assert_eq!(result.computation.burn_fee_amount, expected_burn_fee_amount);

    // two instructions: pay out the return, burn the burn fee as the cw20
    // ask asset
    assert_eq!(result.actions.len(), 2);
    match &result.actions[0] {
        Instruction::Transfer { recipient, asset } => {
            assert_eq!(recipient, "addr0000");
            assert_eq!(asset.amount, expected_return_amount);
            assert!(asset.info.equal(&token("asset0000")));
        }
        _ => panic!("no message"),
    }
    match result.actions.last().unwrap() {
        Instruction::Burn { asset } => {
            assert_eq!(asset.amount, expected_burn_fee_amount);
            assert!(asset.info.equal(&token("asset0000")));
        }
        _ => panic!("no message"),
    }

    // protocol fees accrue on the ask asset, on both horizons
    let protocol_fees_for_token = query_fees(
        &result.ledger.pending,
        Some(&result.ledger.all_time),
        Some(&"asset0000".to_string()),
        None,
    )
    .fees;
    assert_eq!(
        protocol_fees_for_token.first().unwrap().amount,
        expected_protocol_fee_amount
    );
    let burned_fees_for_token =
        query_fees(&result.burned_all_time, None, Some(&"asset0000".to_string()), None).fees;
    assert_eq!(
        burned_fees_for_token.first().unwrap().amount,
        expected_burn_fee_amount
    );
    let protocol_fees_for_native = query_fees(
        &result.ledger.pending,
        Some(&result.ledger.all_time),
        Some(&"uusd".to_string()),
        None,
    )
    .fees;
    assert_eq!(protocol_fees_for_native.first().unwrap().amount, 0);
    let burned_fees_for_native =
        query_fees(&result.burned_all_time, None, Some(&"uusd".to_string()), None).fees;
    assert_eq!(burned_fees_for_native.first().unwrap().amount, 0);

    // the simulation on the pre-swap snapshot returns the same values
    let clean_pool = Pool {
        assets: vec![
            Asset {
                info: infos[0].clone(),
                amount: collateral_pool_amount,
            },
            Asset {
                info: infos[1].clone(),
                amount: asset_pool_amount,
            },
            Asset {
                info: infos[2].clone(),
                amount: asset_pool_amount,
            },
        ],
        asset_decimals: vec![6, 8, 10],
    };
    let no_fees = zero_entries(&infos);
    let simulation_res = query_simulation(
        &clean_pool,
        &no_fees,
        &pool_fees,
        &schedule,
        0,
        &Asset {
            info: native("uusd"),
            amount: offer_amount,
        },
        &token("asset0000"),
    )
    .unwrap();

    assert_eq!(expected_return_amount, simulation_res.return_amount);
    assert_eq!(expected_swap_fee_amount, simulation_res.swap_fee_amount);
    assert_eq!(expected_burn_fee_amount, simulation_res.burn_fee_amount);
    assert_eq!(expected_spread_amount, simulation_res.spread_amount);
    assert_eq!(expected_protocol_fee_amount, simulation_res.protocol_fee_amount);

    // the reverse simulation lands within a few units of the original offer
    let reverse_simulation_res = query_reverse_simulation(
        &clean_pool,
        &no_fees,
        &pool_fees,
        &schedule,
        0,
        &Asset {
            info: token("asset0000"),
            amount: expected_return_amount,
        },
        &native("uusd"),
    )
    .unwrap();

    assert!(
        (offer_amount as i128 - reverse_simulation_res.offer_amount as i128).abs() < 3i128
    );
    assert!(
        (expected_swap_fee_amount as i128 - reverse_simulation_res.swap_fee_amount as i128).abs()
            < 3i128
    );
    assert!(
        (expected_spread_amount as i128 - reverse_simulation_res.spread_amount as i128).abs()
            < 3i128
    );
    assert!(
        (expected_protocol_fee_amount as i128
            - reverse_simulation_res.protocol_fee_amount as i128)
            .abs()
            < 3i128
    );
    assert!(
        (expected_burn_fee_amount as i128 - reverse_simulation_res.burn_fee_amount as i128).abs()
            < 3i128
    );
}

#[test]
fn try_swap_invalid_token() {
    let collateral_pool_amount: u128 = 30_000_000_000;
    let asset_pool_amount: u128 = 20_000_000_000;
    let offer_amount: u128 = 1_500_000_000;

    let infos = [native("uusd"), token("asset0000"), token("asset0001")];
    let pool = Pool {
        assets: vec![
            Asset {
                info: infos[0].clone(),
                amount: collateral_pool_amount + offer_amount,
            },
            Asset {
                info: infos[1].clone(),
                amount: asset_pool_amount,
            },
            Asset {
                info: infos[2].clone(),
                amount: asset_pool_amount,
            },
        ],
        asset_decimals: vec![6, 8, 10],
    };
    let pool_fees = PoolFee {
        protocol_fee: permille(1),
        swap_fee: permille(3),
        burn_fee: Fee::zero(),
    };
    let ledger = FeeLedger::new_zeroed(&vec![
        infos[0].clone(),
        infos[1].clone(),
        infos[2].clone(),
    ]);
    let burned = zero_entries(&infos);
    let schedule = AmplificationSchedule::constant(1000);

    let res = swap(
        &pool,
        &ledger,
        &burned,
        &pool_fees,
        &schedule,
        0,
        &all_enabled(),
        &Asset {
            info: native("invalid_token"),
            amount: offer_amount,
        },
        &token("asset0000"),
        None,
        None,
        &"addr0000".to_string(),
    );

    match res {
        Ok(_) => panic!("should return ContractError::AssetMismatch"),
        Err(ContractError::AssetMismatch) => (),
        _ => panic!("should return ContractError::AssetMismatch"),
    }
}

#[test]
fn try_token_to_native() {
    let collateral_pool_amount: u128 = 20_000_000_000;
    let asset_pool_amount: u128 = 30_000_000_000;
    let offer_amount: u128 = 1_500_000_000;

    let infos = [native("uusd"), token("asset0000"), token("asset0001")];
    // for a token offered through its transfer hook the caller excludes the
    // already-credited deposit from the snapshot it hands over
    let pool = Pool {
        assets: vec![
            Asset {
                info: infos[0].clone(),
                amount: collateral_pool_amount,
            },
            Asset {
                info: infos[1].clone(),
                amount: asset_pool_amount,
            },
            Asset {
                info: infos[2].clone(),
                amount: asset_pool_amount,
            },
        ],
        asset_decimals: vec![8, 8, 10],
    };
    let pool_fees = PoolFee {
        protocol_fee: permille(1),
        swap_fee: permille(3),
        burn_fee: permille(1),
    };
    let ledger = FeeLedger::new_zeroed(&vec![
        infos[0].clone(),
        infos[1].clone(),
        infos[2].clone(),
    ]);
    let burned = zero_entries(&infos);
    let schedule = AmplificationSchedule::constant(1000);

    // a token swap submitted directly, without the token's transfer hook,
    // is unauthorized
    match authorize_direct_swap(&token("asset0000")) {
        Err(ContractError::Unauthorized) => (),
        _ => panic!("DO NOT ENTER HERE"),
    }

    // through the hook, only the asset's own token contract may act
    authorize_cw20_swap(&pool.assets, &"asset0000".to_string()).unwrap();

    let result = swap(
        &pool,
        &ledger,
        &burned,
        &pool_fees,
        &schedule,
        0,
        &all_enabled(),
        &Asset {
            info: token("asset0000"),
            amount: offer_amount,
        },
        &native("uusd"),
        None,
        None,
        &"third_party".to_string(),
    )
    .unwrap();

    let expected_spread_amount: u128 = 830_233;
    let expected_swap_fee_amount: u128 = 4_497_509;
    let expected_protocol_fee_amount: u128 = 1_499_169;
    let expected_burn_fee_amount: u128 = 1_499_169;
    let expected_return_amount: u128 = 1_491_673_920;

    assert_eq!(result.computation.return_amount, expected_return_amount);
    assert_eq!(result.computation.spread_amount, expected_spread_amount);
    assert_eq!(result.computation.swap_fee_amount, expected_swap_fee_amount);
    assert_eq!(
        result.computation.protocol_fee_amount,
        expected_protocol_fee_amount
    );
    assert_eq!(result.computation.burn_fee_amount, expected_burn_fee_amount);

    // the return goes to the named receiver, the burn is a native burn
    assert_eq!(result.actions.len(), 2);
    match &result.actions[0] {
        Instruction::Transfer { recipient, asset } => {
            assert_eq!(recipient, "third_party");
            assert_eq!(asset.amount, expected_return_amount);
            assert!(asset.info.equal(&native("uusd")));
        }
        _ => panic!("no message"),
    }
    match result.actions.last().unwrap() {
        Instruction::Burn { asset } => {
            assert_eq!(asset.amount, expected_burn_fee_amount);
            assert!(asset.info.equal(&native("uusd")));
        }
        _ => panic!("no message"),
    }

    // the protocol fee accrues in the native ask asset
    assert_eq!(
        get_protocol_fee_for_asset(&result.ledger.pending, &"uusd".to_string()),
        expected_protocol_fee_amount
    );
    assert_eq!(
        get_protocol_fee_for_asset(&result.ledger.pending, &"asset0000".to_string()),
        0
    );

    // simulation on the same snapshot
    let no_fees = zero_entries(&infos);
    let simulation_res = query_simulation(
        &pool,
        &no_fees,
        &pool_fees,
        &schedule,
        0,
        &Asset {
            info: token("asset0000"),
            amount: offer_amount,
        },
        &native("uusd"),
    )
    .unwrap();

    assert_eq!(expected_return_amount, simulation_res.return_amount);
    assert_eq!(expected_swap_fee_amount, simulation_res.swap_fee_amount);
    assert_eq!(expected_burn_fee_amount, simulation_res.burn_fee_amount);
    assert_eq!(expected_spread_amount, simulation_res.spread_amount);
    assert_eq!(expected_protocol_fee_amount, simulation_res.protocol_fee_amount);

    // reverse simulation within a few units
    let reverse_simulation_res = query_reverse_simulation(
        &pool,
        &no_fees,
        &pool_fees,
        &schedule,
        0,
        &Asset {
            info: native("uusd"),
            amount: expected_return_amount,
        },
        &token("asset0000"),
    )
    .unwrap();

    assert!(
        (offer_amount as i128 - reverse_simulation_res.offer_amount as i128).abs() < 3i128
    );
    assert!(
        (expected_swap_fee_amount as i128 - reverse_simulation_res.swap_fee_amount as i128).abs()
            < 3i128
    );
    assert!(
        (expected_spread_amount as i128 - reverse_simulation_res.spread_amount as i128).abs()
            < 3i128
    );
    assert!(
        (expected_protocol_fee_amount as i128
            - reverse_simulation_res.protocol_fee_amount as i128)
            .abs()
            < 3i128
    );
    assert!(
        (expected_burn_fee_amount as i128 - reverse_simulation_res.burn_fee_amount as i128).abs()
            < 3i128
    );

    // a stranger contract may not start a token swap through the hook
    match authorize_cw20_swap(&pool.assets, &"liquidity0000".to_string()) {
        Err(ContractError::Unauthorized) => (),
        _ => panic!("DO NOT ENTER HERE"),
    }
}

#[test]
fn test_swap_to_third_party() {
    let collateral_pool_amount: u128 = 30_000_000_000;
    let asset_pool_amount: u128 = 20_000_000_000;
    let offer_amount: u128 = 1_500_000_000;

    let infos = [native("uusd"), token("asset0000"), token("asset0001")];
    let pool = Pool {
        assets: vec![
            Asset {
                info: infos[0].clone(),
                amount: collateral_pool_amount + offer_amount,
            },
            Asset {
                info: infos[1].clone(),
                amount: asset_pool_amount,
            },
            Asset {
                info: infos[2].clone(),
                amount: asset_pool_amount,
            },
        ],
        asset_decimals: vec![6, 8, 10],
    };
    let pool_fees = PoolFee {
        protocol_fee: permille(1),
        swap_fee: permille(3),
        burn_fee: Fee::zero(),
    };
    let ledger = FeeLedger::new_zeroed(&vec![
        infos[0].clone(),
        infos[1].clone(),
        infos[2].clone(),
    ]);
    let burned = zero_entries(&infos);
    let schedule = AmplificationSchedule::constant(1000);

    let result = swap(
        &pool,
        &ledger,
        &burned,
        &pool_fees,
        &schedule,
        0,
        &all_enabled(),
        &Asset {
            info: native("uusd"),
            amount: offer_amount,
        },
        &token("asset0000"),
        None,
        None,
        &"third_party".to_string(),
    )
    .unwrap();

    // no burn fee, so the only instruction is the payout to the third party
    assert_eq!(result.actions.len(), 1);
    match &result.actions[0] {
        Instruction::Transfer { recipient, .. } => assert_eq!(recipient, "third_party"),
        _ => panic!("no message"),
    }

    // there shouldn't be any burn fee in a simulation either
    let clean_pool = Pool {
        assets: vec![
            Asset {
                info: infos[0].clone(),
                amount: collateral_pool_amount,
            },
            Asset {
                info: infos[1].clone(),
                amount: asset_pool_amount,
            },
            Asset {
                info: infos[2].clone(),
                amount: asset_pool_amount,
            },
        ],
        asset_decimals: vec![6, 8, 10],
    };
    let no_fees = zero_entries(&infos);
    let simulation_res = query_simulation(
        &clean_pool,
        &no_fees,
        &pool_fees,
        &schedule,
        0,
        &Asset {
            info: native("uusd"),
            amount: offer_amount,
        },
        &token("asset0000"),
    )
    .unwrap();
    assert_eq!(simulation_res.burn_fee_amount, 0);
}
