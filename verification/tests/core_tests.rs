use stableswap_pool::amp::AmplificationSchedule;
use stableswap_pool::asset::{Asset, AssetInfo, Pool};
use stableswap_pool::commands::{collect_protocol_fees, update_config, Config};
use stableswap_pool::curve::compute_d;
use stableswap_pool::error::{ContractError, Feature};
use stableswap_pool::fee::{apply_fees, Fee, PoolFee};
use stableswap_pool::instruction::Instruction;
use stableswap_pool::liquidity::{
    assert_slippage_tolerance, compute_first_deposit_share, compute_mint_amount_for_deposit,
    provide_liquidity, withdraw_liquidity,
};
use stableswap_pool::pair::FeatureToggle;
use stableswap_pool::queries::{query_fees, query_pool};
use stableswap_pool::router::{deduct_pending_fees, deduct_token_deposit, resolve_roles};
use stableswap_pool::state::{get_protocol_fee_for_asset, store_fee, FeeLedger};
use stableswap_pool::swap::{assert_max_spread, compute_offer_amount, compute_swap};

fn native(denom: &str) -> AssetInfo {
    AssetInfo::NativeToken {
        denom: denom.to_string(),
    }
}

fn token(addr: &str) -> AssetInfo {
    AssetInfo::Token {
        contract_addr: addr.to_string(),
    }
}

fn all_enabled() -> FeatureToggle {
    FeatureToggle {
        withdrawals_enabled: true,
        deposits_enabled: true,
        swaps_enabled: true,
    }
}

fn standard_fees() -> PoolFee {
    PoolFee {
        protocol_fee: Fee::from_ratio(1, 1000).unwrap(),
        swap_fee: Fee::from_ratio(3, 1000).unwrap(),
        burn_fee: Fee::from_ratio(1, 1000).unwrap(),
    }
}

#[test]
fn compute_d_converges_and_dominates_reserves() {
    // positive, not too skewed reserve vectors: the solve converges and
    // the invariant is at least the largest reserve.  (For heavily skewed
    // reserves the invariant legitimately drops below the largest one.)
    let cases: [(Vec<u128>, u64); 5] = [
        (vec![1, 1, 1], 1),
        (vec![30_000_000_000, 20_000_000_000, 20_000_000_000], 1000),
        (vec![1_000_000, 2_000_000, 3_000_000], 100),
        (vec![1_000, 1_000], 1),
        (vec![123_456, 654_321, 999_999], 1000),
    ];
    for (reserves, amp) in cases.iter() {
        let d = compute_d(reserves, *amp).unwrap();
        let max = *reserves.iter().max().unwrap();
        assert!(d >= max, "D {} below largest reserve {}", d, max);
    }
}

#[test]
fn compute_d_balanced_pool_is_exact() {
    // with equal reserves the invariant is exactly the reserve sum
    let d = compute_d(&vec![1_000_000, 1_000_000, 1_000_000], 1000).unwrap();
    assert_eq!(d, 3_000_000);
    let d2 = compute_d(&vec![5_000, 5_000], 10).unwrap();
    assert_eq!(d2, 10_000);
}

#[test]
fn compute_d_empty_pool_is_zero() {
    assert_eq!(compute_d(&vec![0, 0, 0], 1000).unwrap(), 0);
}

#[test]
fn swap_and_reverse_swap_round_trip() {
    // quoting the output of a forward swap back through the reverse quote
    // recovers the offer within a few integer units, across ratios
    let fees = standard_fees();
    let cases: [(u128, u128, u128, u128); 4] = [
        (30_000_000_000, 20_000_000_000, 20_000_000_000, 1_500_000_000),
        (10_000_000, 10_000_000, 10_000_000, 250_000),
        (500_000_000, 900_000_000, 700_000_000, 1_000_000),
        (123_456_789_000, 98_765_432_100, 111_111_111_111, 777_777_777),
    ];
    for (offer_pool, ask_pool, unswapped, amount) in cases.iter() {
        let sc = compute_swap(*offer_pool, *ask_pool, &vec![*unswapped], *amount, &fees, 1000)
            .unwrap();
        let oc = compute_offer_amount(
            *offer_pool,
            *ask_pool,
            &vec![*unswapped],
            sc.return_amount,
            &fees,
            1000,
        )
        .unwrap();
        let diff = *amount as i128 - oc.offer_amount as i128;
        assert!(diff.abs() <= 3, "round trip drifted by {}", diff);
    }
}

#[test]
fn fee_split_partitions_gross_output_exactly() {
    let fees = standard_fees();
    let sc = apply_fees(1_000_003, 7, &fees).unwrap();
    assert_eq!(sc.protocol_fee_amount, 1_000);
    assert_eq!(sc.swap_fee_amount, 3_000);
    assert_eq!(sc.burn_fee_amount, 1_000);
    assert_eq!(sc.return_amount, 995_003);
    assert_eq!(sc.spread_amount, 7);
    assert_eq!(
        sc.return_amount + sc.protocol_fee_amount + sc.swap_fee_amount + sc.burn_fee_amount,
        1_000_003
    );

    // an extreme but individually valid schedule whose shares sum past 1
    // must fail the split, not wrap
    let bad = PoolFee {
        protocol_fee: Fee::from_ratio(99, 100).unwrap(),
        swap_fee: Fee::from_ratio(99, 100).unwrap(),
        burn_fee: Fee::from_ratio(99, 100).unwrap(),
    };
    match apply_fees(1_000_000, 0, &bad) {
        Err(ContractError::OverflowError) => (),
        _ => panic!("oversized fees must not pay out"),
    }
}

#[test]
fn pool_fee_validation() {
    assert!(standard_fees().validate());
    let too_big = PoolFee {
        protocol_fee: Fee::from_ratio(50, 100).unwrap(),
        swap_fee: Fee::from_ratio(50, 100).unwrap(),
        burn_fee: Fee::zero(),
    };
    assert!(!too_big.validate());
}

#[test]
fn first_deposit_mints_invariant_less_locked_minimum() {
    // equal deposits make the invariant exact: 3 * 1_000_000, of which
    // 3 * 1_000 stays locked
    let share = compute_first_deposit_share(&vec![1_000_000, 1_000_000, 1_000_000], 1000).unwrap();
    assert_eq!(share, 2_997_000);

    // exactly the minimum mints zero shares
    let share = compute_first_deposit_share(&vec![1_000, 1_000, 1_000], 1000).unwrap();
    assert_eq!(share, 0);

    // below the minimum the deposit is rejected
    match compute_first_deposit_share(&vec![100, 100, 100], 1000) {
        Err(ContractError::InvalidInitialLiquidityAmount) => (),
        _ => panic!("tiny first deposit must be rejected"),
    }
}

#[test]
fn later_deposit_mints_proportional_share() {
    // growing every reserve by a tenth grows the invariant by a tenth
    let share = compute_mint_amount_for_deposit(
        &vec![100_000, 100_000, 100_000],
        &vec![1_000_000, 1_000_000, 1_000_000],
        2_997_000,
        1000,
    )
    .unwrap();
    assert_eq!(share, 299_700);

    // a deposit of nothing grows the invariant by nothing
    match compute_mint_amount_for_deposit(
        &vec![0, 0, 0],
        &vec![1_000_000, 1_000_000, 1_000_000],
        2_997_000,
        1000,
    ) {
        Err(ContractError::InvalidInitialLiquidityAmount) => (),
        _ => panic!("a deposit that grows nothing must be rejected"),
    }
}

#[test]
fn pending_fees_never_wrap_reserves() {
    let assets = vec![
        Asset {
            info: native("uusd"),
            amount: 100,
        },
        Asset {
            info: token("asset0000"),
            amount: 1_000,
        },
    ];
    let fees_ok = vec![
        Asset {
            info: native("uusd"),
            amount: 40,
        },
        Asset {
            info: token("asset0000"),
            amount: 1_000,
        },
    ];
    let adjusted = deduct_pending_fees(&assets, &fees_ok).unwrap();
    assert_eq!(adjusted[0].amount, 60);
    assert_eq!(adjusted[1].amount, 0);

    // a ledger claiming more than the reserve is a hard error, never a wrap
    let fees_over = vec![Asset {
        info: native("uusd"),
        amount: 200,
    }];
    match deduct_pending_fees(&assets, &fees_over) {
        Err(ContractError::OverflowError) => (),
        _ => panic!("underflow must surface as an overflow error"),
    }
}

#[test]
fn hook_credited_token_deposit_is_excluded() {
    let assets = vec![
        Asset {
            info: native("uusd"),
            amount: 500,
        },
        Asset {
            info: token("asset0000"),
            amount: 1_000,
        },
    ];

    // only the offered token's slot shrinks; native slots stay untouched
    let adjusted = deduct_token_deposit(&assets, &token("asset0000"), 300).unwrap();
    assert_eq!(adjusted[0].amount, 500);
    assert_eq!(adjusted[1].amount, 700);

    // a native offer is not excluded here: the execute path corrects it
    let untouched = deduct_token_deposit(&assets, &native("uusd"), 300).unwrap();
    assert_eq!(untouched[0].amount, 500);
    assert_eq!(untouched[1].amount, 1_000);

    // a credit larger than the balance signals a corrupt snapshot
    match deduct_token_deposit(&assets, &token("asset0000"), 2_000) {
        Err(ContractError::OverflowError) => (),
        _ => panic!("underflow must surface as an overflow error"),
    }
}

#[test]
fn resolve_roles_rejects_unknown_and_identical_assets() {
    let assets = vec![
        Asset {
            info: native("uusd"),
            amount: 1,
        },
        Asset {
            info: token("asset0000"),
            amount: 1,
        },
        Asset {
            info: token("asset0001"),
            amount: 1,
        },
    ];

    let roles = resolve_roles(&assets, &token("asset0001"), &native("uusd")).unwrap();
    assert_eq!(roles.offer_idx, 2);
    assert_eq!(roles.ask_idx, 0);
    assert_eq!(roles.other_idxs, vec![1]);

    match resolve_roles(&assets, &native("uusd"), &native("uusd")) {
        Err(ContractError::AssetMismatch) => (),
        _ => panic!("swapping an asset against itself must fail"),
    }
    match resolve_roles(&assets, &token("nowhere"), &native("uusd")) {
        Err(ContractError::AssetMismatch) => (),
        _ => panic!("an unconfigured asset must fail"),
    }
    // a native coin and a token with the same identifier are different assets
    match resolve_roles(&assets, &native("asset0000"), &native("uusd")) {
        Err(ContractError::AssetMismatch) => (),
        _ => panic!("asset kinds must be distinguished"),
    }
}

#[test]
fn amp_schedule_interpolates_between_blocks() {
    let ramp_up = AmplificationSchedule {
        initial_amp: 100,
        future_amp: 200,
        initial_amp_block: 100,
        future_amp_block: 200,
    };
    assert_eq!(ramp_up.amp_factor(50), 100);
    assert_eq!(ramp_up.amp_factor(100), 100);
    assert_eq!(ramp_up.amp_factor(150), 150);
    assert_eq!(ramp_up.amp_factor(175), 175);
    assert_eq!(ramp_up.amp_factor(200), 200);
    assert_eq!(ramp_up.amp_factor(5_000), 200);

    let ramp_down = AmplificationSchedule {
        initial_amp: 200,
        future_amp: 100,
        initial_amp_block: 100,
        future_amp_block: 200,
    };
    assert_eq!(ramp_down.amp_factor(150), 150);
    assert_eq!(ramp_down.amp_factor(199), 101);

    let constant = AmplificationSchedule::constant(1000);
    assert_eq!(constant.amp_factor(0), 1000);
    assert_eq!(constant.amp_factor(u64::MAX), 1000);
}

#[test]
fn ledger_records_on_both_horizons_and_resets_one() {
    let infos = vec![native("uusd"), token("asset0000")];
    let ledger = FeeLedger::new_zeroed(&infos);
    let ledger = ledger.record(&"uusd".to_string(), 70).unwrap();
    let ledger = ledger.record(&"uusd".to_string(), 30).unwrap();
    let ledger = ledger.record(&"asset0000".to_string(), 5).unwrap();
    assert_eq!(get_protocol_fee_for_asset(&ledger.pending, &"uusd".to_string()), 100);
    assert_eq!(get_protocol_fee_for_asset(&ledger.all_time, &"uusd".to_string()), 100);

    let (reset, collected) = ledger.reset_pending();
    assert_eq!(get_protocol_fee_for_asset(&collected, &"uusd".to_string()), 100);
    assert_eq!(get_protocol_fee_for_asset(&reset.pending, &"uusd".to_string()), 0);
    assert_eq!(get_protocol_fee_for_asset(&reset.pending, &"asset0000".to_string()), 0);
    // the all-time horizon survives the sweep
    assert_eq!(get_protocol_fee_for_asset(&reset.all_time, &"uusd".to_string()), 100);
    assert_eq!(get_protocol_fee_for_asset(&reset.all_time, &"asset0000".to_string()), 5);

    // an unknown identifier records nowhere
    let untouched = reset.record(&"unknown".to_string(), 99).unwrap();
    assert_eq!(get_protocol_fee_for_asset(&untouched.pending, &"uusd".to_string()), 0);
    assert_eq!(get_protocol_fee_for_asset(&untouched.pending, &"unknown".to_string()), 0);

    // recording past the range fails and leaves nothing half-done
    let full = store_fee(
        &vec![Asset {
            info: native("uusd"),
            amount: u128::MAX,
        }],
        &"uusd".to_string(),
        1,
    );
    match full {
        Err(ContractError::OverflowError) => (),
        _ => panic!("ledger overflow must fail"),
    }
}

#[test]
fn collect_sweep_transfers_nonzero_pending_fees() {
    let infos = vec![native("uusd"), token("asset0000"), token("asset0001")];
    let ledger = FeeLedger::new_zeroed(&infos);
    let ledger = ledger.record(&"uusd".to_string(), 11).unwrap();
    let ledger = ledger.record(&"asset0001".to_string(), 22).unwrap();

    let (swept, actions) = collect_protocol_fees(&ledger, &"collector".to_string());
    assert_eq!(actions.len(), 2);
    match &actions[0] {
        Instruction::Transfer { recipient, asset } => {
            assert_eq!(recipient, "collector");
            assert!(asset.info.equal(&native("uusd")));
            assert_eq!(asset.amount, 11);
        }
        _ => panic!("expected a transfer"),
    }
    match &actions[1] {
        Instruction::Transfer { recipient, asset } => {
            assert_eq!(recipient, "collector");
            assert!(asset.info.equal(&token("asset0001")));
            assert_eq!(asset.amount, 22);
        }
        _ => panic!("expected a transfer"),
    }
    assert_eq!(get_protocol_fee_for_asset(&swept.pending, &"uusd".to_string()), 0);
    assert_eq!(get_protocol_fee_for_asset(&swept.all_time, &"uusd".to_string()), 11);
}

#[test]
fn provide_liquidity_first_deposit_locks_minimum() {
    let infos = [native("uusd"), token("asset0000"), token("asset0001")];
    let pool = Pool {
        assets: vec![
            // the native deposit is already credited to the contract
            Asset {
                info: infos[0].clone(),
                amount: 1_000_000,
            },
            Asset {
                info: infos[1].clone(),
                amount: 0,
            },
            Asset {
                info: infos[2].clone(),
                amount: 0,
            },
        ],
        asset_decimals: vec![6, 6, 6],
    };
    let no_fees: Vec<Asset> = Vec::new();
    let deposits = vec![
        Asset {
            info: infos[1].clone(),
            amount: 1_000_000,
        },
        Asset {
            info: infos[0].clone(),
            amount: 1_000_000,
        },
        Asset {
            info: infos[2].clone(),
            amount: 1_000_000,
        },
    ];
    let result = provide_liquidity(
        &pool,
        &no_fees,
        &deposits,
        None,
        0,
        1000,
        &all_enabled(),
        &"addr0000".to_string(),
        &"pool_contract".to_string(),
        &"addr0000".to_string(),
    )
    .unwrap();
    assert_eq!(result.share, 2_997_000);

    // two pulls for the token deposits, the locked minimum, the depositor's mint
    assert_eq!(result.actions.len(), 4);
    match &result.actions[0] {
        Instruction::PullDeposit { owner, asset } => {
            assert_eq!(owner, "addr0000");
            assert!(asset.info.equal(&infos[1]));
            assert_eq!(asset.amount, 1_000_000);
        }
        _ => panic!("expected a pull"),
    }
    match &result.actions[2] {
        Instruction::MintShares { recipient, amount } => {
            assert_eq!(recipient, "pool_contract");
            assert_eq!(*amount, 3_000);
        }
        _ => panic!("expected the locked mint"),
    }
    match &result.actions[3] {
        Instruction::MintShares { recipient, amount } => {
            assert_eq!(recipient, "addr0000");
            assert_eq!(*amount, 2_997_000);
        }
        _ => panic!("expected the depositor's mint"),
    }
}

#[test]
fn provide_liquidity_rejects_zero_and_missing_deposits() {
    let infos = [native("uusd"), token("asset0000"), token("asset0001")];
    let pool = Pool {
        assets: vec![
            Asset {
                info: infos[0].clone(),
                amount: 1_000,
            },
            Asset {
                info: infos[1].clone(),
                amount: 0,
            },
            Asset {
                info: infos[2].clone(),
                amount: 0,
            },
        ],
        asset_decimals: vec![6, 6, 6],
    };
    let no_fees: Vec<Asset> = Vec::new();

    let zero_deposit = vec![
        Asset {
            info: infos[0].clone(),
            amount: 1_000,
        },
        Asset {
            info: infos[1].clone(),
            amount: 0,
        },
        Asset {
            info: infos[2].clone(),
            amount: 5,
        },
    ];
    match provide_liquidity(
        &pool,
        &no_fees,
        &zero_deposit,
        None,
        0,
        1000,
        &all_enabled(),
        &"addr0000".to_string(),
        &"pool_contract".to_string(),
        &"addr0000".to_string(),
    ) {
        Err(ContractError::InvalidZeroAmount) => (),
        _ => panic!("a zero deposit must be rejected"),
    }

    let missing_deposit = vec![
        Asset {
            info: infos[0].clone(),
            amount: 1_000,
        },
        Asset {
            info: infos[1].clone(),
            amount: 5,
        },
    ];
    match provide_liquidity(
        &pool,
        &no_fees,
        &missing_deposit,
        None,
        0,
        1000,
        &all_enabled(),
        &"addr0000".to_string(),
        &"pool_contract".to_string(),
        &"addr0000".to_string(),
    ) {
        Err(ContractError::AssetMismatch) => (),
        _ => panic!("an undeclared pool asset must be rejected"),
    }

    let disabled = FeatureToggle {
        withdrawals_enabled: true,
        deposits_enabled: false,
        swaps_enabled: true,
    };
    match provide_liquidity(
        &pool,
        &no_fees,
        &zero_deposit,
        None,
        0,
        1000,
        &disabled,
        &"addr0000".to_string(),
        &"pool_contract".to_string(),
        &"addr0000".to_string(),
    ) {
        Err(ContractError::OperationDisabled(Feature::Deposits)) => (),
        _ => panic!("disabled deposits must be rejected"),
    }
}

#[test]
fn slippage_band_accepts_even_and_rejects_skewed_deposits() {
    let st = Some(Fee::from_ratio(1, 100).unwrap());
    assert_slippage_tolerance(st, &vec![100, 100], &vec![1_000, 1_000]).unwrap();
    match assert_slippage_tolerance(st, &vec![100, 200], &vec![1_000, 1_000]) {
        Err(ContractError::MaxSpreadExceeded) => (),
        _ => panic!("a skewed deposit must be rejected"),
    }
    // an empty pool accepts any ratio
    assert_slippage_tolerance(st, &vec![100, 200], &vec![0, 0]).unwrap();
    // no tolerance given, no check
    assert_slippage_tolerance(None, &vec![100, 200], &vec![1_000, 1_000]).unwrap();
}

#[test]
fn max_spread_assertion() {
    let ms = Some(Fee::from_ratio(1, 100).unwrap());
    // spread of half a percent passes a one percent cap
    assert_max_spread(None, ms, 1_000_000, 995_000, 5_000).unwrap();
    // two percent does not
    match assert_max_spread(None, ms, 1_000_000, 980_000, 20_000) {
        Err(ContractError::MaxSpreadExceeded) => (),
        _ => panic!("spread past the cap must be rejected"),
    }
    // belief price path: expecting 2_000_000 out but getting far less
    let belief_half = Some(500_000_000_000_000_000u128);
    match assert_max_spread(belief_half, ms, 1_000_000, 1_000_000, 0) {
        Err(ContractError::MaxSpreadExceeded) => (),
        _ => panic!("shortfall against the belief price must be rejected"),
    }
    assert_max_spread(belief_half, ms, 1_000_000, 1_995_000, 0).unwrap();
    // no cap given, no check
    assert_max_spread(None, None, 1, 1, 1_000_000).unwrap();
}

#[test]
fn withdraw_liquidity_pays_proportional_refunds() {
    let infos = [native("uusd"), token("asset0000")];
    let pool = Pool {
        assets: vec![
            Asset {
                info: infos[0].clone(),
                amount: 100,
            },
            Asset {
                info: infos[1].clone(),
                amount: 200,
            },
        ],
        asset_decimals: vec![6, 6],
    };
    let pending = vec![
        Asset {
            info: infos[0].clone(),
            amount: 10,
        },
        Asset {
            info: infos[1].clone(),
            amount: 20,
        },
    ];
    let result = withdraw_liquidity(
        &pool,
        &pending,
        100,
        1_000,
        &all_enabled(),
        &"addr0000".to_string(),
    )
    .unwrap();
    // a tenth of each reserve net of its pending fees
    assert_eq!(result.refund_assets[0].amount, 9);
    assert_eq!(result.refund_assets[1].amount, 18);
    assert_eq!(result.actions.len(), 3);
    match &result.actions[2] {
        Instruction::BurnShares { amount } => assert_eq!(*amount, 100),
        _ => panic!("the returned shares must be burned"),
    }

    let disabled = FeatureToggle {
        withdrawals_enabled: false,
        deposits_enabled: true,
        swaps_enabled: true,
    };
    match withdraw_liquidity(&pool, &pending, 100, 1_000, &disabled, &"addr0000".to_string()) {
        Err(ContractError::OperationDisabled(Feature::Withdrawals)) => (),
        _ => panic!("disabled withdrawals must be rejected"),
    }
}

#[test]
fn query_pool_nets_out_pending_fees() {
    let infos = [native("uusd"), token("asset0000")];
    let pool = Pool {
        assets: vec![
            Asset {
                info: infos[0].clone(),
                amount: 100,
            },
            Asset {
                info: infos[1].clone(),
                amount: 200,
            },
        ],
        asset_decimals: vec![6, 6],
    };
    let pending = vec![Asset {
        info: infos[0].clone(),
        amount: 30,
    }];
    let resp = query_pool(&pool, &pending, 12_345).unwrap();
    assert_eq!(resp.assets[0].amount, 70);
    assert_eq!(resp.assets[1].amount, 200);
    assert_eq!(resp.total_share, 12_345);
}

#[test]
fn query_fees_selects_ledger_and_asset() {
    let pending = vec![
        Asset {
            info: native("uusd"),
            amount: 7,
        },
        Asset {
            info: token("asset0000"),
            amount: 9,
        },
    ];
    let all_time = vec![
        Asset {
            info: native("uusd"),
            amount: 700,
        },
        Asset {
            info: token("asset0000"),
            amount: 900,
        },
    ];

    let whole = query_fees(&pending, Some(&all_time), None, None);
    assert_eq!(whole.fees.len(), 2);
    assert_eq!(whole.fees[0].amount, 7);

    let one = query_fees(&pending, Some(&all_time), Some(&"asset0000".to_string()), None);
    assert_eq!(one.fees.len(), 1);
    assert_eq!(one.fees[0].amount, 9);

    let historic = query_fees(&pending, Some(&all_time), None, Some(true));
    assert_eq!(historic.fees[0].amount, 700);

    let not_historic = query_fees(&pending, Some(&all_time), None, Some(false));
    assert_eq!(not_historic.fees[0].amount, 7);
}

#[test]
fn update_config_honours_owner_and_validity() {
    let config = Config {
        owner: "owner".to_string(),
        fee_collector_addr: "collector".to_string(),
        pool_fees: standard_fees(),
        feature_toggle: all_enabled(),
        amp_schedule: AmplificationSchedule::constant(1000),
    };

    match update_config(&config, &"stranger".to_string(), None, None, None, None, None) {
        Err(ContractError::Unauthorized) => (),
        _ => panic!("only the owner may update"),
    }

    let invalid = PoolFee {
        protocol_fee: Fee::from_ratio(60, 100).unwrap(),
        swap_fee: Fee::from_ratio(60, 100).unwrap(),
        burn_fee: Fee::zero(),
    };
    match update_config(
        &config,
        &"owner".to_string(),
        None,
        None,
        Some(invalid),
        None,
        None,
    ) {
        Err(ContractError::InvalidFee) => (),
        _ => panic!("an invalid fee schedule must be rejected"),
    }

    match update_config(&config, &"owner".to_string(), None, None, None, None, Some(0)) {
        Err(ContractError::InvalidAmpFactor) => (),
        _ => panic!("a zero amplification must be rejected"),
    }

    let updated = update_config(
        &config,
        &"owner".to_string(),
        Some("new_owner".to_string()),
        None,
        None,
        None,
        Some(500),
    )
    .unwrap();
    assert_eq!(updated.owner, "new_owner");
    assert_eq!(updated.fee_collector_addr, "collector");
    assert_eq!(updated.amp_schedule.initial_amp, 500);
    assert_eq!(updated.amp_schedule.future_amp, 500);
}
