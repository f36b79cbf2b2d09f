use lending_core::error::{ArithmeticOp, Error};
use lending_core::incentive::{
    compute_asset_incentive_index, update_asset_incentive_index, AssetIncentive,
};
use lending_core::math::{Decimal, DECIMAL_FRACTIONAL};
use lending_core::rewards::{
    compute_new_user_unclaimed_rewards, compute_user_accrued_rewards, update_user_rewards,
    Collaterals,
};

#[test]
fn test_asset_incentive_compute_index() {
    assert_eq!(
        compute_asset_incentive_index(Decimal::zero(), 100, 200_000, 1000, 10),
        Err(Error::Overflow {
            op: ArithmeticOp::Sub,
            operand1: 1000,
            operand2: 10,
        })
    );

    assert_eq!(
        compute_asset_incentive_index(Decimal::zero(), u128::MAX, 200_000, 0, 2),
        Err(Error::Overflow {
            op: ArithmeticOp::Mul,
            operand1: u128::MAX,
            operand2: 2,
        })
    );

    assert_eq!(
        compute_asset_incentive_index(Decimal::zero(), 100, 200_000, 0, 1000).unwrap(),
        Decimal::from_ratio(1, 2)
    );
    assert_eq!(
        compute_asset_incentive_index(Decimal::from_ratio(1, 2), 2000, 5_000_000, 20_000, 30_000)
            .unwrap(),
        Decimal::from_ratio(9, 2)
    );
}

#[test]
fn test_user_compute_accrued_rewards() {
    assert_eq!(
        compute_user_accrued_rewards(0, Decimal::one(), Decimal::from_ratio(2, 1)).unwrap(),
        0
    );

    assert_eq!(
        compute_user_accrued_rewards(100, Decimal::zero(), Decimal::from_ratio(2, 1)).unwrap(),
        200
    );
    assert_eq!(
        compute_user_accrued_rewards(100, Decimal::one(), Decimal::from_ratio(2, 1)).unwrap(),
        100
    );
}

#[test]
fn accrued_rewards_underflow_is_reported() {
    // A stored user index above the incentive index indicates a bug
    // upstream; the accountant must surface it, not default it.
    let r = compute_user_accrued_rewards(10, Decimal::one(), Decimal::from_ratio(1, 2));
    assert_eq!(
        r,
        Err(Error::Overflow {
            op: ArithmeticOp::Sub,
            operand1: 5,
            operand2: 10,
        })
    );
}

#[test]
fn index_advance_concrete_scenario() {
    // Emission 100/s from t=500000 to t=600000 over a supply of 100000
    // raises the index by 100x100000/100000 = 100; a user holding 10000
    // settled at index 1 accrues 10000x101 - 10000x1 = 1000000.
    let mut incentive = AssetIncentive {
        emission_per_second: 100,
        start_time: 0,
        duration: 10_000_000,
        index: Decimal::one(),
        last_updated: 500_000,
    };
    update_asset_incentive_index(&mut incentive, 100_000, 600_000).unwrap();
    assert_eq!(incentive.index, Decimal::from_ratio(101, 1));
    assert_eq!(incentive.last_updated, 600_000);

    let reward =
        compute_user_accrued_rewards(10_000, Decimal::one(), incentive.index).unwrap();
    assert_eq!(reward, 1_000_000);
}

#[test]
fn index_advance_is_clamped_to_schedule() {
    // The schedule lapses at 2000, so only [1000, 2000) accrues:
    // 10x1000/5000 = 2 on top of index 1.
    let mut incentive = AssetIncentive {
        emission_per_second: 10,
        start_time: 0,
        duration: 2_000,
        index: Decimal::one(),
        last_updated: 1_000,
    };
    update_asset_incentive_index(&mut incentive, 5_000, 3_000).unwrap();
    assert_eq!(incentive.index, Decimal::from_ratio(3, 1));
    assert_eq!(incentive.last_updated, 3_000);

    // A lapsed incentive no longer moves the index, but still stamps the
    // time.
    let mut lapsed = incentive;
    update_asset_incentive_index(&mut lapsed, 5_000, 4_000).unwrap();
    assert_eq!(lapsed.index, incentive.index);
    assert_eq!(lapsed.last_updated, 4_000);
}

#[test]
fn index_advance_zero_emission_moves_only_the_clock() {
    let mut incentive = AssetIncentive {
        emission_per_second: 0,
        start_time: 0,
        duration: 10_000,
        index: Decimal::one(),
        last_updated: 1_000,
    };
    update_asset_incentive_index(&mut incentive, 5_000, 2_000).unwrap();
    assert_eq!(incentive.index, Decimal::one());
    assert_eq!(incentive.last_updated, 2_000);
}

#[test]
fn index_advance_rejects_backwards_clock() {
    // last_updated is already past the block time: the accrual window
    // inverts and the advance reports it instead of accruing.
    let mut incentive = AssetIncentive {
        emission_per_second: 10,
        start_time: 0,
        duration: 10_000,
        index: Decimal::one(),
        last_updated: 5_000,
    };
    let untouched = incentive;
    let r = update_asset_incentive_index(&mut incentive, 1_000, 4_000);
    assert_eq!(
        r,
        Err(Error::Overflow {
            op: ArithmeticOp::Sub,
            operand1: 5_000,
            operand2: 4_000,
        })
    );
    assert_eq!(incentive, untouched);
}

#[test]
fn claim_settlement_across_denoms() {
    let now = 600_000;

    // An incentive with ongoing rewards: accrues 1000000 for the user on
    // top of 50000 already unclaimed.
    let asset_incentive = AssetIncentive {
        emission_per_second: 100,
        start_time: 0,
        duration: 10_000_000,
        index: Decimal::one(),
        last_updated: 500_000,
    };
    let asset_update = update_user_rewards(
        &asset_incentive,
        &Collaterals {
            user_collateral: 10_000,
            total_collateral: 100_000,
        },
        Some(Decimal::one()),
        50_000,
        now,
        true,
    )
    .unwrap();
    assert_eq!(asset_update.previous_rewards, 50_000);
    assert_eq!(asset_update.current_rewards, 1_050_000);
    assert_eq!(asset_update.unclaimed_rewards_write, 0);
    let written = asset_update.asset_incentive_write.unwrap();
    assert_eq!(written.index, Decimal::from_ratio(101, 1));
    assert_eq!(written.last_updated, now);
    assert_eq!(
        asset_update.user_asset_index_write,
        Some(Decimal::from_ratio(101, 1))
    );

    // An incentive with no emission but a stale user index: the index
    // stays, yet the user still collects the gap since their settlement.
    let zero_incentive = AssetIncentive {
        emission_per_second: 0,
        start_time: 0,
        duration: 10_000_000,
        index: Decimal::one(),
        last_updated: 500_000,
    };
    let zero_update = update_user_rewards(
        &zero_incentive,
        &Collaterals {
            user_collateral: 10_000,
            total_collateral: 200_000,
        },
        Some(Decimal::from_ratio(1, 2)),
        0,
        now,
        true,
    )
    .unwrap();
    assert_eq!(zero_update.current_rewards, 5_000);
    assert_eq!(zero_update.unclaimed_rewards_write, 0);
    let written = zero_update.asset_incentive_write.unwrap();
    assert_eq!(written.index, Decimal::one());
    assert_eq!(written.last_updated, now);
    assert_eq!(zero_update.user_asset_index_write, Some(Decimal::one()));

    // A denom the user holds no balance in: nothing accrues, nothing is
    // written — not even the advanced incentive or a user index.
    let no_user_incentive = AssetIncentive {
        emission_per_second: 200,
        start_time: 0,
        duration: 10_000_000,
        index: Decimal::one(),
        last_updated: 500_000,
    };
    let no_user_update = update_user_rewards(
        &no_user_incentive,
        &Collaterals {
            user_collateral: 0,
            total_collateral: 100_000,
        },
        None,
        0,
        now,
        true,
    )
    .unwrap();
    assert_eq!(no_user_update.current_rewards, 0);
    assert_eq!(no_user_update.asset_incentive_write, None);
    assert_eq!(no_user_update.user_asset_index_write, None);

    // The claim pays out the sum of the settlements.
    let total = asset_update.current_rewards
        + zero_update.current_rewards
        + no_user_update.current_rewards;
    assert_eq!(total, 1_055_000);
}

#[test]
fn second_claim_yields_zero() {
    let now = 600_000;
    let incentive = AssetIncentive {
        emission_per_second: 100,
        start_time: 0,
        duration: 10_000_000,
        index: Decimal::one(),
        last_updated: 500_000,
    };
    let collaterals = Collaterals {
        user_collateral: 10_000,
        total_collateral: 100_000,
    };

    let first = update_user_rewards(&incentive, &collaterals, Some(Decimal::one()), 0, now, true)
        .unwrap();
    assert_eq!(first.current_rewards, 1_000_000);
    assert_eq!(first.unclaimed_rewards_write, 0);

    // Replay against the state the first claim wrote: same block time,
    // same balances, cleared unclaimed balance.
    let stored_incentive = first.asset_incentive_write.unwrap();
    let stored_index = first.user_asset_index_write;
    let second = update_user_rewards(
        &stored_incentive,
        &collaterals,
        stored_index,
        first.unclaimed_rewards_write,
        now,
        true,
    )
    .unwrap();
    assert_eq!(second.current_rewards, 0);
    assert_eq!(second.unclaimed_rewards_write, 0);
}

#[test]
fn zero_balance_settlement_writes_nothing() {
    // Even though the global index would advance, a zero-balance user's
    // settlement must not create or move their index.
    let incentive = AssetIncentive {
        emission_per_second: 100,
        start_time: 0,
        duration: 10_000_000,
        index: Decimal::one(),
        last_updated: 500_000,
    };
    let (reward, status) = compute_new_user_unclaimed_rewards(
        incentive,
        &Collaterals {
            user_collateral: 0,
            total_collateral: 100_000,
        },
        None,
        600_000,
    )
    .unwrap();
    assert_eq!(reward, 0);
    assert!(status.is_none());
}

#[test]
fn settlement_skips_index_write_when_unchanged() {
    // The user is already settled at the incentive's index and nothing
    // accrues: the incentive is re-stamped, but the user index write is
    // skipped as redundant.
    let incentive = AssetIncentive {
        emission_per_second: 0,
        start_time: 0,
        duration: 10_000_000,
        index: Decimal::one(),
        last_updated: 500_000,
    };
    let update = update_user_rewards(
        &incentive,
        &Collaterals {
            user_collateral: 10_000,
            total_collateral: 100_000,
        },
        Some(Decimal::one()),
        7,
        600_000,
        false,
    )
    .unwrap();
    assert_eq!(update.current_rewards, 7);
    assert_eq!(update.unclaimed_rewards_write, 7);
    assert!(update.asset_incentive_write.is_some());
    assert_eq!(update.user_asset_index_write, None);
}

#[test]
fn decimal_arithmetic_matches_fixed_point_rules() {
    assert_eq!(Decimal::from_ratio(1, 2).atomics(), DECIMAL_FRACTIONAL / 2);
    assert_eq!(Decimal::one().atomics(), DECIMAL_FRACTIONAL);
    assert_eq!(
        Decimal::from_ratio(2, 3).atomics(),
        666_666_666_666_666_666
    );
    assert_eq!(
        Decimal::from_ratio(1, 2).checked_sub(Decimal::from_ratio(1, 2)),
        Ok(Decimal::zero())
    );
    assert_eq!(
        Decimal::zero().checked_sub(Decimal::one()),
        Err(Error::Overflow {
            op: ArithmeticOp::Sub,
            operand1: 0,
            operand2: DECIMAL_FRACTIONAL,
        })
    );
    assert_eq!(
        Decimal::from_ratio(3, 2).checked_mul(Decimal::from_ratio(1, 2)),
        Ok(Decimal::from_ratio(3, 4))
    );
    assert_eq!(
        Decimal::from_ratio(9, 2).checked_div(Decimal::from_ratio(3, 2)),
        Ok(Decimal::from_ratio(3, 1))
    );
    assert!(Decimal::from_ratio(1, 2).lt(&Decimal::one()));
    assert!(!Decimal::one().lt(&Decimal::one()));
    assert!(Decimal::zero().is_zero());
    assert!(!Decimal::raw(1).is_zero());
}
