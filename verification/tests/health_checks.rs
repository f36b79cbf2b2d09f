use lending_core::error::{ArithmeticOp, Error};
use lending_core::health::{
    assert_below_liq_threshold_after_withdraw, assert_below_max_ltv_after_borrow,
    assert_liquidatable, compute_position_health, UserHealthStatus,
};
use lending_core::math::Decimal;
use lending_core::position::Position;
use lending_core::types::{user_position_response, Config};

fn position(denom: &str) -> Position {
    Position {
        denom: denom.to_string(),
        collateral_amount: 0,
        debt_amount: 0,
        uncollateralized_debt: false,
        max_ltv: Decimal::zero(),
        liquidation_threshold: Decimal::zero(),
        asset_price: Decimal::one(),
    }
}

#[test]
fn zero_debt_classifies_as_not_borrowing() {
    // Whatever the collateral, a user without collateralized debt is not
    // borrowing and cannot be liquidated.
    let positions = vec![
        Position {
            collateral_amount: 1_000_000,
            max_ltv: Decimal::from_ratio(1, 2),
            liquidation_threshold: Decimal::from_ratio(3, 5),
            asset_price: Decimal::from_ratio(7, 1),
            ..position("uosmo")
        },
        Position {
            collateral_amount: 42,
            ..position("uatom")
        },
    ];
    let health = compute_position_health(&positions).unwrap();
    assert_eq!(health.health_status(), UserHealthStatus::NotBorrowing);
    assert_eq!(health.max_ltv_health_factor, None);
    assert_eq!(health.liquidation_health_factor, None);
    assert!(!health.is_liquidatable());
    assert!(!health.is_above_max_ltv());
    assert_eq!(assert_liquidatable(&positions), Ok(false));

    let response = user_position_response(&health);
    assert_eq!(response.health_status, UserHealthStatus::NotBorrowing);
    assert_eq!(
        response.total_enabled_collateral,
        health.total_enabled_collateral
    );
}

#[test]
fn health_factors_weigh_collateral_against_debt() {
    // Collateral 1000 at price 1 with max LTV 0.5 and threshold 0.6
    // carries debt 400 at price 1: factors 500/400 and 600/400.
    let positions = vec![Position {
        collateral_amount: 1_000,
        debt_amount: 400,
        max_ltv: Decimal::from_ratio(1, 2),
        liquidation_threshold: Decimal::from_ratio(3, 5),
        ..position("uosmo")
    }];
    let health = compute_position_health(&positions).unwrap();
    assert_eq!(
        health.max_ltv_health_factor,
        Some(Decimal::from_ratio(5, 4))
    );
    assert_eq!(
        health.liquidation_health_factor,
        Some(Decimal::from_ratio(3, 2))
    );
    assert!(!health.is_liquidatable());
    assert!(!health.is_above_max_ltv());
    match health.health_status() {
        UserHealthStatus::Borrowing {
            max_ltv_hf,
            liq_threshold_hf,
        } => {
            assert_eq!(max_ltv_hf, Decimal::from_ratio(5, 4));
            assert_eq!(liq_threshold_hf, Decimal::from_ratio(3, 2));
        }
        UserHealthStatus::NotBorrowing => panic!("the user is borrowing"),
    }

    // More debt than the threshold carries: liquidatable.
    let positions = vec![Position {
        collateral_amount: 1_000,
        debt_amount: 700,
        max_ltv: Decimal::from_ratio(1, 2),
        liquidation_threshold: Decimal::from_ratio(3, 5),
        ..position("uosmo")
    }];
    let health = compute_position_health(&positions).unwrap();
    assert!(health.is_liquidatable());
    assert!(health.is_above_max_ltv());
    assert_eq!(assert_liquidatable(&positions), Ok(true));
}

#[test]
fn uncollateralized_debt_is_not_counted() {
    let positions = vec![Position {
        collateral_amount: 1_000,
        debt_amount: 700,
        uncollateralized_debt: true,
        max_ltv: Decimal::from_ratio(1, 2),
        liquidation_threshold: Decimal::from_ratio(3, 5),
        ..position("uosmo")
    }];
    let health = compute_position_health(&positions).unwrap();
    assert_eq!(health.total_collateralized_debt, Decimal::zero());
    assert_eq!(health.health_status(), UserHealthStatus::NotBorrowing);
}

#[test]
fn disabled_collateral_still_counts_its_debt() {
    // The aggregator zeroes disabled collateral; the evaluator then sees
    // pure debt and classifies the user as deep under water.
    let positions = vec![Position {
        collateral_amount: 0,
        debt_amount: 10,
        max_ltv: Decimal::from_ratio(1, 2),
        liquidation_threshold: Decimal::from_ratio(3, 5),
        ..position("uosmo")
    }];
    let health = compute_position_health(&positions).unwrap();
    assert_eq!(health.max_ltv_health_factor, Some(Decimal::zero()));
    assert!(health.is_liquidatable());
}

#[test]
fn withdraw_precheck_rejects_insufficient_balance() {
    // Withdrawing 1500 from a collateral of 1000 must fail loudly, not
    // floor to zero.
    let positions = vec![Position {
        collateral_amount: 1_000,
        max_ltv: Decimal::from_ratio(1, 2),
        liquidation_threshold: Decimal::from_ratio(3, 5),
        ..position("uosmo")
    }];
    let r = assert_below_liq_threshold_after_withdraw(&positions, &"uosmo".to_string(), 1_500);
    assert_eq!(
        r,
        Err(Error::Overflow {
            op: ArithmeticOp::Sub,
            operand1: 1_000,
            operand2: 1_500,
        })
    );

    let r = assert_below_liq_threshold_after_withdraw(&positions, &"uatom".to_string(), 1);
    assert_eq!(r, Err(Error::NoUserBalance));
}

#[test]
fn withdraw_precheck_evaluates_remaining_collateral() {
    let positions = vec![Position {
        collateral_amount: 1_000,
        debt_amount: 300,
        max_ltv: Decimal::from_ratio(1, 2),
        liquidation_threshold: Decimal::from_ratio(3, 5),
        ..position("uosmo")
    }];
    // 400 left: threshold carries 240 < 300 debt, so the user would be
    // liquidatable.
    assert_eq!(
        assert_below_liq_threshold_after_withdraw(&positions, &"uosmo".to_string(), 600),
        Ok(false)
    );
    // 600 left: threshold carries 360 >= 300.
    assert_eq!(
        assert_below_liq_threshold_after_withdraw(&positions, &"uosmo".to_string(), 400),
        Ok(true)
    );
    // The hypothetical withdrawal never touches the input.
    assert_eq!(positions[0].collateral_amount, 1_000);
}

#[test]
fn borrow_precheck_creates_zero_basis_position() {
    // The user has collateral in uosmo only; borrowing uatom creates a
    // fresh zero-basis entry priced by the oracle, with no parameters
    // reused from uosmo.
    let positions = vec![Position {
        collateral_amount: 1_000,
        max_ltv: Decimal::from_ratio(1, 2),
        liquidation_threshold: Decimal::from_ratio(3, 5),
        ..position("uosmo")
    }];

    // 400 uatom at price 1 against borrowing power 500: fine.
    assert_eq!(
        assert_below_max_ltv_after_borrow(
            &positions,
            &"uatom".to_string(),
            400,
            Decimal::one()
        ),
        Ok(true)
    );
    // 600 at price 1 exceeds it.
    assert_eq!(
        assert_below_max_ltv_after_borrow(
            &positions,
            &"uatom".to_string(),
            600,
            Decimal::one()
        ),
        Ok(false)
    );
    // The freshly fetched price is what the debt is valued at: 300 at
    // price 2 is 600 in value, exceeding the borrowing power again.
    assert_eq!(
        assert_below_max_ltv_after_borrow(
            &positions,
            &"uatom".to_string(),
            300,
            Decimal::from_ratio(2, 1)
        ),
        Ok(false)
    );
}

#[test]
fn borrow_precheck_grows_existing_debt() {
    let positions = vec![Position {
        collateral_amount: 1_000,
        debt_amount: 300,
        max_ltv: Decimal::from_ratio(1, 2),
        liquidation_threshold: Decimal::from_ratio(3, 5),
        ..position("uosmo")
    }];
    // 300 + 100 = 400 <= 500 of borrowing power.
    assert_eq!(
        assert_below_max_ltv_after_borrow(
            &positions,
            &"uosmo".to_string(),
            100,
            Decimal::one()
        ),
        Ok(true)
    );
    // 300 + 300 = 600 > 500.
    assert_eq!(
        assert_below_max_ltv_after_borrow(
            &positions,
            &"uosmo".to_string(),
            300,
            Decimal::one()
        ),
        Ok(false)
    );
}

#[test]
fn config_close_factor_is_a_fraction() {
    let config = Config {
        owner: "owner".to_string(),
        address_provider: "address_provider".to_string(),
        close_factor: Decimal::from_ratio(1, 2),
    };
    assert_eq!(config.validate(), Ok(()));

    let config = Config {
        close_factor: Decimal::from_ratio(3, 2),
        ..config
    };
    assert_eq!(
        config.validate(),
        Err(Error::InvalidParam {
            param_name: "close_factor".to_string(),
        })
    );
}
