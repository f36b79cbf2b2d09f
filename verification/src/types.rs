//! Red-bank configuration and query-response shapes.

use vstd::prelude::*;

use crate::error::Error;
use crate::health::{Health, UserHealthStatus};
use crate::math::{Decimal, DECIMAL_FRACTIONAL};

verus! {

/// Global red-bank configuration.
#[derive(Clone, Debug, PartialEq, Eq)]
pub struct Config {
    /// Contract owner.
    pub owner: String,
    /// Address provider for all protocol contracts.
    pub address_provider: String,
    /// Maximum share of outstanding debt a liquidator may cover.
    pub close_factor: Decimal,
}

impl Config {
    /// Checks the configuration: the close factor is a fraction, so it
    /// must not exceed one.
    pub fn validate(&self) -> (r: Result<(), Error>)
        ensures
            r is Ok <==> self.close_factor.atomics <= DECIMAL_FRACTIONAL,
            r matches Err(e) ==> e matches Error::InvalidParam { param_name }
                && param_name@ == "close_factor"@,
    {
        if self.close_factor.atomics > DECIMAL_FRACTIONAL {
            Err(Error::InvalidParam { param_name: "close_factor".to_owned() })
        } else {
            Ok(())
        }
    }
}

/// The configuration as a query response.
#[derive(Clone, Debug, PartialEq, Eq)]
pub struct ConfigResponse {
    /// Contract owner.
    pub owner: String,
    /// Address provider for all protocol contracts.
    pub address_provider: String,
    /// Maximum share of outstanding debt a liquidator may cover.
    pub close_factor: Decimal,
}

/// A user's uncollateralized loan limit in one denom.
#[derive(Clone, Debug, PartialEq, Eq)]
pub struct UncollateralizedLoanLimitResponse {
    /// Asset denom.
    pub denom: String,
    /// Uncollateralized loan limit in this asset.
    pub limit: u128,
}

/// A user's debt in one denom.
#[derive(Clone, Debug, PartialEq, Eq)]
pub struct UserDebtResponse {
    /// Asset denom.
    pub denom: String,
    /// Scaled debt amount stored in contract state.
    pub amount_scaled: u128,
    /// Underlying amount actually owed at the current block.
    pub amount: u128,
    /// Marker for uncollateralized debt.
    pub uncollateralized: bool,
}

/// A user's collateral in one denom.
#[derive(Clone, Debug, PartialEq, Eq)]
pub struct UserCollateralResponse {
    /// Asset denom.
    pub denom: String,
    /// Scaled collateral amount stored in contract state.
    pub amount_scaled: u128,
    /// Underlying amount actually deposited at the current block.
    pub amount: u128,
    /// Whether the user is using the asset as collateral.
    pub enabled: bool,
}

/// A user's aggregated position as a query response.
#[derive(Clone, Copy, Debug, PartialEq, Eq, Structural)]
pub struct UserPositionResponse {
    /// Total value of enabled collateral.
    pub total_enabled_collateral: Decimal,
    /// Total value of collateralized debt.
    pub total_collateralized_debt: Decimal,
    /// Collateral value weighted by maximum loan-to-value.
    pub weighted_max_ltv_collateral: Decimal,
    /// Collateral value weighted by liquidation threshold.
    pub weighted_liquidation_threshold_collateral: Decimal,
    /// The user's solvency classification.
    pub health_status: UserHealthStatus,
}

/// The position response a reduced health reads out to.
pub fn user_position_response(health: &Health) -> (r: UserPositionResponse)
    ensures
        r.total_enabled_collateral == health.total_enabled_collateral,
        r.total_collateralized_debt == health.total_collateralized_debt,
        r.weighted_max_ltv_collateral == health.weighted_max_ltv_collateral,
        r.weighted_liquidation_threshold_collateral
            == health.weighted_liquidation_threshold_collateral,
        r.health_status == health.spec_status(),
{
    UserPositionResponse {
        total_enabled_collateral: health.total_enabled_collateral,
        total_collateralized_debt: health.total_collateralized_debt,
        weighted_max_ltv_collateral: health.weighted_max_ltv_collateral,
        weighted_liquidation_threshold_collateral:
            health.weighted_liquidation_threshold_collateral,
        health_status: health.health_status(),
    }
}

} // verus!
