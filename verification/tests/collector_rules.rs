use lending_core::collector::{
    clamp_query_limit, distribute_target, split_rewards, RewardTarget,
};
use lending_core::error::Error;
use lending_core::math::Decimal;

#[test]
fn rewards_split_by_the_tax_rate() {
    assert_eq!(split_rewards(100, Decimal::from_ratio(1, 4)), (25, 75));
    assert_eq!(split_rewards(100, Decimal::zero()), (0, 100));
    assert_eq!(split_rewards(100, Decimal::one()), (100, 0));
    // The safety fund's share floors; the fee collector keeps the rest.
    assert_eq!(split_rewards(3, Decimal::from_ratio(1, 2)), (1, 2));
}

#[test]
fn distribution_targets_by_denom() {
    let safety = "uusdc".to_string();
    let fee = "umars".to_string();
    assert_eq!(
        distribute_target(&"uusdc".to_string(), &safety, &fee),
        Ok(RewardTarget::SafetyFund)
    );
    assert_eq!(
        distribute_target(&"umars".to_string(), &safety, &fee),
        Ok(RewardTarget::FeeCollector)
    );
    assert_eq!(
        distribute_target(&"uosmo".to_string(), &safety, &fee),
        Err(Error::AssetNotEnabledForDistribution {
            denom: "uosmo".to_string(),
        })
    );
}

#[test]
fn route_listing_limit_is_defaulted_and_capped() {
    assert_eq!(clamp_query_limit(None), 5);
    assert_eq!(clamp_query_limit(Some(7)), 7);
    assert_eq!(clamp_query_limit(Some(50)), 10);
}
