//! Decision rules of the rewards collector.
//!
//! The collector swaps collected rewards into two treasury denoms and
//! forwards them. Message plumbing and storage are the caller's concern;
//! what is decided here is how an amount splits between the safety fund
//! and the fee collector, where a denom may be distributed to, and how a
//! route listing clamps its page size.

use vstd::prelude::*;

use crate::error::Error;
use crate::math::{mul_div, Decimal, DECIMAL_FRACTIONAL};

verus! {

/// Default page size of a route listing.
pub const DEFAULT_LIMIT: u32 = 5;

/// Largest page size of a route listing.
pub const MAX_LIMIT: u32 = 10;

/// Where distributed rewards go.
#[derive(Clone, Copy, Debug, PartialEq, Eq, Structural)]
pub enum RewardTarget {
    /// The protocol's safety fund.
    SafetyFund,
    /// The protocol's fee collector.
    FeeCollector,
}

/// Splits an amount to swap between the safety fund and the fee
/// collector: the safety fund's share is `amount * safety_tax_rate`,
/// floored, and the fee collector keeps the rest. The tax rate is a
/// fraction, so the shares always rejoin to the amount exactly.
pub fn split_rewards(amount: u128, safety_tax_rate: Decimal) -> (r: (u128, u128))
    requires
        safety_tax_rate.atomics <= DECIMAL_FRACTIONAL,
    ensures
        r.0 == mul_div(amount as int, safety_tax_rate.atomics as int, DECIMAL_FRACTIONAL as int),
        r.0 + r.1 == amount,
{
    proof {
        vstd::arithmetic::mul::lemma_mul_inequality(
            safety_tax_rate.atomics as int,
            DECIMAL_FRACTIONAL as int,
            amount as int,
        );
        vstd::arithmetic::mul::lemma_mul_is_commutative(
            safety_tax_rate.atomics as int,
            amount as int,
        );
        vstd::arithmetic::mul::lemma_mul_is_commutative(DECIMAL_FRACTIONAL as int, amount as int);
        vstd::arithmetic::div_mod::lemma_div_is_ordered(
            amount as int * safety_tax_rate.atomics as int,
            amount as int * DECIMAL_FRACTIONAL as int,
            DECIMAL_FRACTIONAL as int,
        );
        vstd::arithmetic::div_mod::lemma_div_multiples_vanish(
            amount as int,
            DECIMAL_FRACTIONAL as int,
        );
        vstd::arithmetic::mul::lemma_mul_is_commutative(
            DECIMAL_FRACTIONAL as int,
            amount as int,
        );
    }
    let amount_safety_fund = crate::math::mul_amount(amount, safety_tax_rate);
    let amount_fee_collector = amount - amount_safety_fund;
    (amount_safety_fund, amount_fee_collector)
}

/// Where a denom's rewards are distributed: to the safety fund when it is
/// the safety fund denom, else to the fee collector when it is the fee
/// collector denom; any other denom is rejected outright.
pub fn distribute_target(
    denom: &String,
    safety_fund_denom: &String,
    fee_collector_denom: &String,
) -> (r: Result<RewardTarget, Error>)
    ensures
        denom@ == safety_fund_denom@ ==> r == Ok::<RewardTarget, Error>(RewardTarget::SafetyFund),
        denom@ != safety_fund_denom@ && denom@ == fee_collector_denom@ ==> r == Ok::<
            RewardTarget,
            Error,
        >(RewardTarget::FeeCollector),
        denom@ != safety_fund_denom@ && denom@ != fee_collector_denom@ ==> (r matches Err(e) && e
            == (Error::AssetNotEnabledForDistribution { denom: *denom })),
{
    if *denom == *safety_fund_denom {
        Ok(RewardTarget::SafetyFund)
    } else if *denom == *fee_collector_denom {
        Ok(RewardTarget::FeeCollector)
    } else {
        Err(Error::AssetNotEnabledForDistribution { denom: denom.clone() })
    }
}

/// The page size a route listing uses: the requested limit, defaulted and
/// capped.
pub fn clamp_query_limit(limit: Option<u32>) -> (r: usize)
    ensures
        r == match limit {
            Some(l) => if l < MAX_LIMIT {
                l as int
            } else {
                MAX_LIMIT as int
            },
            None => DEFAULT_LIMIT as int,
        },
{
    let l = match limit {
        Some(l) => if l < MAX_LIMIT {
            l
        } else {
            MAX_LIMIT
        },
        None => DEFAULT_LIMIT,
    };
    l as usize
}

} // verus!
