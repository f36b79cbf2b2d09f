//! User reward accountant.
//!
//! A user's newly accrued reward is their scaled balance times the growth
//! of the incentive index since they were last settled. Settlement is a
//! pure state transition here: it takes the stored incentive, the user's
//! stored index and unclaimed balance, and the current balances, and
//! returns the values the caller must persist. The persistence layer
//! itself is a collaborator.

use vstd::prelude::*;

use crate::error::{ArithmeticOp, Error};
use crate::incentive::AssetIncentive;
use crate::math::{mul_div, Decimal, DECIMAL_FRACTIONAL};

verus! {

/// A user's reward gross-up at one index reading: `amount * index`,
/// floored to whole reward units.
pub open spec fn gross_reward(amount: int, index_atomics: int) -> int {
    mul_div(amount, index_atomics, DECIMAL_FRACTIONAL as int)
}

/// The stored per-user index, with absence meaning the user was never
/// settled and starts from index zero.
pub open spec fn stored_or_zero(stored: Option<Decimal>) -> Decimal {
    match stored {
        Some(d) => d,
        None => Decimal { atomics: 0 },
    }
}

/// The user's balances relevant to one settlement: their own scaled
/// collateral and the market's total scaled supply, as the market
/// collaborator reports them.
#[derive(Clone, Copy, Debug, PartialEq, Eq, Structural)]
pub struct Collaterals {
    /// The user's scaled collateral balance in the collateral denom.
    pub user_collateral: u128,
    /// Total scaled supply of the collateral denom.
    pub total_collateral: u128,
}

/// What one settlement found: the user's stored index as it was read, and
/// the incentive advanced to the current block (not yet persisted).
#[derive(Clone, Copy, Debug, PartialEq, Eq, Structural)]
pub struct UserAssetIncentiveStatus {
    /// The user's index as stored before this settlement (zero if absent).
    pub user_index_current: Decimal,
    /// The incentive with its index advanced to the current block.
    pub asset_incentive_updated: AssetIncentive,
}

/// The user's newly accrued reward from one settlement: zero when their
/// balance is zero or the advanced index equals their stored one, else
/// the gross-up difference between the two index readings.
pub open spec fn settlement_rewards(
    inc: AssetIncentive,
    c: Collaterals,
    stored: Option<Decimal>,
    now: int,
) -> int {
    if c.user_collateral == 0 {
        0
    } else {
        let adv = inc.advanced(c.total_collateral as int, now);
        let ui = stored_or_zero(stored);
        if ui == adv.index {
            0
        } else {
            gross_reward(c.user_collateral as int, adv.index.atomics as int) - gross_reward(
                c.user_collateral as int,
                ui.atomics as int,
            )
        }
    }
}

/// Whether one settlement succeeds: for a user with a balance, the index
/// advance must succeed, and the advanced index's gross-up must not fall
/// below the stored one's (it cannot, while the index only grows).
pub open spec fn settlement_ok(
    inc: AssetIncentive,
    c: Collaterals,
    stored: Option<Decimal>,
    now: int,
) -> bool {
    c.user_collateral != 0 ==> {
        let adv = inc.advanced(c.total_collateral as int, now);
        let ui = stored_or_zero(stored);
        &&& inc.advance_ok(c.total_collateral as int, now)
        &&& (ui != adv.index ==> gross_reward(c.user_collateral as int, adv.index.atomics as int)
            >= gross_reward(c.user_collateral as int, ui.atomics as int))
    }
}

/// Machine limits on one settlement: the schedule end, the advanced
/// index, and both gross-ups must be representable.
pub open spec fn settlement_fits(
    inc: AssetIncentive,
    c: Collaterals,
    stored: Option<Decimal>,
    now: int,
) -> bool {
    c.user_collateral != 0 ==> {
        let adv = inc.advanced(c.total_collateral as int, now);
        let ui = stored_or_zero(stored);
        &&& inc.start_time + inc.duration <= u64::MAX
        &&& inc.advance_fits(c.total_collateral as int, now)
        &&& (inc.advance_ok(c.total_collateral as int, now) && ui != adv.index ==> {
            &&& gross_reward(c.user_collateral as int, adv.index.atomics as int) <= u128::MAX
            &&& gross_reward(c.user_collateral as int, ui.atomics as int) <= u128::MAX
        })
    }
}

/// The error a failing settlement reports: the advance's own error, or
/// the underflow of the gross-up subtraction, naming the two gross-ups.
pub open spec fn settlement_error(
    inc: AssetIncentive,
    c: Collaterals,
    stored: Option<Decimal>,
    now: int,
) -> Error {
    if !inc.advance_ok(c.total_collateral as int, now) {
        crate::incentive::advance_error(inc, now)
    } else {
        let adv = inc.advanced(c.total_collateral as int, now);
        let ui = stored_or_zero(stored);
        Error::Overflow {
            op: ArithmeticOp::Sub,
            operand1: gross_reward(c.user_collateral as int, adv.index.atomics as int) as u128,
            operand2: gross_reward(c.user_collateral as int, ui.atomics as int) as u128,
        }
    }
}

/// The settlement status handed back for persisting: absent for a user
/// with no balance (nothing to write), else the stored index and the
/// advanced incentive.
pub open spec fn spec_settlement_status(
    inc: AssetIncentive,
    c: Collaterals,
    stored: Option<Decimal>,
    now: int,
) -> Option<UserAssetIncentiveStatus> {
    if c.user_collateral == 0 {
        None
    } else {
        Some(
            UserAssetIncentiveStatus {
                user_index_current: stored_or_zero(stored),
                asset_incentive_updated: inc.advanced(c.total_collateral as int, now),
            },
        )
    }
}

/// The user's reward accrued between two index readings:
/// `user_amount_scaled * asset_incentive_index - user_amount_scaled *
/// user_asset_index`, each product floored to whole reward units. Fails
/// with an underflow when the current index's gross-up falls below the
/// stored one's — which the index engine's monotonicity rules out, so a
/// failure here indicates a bug upstream, not user error. The caller must
/// rule out the inputs on which a gross-up overflows.
pub fn compute_user_accrued_rewards(
    user_amount_scaled: u128,
    user_asset_index: Decimal,
    asset_incentive_index: Decimal,
) -> (r: Result<u128, Error>)
    requires
        gross_reward(user_amount_scaled as int, asset_incentive_index.atomics as int)
            <= u128::MAX,
        gross_reward(user_amount_scaled as int, user_asset_index.atomics as int) <= u128::MAX,
    ensures
        ({
            let current = gross_reward(
                user_amount_scaled as int,
                asset_incentive_index.atomics as int,
            );
            let prior = gross_reward(user_amount_scaled as int, user_asset_index.atomics as int);
            &&& (current >= prior ==> r == Ok::<u128, Error>((current - prior) as u128))
            &&& (current < prior ==> r == Err::<u128, Error>(
                (Error::Overflow {
                    op: ArithmeticOp::Sub,
                    operand1: current as u128,
                    operand2: prior as u128,
                }),
            ))
        }),
{
    let current = crate::math::mul_amount(user_amount_scaled, asset_incentive_index);
    let prior = crate::math::mul_amount(user_amount_scaled, user_asset_index);
    if current >= prior {
        Ok(current - prior)
    } else {
        Err(Error::Overflow { op: ArithmeticOp::Sub, operand1: current, operand2: prior })
    }
}

/// One settlement for a user, collateral denom and incentive denom: skips
/// entirely when the user's balance is zero (a zero balance was already
/// settled when it last changed), else advances the incentive index and
/// accrues the reward since the user's stored index (zero if absent).
/// Returns the new reward together with the values to persist, or the
/// advance's or accrual's arithmetic error.
pub fn compute_new_user_unclaimed_rewards(
    asset_incentive: AssetIncentive,
    collaterals: &Collaterals,
    user_asset_index: Option<Decimal>,
    current_block_time: u64,
) -> (r: Result<(u128, Option<UserAssetIncentiveStatus>), Error>)
    requires
        settlement_fits(asset_incentive, *collaterals, user_asset_index, current_block_time as int),
    ensures
        r is Ok <==> settlement_ok(
            asset_incentive,
            *collaterals,
            user_asset_index,
            current_block_time as int,
        ),
        r matches Ok(v) ==> v.0 == settlement_rewards(
            asset_incentive,
            *collaterals,
            user_asset_index,
            current_block_time as int,
        ) && v.1 == spec_settlement_status(
            asset_incentive,
            *collaterals,
            user_asset_index,
            current_block_time as int,
        ),
        r is Err ==> r == Err::<(u128, Option<UserAssetIncentiveStatus>), Error>(
            settlement_error(
                asset_incentive,
                *collaterals,
                user_asset_index,
                current_block_time as int,
            ),
        ),
{
    if collaterals.user_collateral == 0 {
        return Ok((0, None));
    }

    let mut incentive = asset_incentive;
    match crate::incentive::update_asset_incentive_index(
        &mut incentive,
        collaterals.total_collateral,
        current_block_time,
    ) {
        Ok(()) => {},
        Err(e) => {
            return Err(e);
        },
    }

    let user_index = match user_asset_index {
        Some(d) => d,
        None => Decimal::zero(),
    };

    let mut unclaimed_rewards: u128 = 0;
    if !(user_index == incentive.index) {
        match compute_user_accrued_rewards(
            collaterals.user_collateral,
            user_index,
            incentive.index,
        ) {
            Ok(accrued) => {
                unclaimed_rewards = accrued;
            },
            Err(e) => {
                return Err(e);
            },
        }
    }

    Ok(
        (
            unclaimed_rewards,
            Some(
                UserAssetIncentiveStatus {
                    user_index_current: user_index,
                    asset_incentive_updated: incentive,
                },
            ),
        ),
    )
}

/// The storage effects of one settlement, for the caller to apply
/// atomically.
#[derive(Clone, Copy, Debug, PartialEq, Eq, Structural)]
pub struct RewardsUpdate {
    /// The unclaimed balance as stored before the settlement.
    pub previous_rewards: u128,
    /// The unclaimed balance including this settlement's accrual.
    pub current_rewards: u128,
    /// What to store as the unclaimed balance: zero on a claim, else
    /// `current_rewards`.
    pub unclaimed_rewards_write: u128,
    /// The advanced incentive to store, absent when the settlement
    /// skipped (zero balance).
    pub asset_incentive_write: Option<AssetIncentive>,
    /// The user's new index to store, absent when the settlement skipped
    /// or the index did not change (avoiding a redundant write).
    pub user_asset_index_write: Option<Decimal>,
}

/// The user-index write of one settlement: nothing for a zero balance or
/// an unchanged index, else the advanced index.
pub open spec fn spec_user_index_write(
    inc: AssetIncentive,
    c: Collaterals,
    stored: Option<Decimal>,
    now: int,
) -> Option<Decimal> {
    if c.user_collateral == 0 {
        None
    } else {
        let adv = inc.advanced(c.total_collateral as int, now);
        if adv.index == stored_or_zero(stored) {
            None
        } else {
            Some(adv.index)
        }
    }
}

/// The incentive write of one settlement: nothing for a zero balance,
/// else the advanced incentive.
pub open spec fn spec_incentive_write(
    inc: AssetIncentive,
    c: Collaterals,
    stored: Option<Decimal>,
    now: int,
) -> Option<AssetIncentive> {
    if c.user_collateral == 0 {
        None
    } else {
        Some(inc.advanced(c.total_collateral as int, now))
    }
}

/// Settles one user, collateral denom and incentive denom against the
/// stored unclaimed balance: accrues the new reward on top of
/// `previous_rewards` and spells out every storage write — the unclaimed
/// balance (zeroed when `clear_rewards` marks this settlement as part of
/// a claim), the advanced incentive, and the user's index (only when it
/// actually changed). The caller must rule out an unrepresentable
/// unclaimed total.
pub fn update_user_rewards(
    asset_incentive: &AssetIncentive,
    collaterals: &Collaterals,
    user_asset_index: Option<Decimal>,
    previous_rewards: u128,
    current_block_time: u64,
    clear_rewards: bool,
) -> (r: Result<RewardsUpdate, Error>)
    requires
        settlement_fits(
            *asset_incentive,
            *collaterals,
            user_asset_index,
            current_block_time as int,
        ),
        settlement_ok(*asset_incentive, *collaterals, user_asset_index, current_block_time as int)
            ==> previous_rewards + settlement_rewards(
            *asset_incentive,
            *collaterals,
            user_asset_index,
            current_block_time as int,
        ) <= u128::MAX,
    ensures
        r is Ok <==> settlement_ok(
            *asset_incentive,
            *collaterals,
            user_asset_index,
            current_block_time as int,
        ),
        r matches Ok(u) ==> u == (RewardsUpdate {
            previous_rewards,
            current_rewards: (previous_rewards + settlement_rewards(
                *asset_incentive,
                *collaterals,
                user_asset_index,
                current_block_time as int,
            )) as u128,
            unclaimed_rewards_write: if clear_rewards {
                0u128
            } else {
                (previous_rewards + settlement_rewards(
                    *asset_incentive,
                    *collaterals,
                    user_asset_index,
                    current_block_time as int,
                )) as u128
            },
            asset_incentive_write: spec_incentive_write(
                *asset_incentive,
                *collaterals,
                user_asset_index,
                current_block_time as int,
            ),
            user_asset_index_write: spec_user_index_write(
                *asset_incentive,
                *collaterals,
                user_asset_index,
                current_block_time as int,
            ),
        }),
        r is Err ==> r == Err::<RewardsUpdate, Error>(
            settlement_error(
                *asset_incentive,
                *collaterals,
                user_asset_index,
                current_block_time as int,
            ),
        ),
{
    let (new_unclaimed_rewards, status) = match compute_new_user_unclaimed_rewards(
        *asset_incentive,
        collaterals,
        user_asset_index,
        current_block_time,
    ) {
        Ok(v) => v,
        Err(e) => {
            return Err(e);
        },
    };

    let current_rewards = previous_rewards + new_unclaimed_rewards;
    let unclaimed_rewards_write = if clear_rewards {
        0
    } else {
        current_rewards
    };

    let (asset_incentive_write, user_asset_index_write) = match status {
        Some(status) => {
            let updated = status.asset_incentive_updated;
            let index_write = if !(updated.index == status.user_index_current) {
                Some(updated.index)
            } else {
                None
            };
            (Some(updated), index_write)
        },
        None => (None, None),
    };

    Ok(
        RewardsUpdate {
            previous_rewards,
            current_rewards,
            unclaimed_rewards_write,
            asset_incentive_write,
            user_asset_index_write,
        },
    )
}

/// Law: for a balance whose gross-up at the old index is a whole number
/// of reward units, the accrued reward is exactly the balance times the
/// index delta. (With flooring this can fail otherwise: balance 1 between
/// indices 0.6 and 1.5 accrues 1, while 1 times 0.9 floors to 0.)
pub proof fn lemma_accrued_rewards_exact(balance: u128, idx_old: Decimal, idx_new: Decimal)
    requires
        idx_old.atomics <= idx_new.atomics,
        (balance as int * idx_old.atomics as int) % (DECIMAL_FRACTIONAL as int) == 0,
    ensures
        gross_reward(balance as int, idx_new.atomics as int) - gross_reward(
            balance as int,
            idx_old.atomics as int,
        ) == mul_div(
            balance as int,
            idx_new.atomics - idx_old.atomics,
            DECIMAL_FRACTIONAL as int,
        ),
{
    let frac = DECIMAL_FRACTIONAL as int;
    let u = balance as int;
    let a = idx_old.atomics as int;
    let b = idx_new.atomics as int;
    let k = (u * a) / frac;
    vstd::arithmetic::div_mod::lemma_fundamental_div_mod(u * a, frac);
    assert(u * a == k * frac);
    assert(u * b - k * frac == u * (b - a)) by (nonlinear_arith)
        requires
            u * a == k * frac,
    ;
    vstd::arithmetic::div_mod::lemma_hoist_over_denominator(u * (b - a), k, frac as nat);
    assert(u * (b - a) / frac + k == (u * (b - a) + k * frac) / frac);
    assert(u * (b - a) + k * frac == u * b) by (nonlinear_arith)
        requires
            u * a == k * frac,
    ;
}

/// Law: a growing index never lowers the gross-up, so accrual between an
/// older and a newer index reading always succeeds; at an unchanged index
/// it accrues zero, and a zero balance accrues zero at any indices.
pub proof fn lemma_accrued_rewards_monotone(balance: u128, idx_old: Decimal, idx_new: Decimal)
    requires
        idx_old.atomics <= idx_new.atomics,
    ensures
        gross_reward(balance as int, idx_new.atomics as int) >= gross_reward(
            balance as int,
            idx_old.atomics as int,
        ),
        gross_reward(balance as int, idx_new.atomics as int) - gross_reward(
            balance as int,
            idx_new.atomics as int,
        ) == 0,
        gross_reward(0, idx_old.atomics as int) == 0 && gross_reward(
            0,
            idx_new.atomics as int,
        ) == 0,
{
    let frac = DECIMAL_FRACTIONAL as int;
    let u = balance as int;
    let a = idx_old.atomics as int;
    let b = idx_new.atomics as int;
    vstd::arithmetic::mul::lemma_mul_inequality(a, b, u);
    vstd::arithmetic::div_mod::lemma_div_is_ordered(a * u, b * u, frac);
    vstd::arithmetic::mul::lemma_mul_is_commutative(a, u);
    vstd::arithmetic::mul::lemma_mul_is_commutative(b, u);
}

/// Law: settling a user with zero collateral balance accrues nothing and
/// writes neither the user's index nor the incentive — even when the
/// global index would advance — and always succeeds.
pub proof fn lemma_zero_balance_settlement_writes_nothing(
    inc: AssetIncentive,
    c: Collaterals,
    stored: Option<Decimal>,
    now: u64,
)
    requires
        c.user_collateral == 0,
    ensures
        settlement_rewards(inc, c, stored, now as int) == 0,
        settlement_ok(inc, c, stored, now as int),
        spec_user_index_write(inc, c, stored, now as int) is None,
        spec_incentive_write(inc, c, stored, now as int) is None,
{
}

/// Law: claiming twice in immediate succession accrues nothing the second
/// time. A settlement that cleared the unclaimed balance leaves state —
/// the advanced incentive and the user's index as written — from which a
/// second settlement at the same block time, with the same balances,
/// accrues zero and owes success; with the cleared balance its payout is
/// zero.
pub proof fn lemma_second_claim_accrues_nothing(
    inc: AssetIncentive,
    c: Collaterals,
    stored: Option<Decimal>,
    now: u64,
)
    requires
        settlement_ok(inc, c, stored, now as int),
    ensures
        ({
            let inc_after = match spec_incentive_write(inc, c, stored, now as int) {
                Some(written) => written,
                None => inc,
            };
            let stored_after = match spec_user_index_write(inc, c, stored, now as int) {
                Some(written) => Some(written),
                None => stored,
            };
            &&& settlement_rewards(inc_after, c, stored_after, now as int) == 0
            &&& settlement_ok(inc_after, c, stored_after, now as int)
        }),
{
    if c.user_collateral != 0 {
        let adv = inc.advanced(c.total_collateral as int, now as int);
        assert(!adv.advances(c.total_collateral as int, now as int));
    }
}

} // verus!
