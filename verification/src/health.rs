//! Health evaluator.
//!
//! A pure reduction over a user's positions: each position's collateral
//! and debt are converted to common value units via `amount * price`,
//! summed, and weighted by the market's risk parameters. The two health
//! factors divide the weighted collateral by the collateralized debt;
//! with no debt they are undefined and the user is simply not borrowing.

use vstd::prelude::*;

use crate::error::{ArithmeticOp, Error};
use crate::math::{mul_div, Decimal, DECIMAL_FRACTIONAL};
use crate::position::Position;

verus! {

/// A user's solvency classification.
#[derive(Clone, Copy, Debug, PartialEq, Eq, Structural)]
pub enum UserHealthStatus {
    /// No collateralized debt: infinitely healthy, whatever the
    /// collateral.
    NotBorrowing,
    /// Health factors at the two risk parameters; below one at a
    /// parameter means insolvent at that parameter.
    Borrowing { max_ltv_hf: Decimal, liq_threshold_hf: Decimal },
}

/// Unbounded running totals of a health reduction, in value units.
pub struct HealthTotals {
    /// Sum of enabled collateral values.
    pub total_collateral: int,
    /// Sum of collateralized debt values.
    pub total_debt: int,
    /// Sum of collateral values weighted by maximum loan-to-value.
    pub max_ltv_weighted: int,
    /// Sum of collateral values weighted by liquidation threshold.
    pub liq_threshold_weighted: int,
}

/// A position's collateral value in common units: `amount * price`,
/// exact, as atomic units of a decimal.
pub open spec fn collateral_value(p: Position) -> int {
    p.collateral_amount * p.asset_price.atomics
}

/// A position's debt value in common units, before the collateralization
/// convention.
pub open spec fn raw_debt_value(p: Position) -> int {
    p.debt_amount * p.asset_price.atomics
}

/// A position's debt value counted towards collateralized totals: zero
/// when the debt is marked uncollateralized.
pub open spec fn debt_value(p: Position) -> int {
    if p.uncollateralized_debt {
        0
    } else {
        raw_debt_value(p)
    }
}

/// A position's collateral value weighted by its maximum loan-to-value.
pub open spec fn max_ltv_weighted_value(p: Position) -> int {
    mul_div(collateral_value(p), p.max_ltv.atomics as int, DECIMAL_FRACTIONAL as int)
}

/// A position's collateral value weighted by its liquidation threshold.
pub open spec fn liq_threshold_weighted_value(p: Position) -> int {
    mul_div(collateral_value(p), p.liquidation_threshold.atomics as int, DECIMAL_FRACTIONAL as int)
}

/// Whether accumulating one more position keeps every intermediate value
/// representable.
pub open spec fn position_fits(t: HealthTotals, p: Position) -> bool {
    &&& collateral_value(p) <= u128::MAX
    &&& t.total_collateral + collateral_value(p) <= u128::MAX
    &&& max_ltv_weighted_value(p) <= u128::MAX
    &&& t.max_ltv_weighted + max_ltv_weighted_value(p) <= u128::MAX
    &&& liq_threshold_weighted_value(p) <= u128::MAX
    &&& t.liq_threshold_weighted + liq_threshold_weighted_value(p) <= u128::MAX
    &&& (!p.uncollateralized_debt ==> raw_debt_value(p) <= u128::MAX && t.total_debt
        + raw_debt_value(p) <= u128::MAX)
}

/// The totals with one more position accumulated.
pub open spec fn add_position(t: HealthTotals, p: Position) -> HealthTotals {
    HealthTotals {
        total_collateral: t.total_collateral + collateral_value(p),
        total_debt: t.total_debt + debt_value(p),
        max_ltv_weighted: t.max_ltv_weighted + max_ltv_weighted_value(p),
        liq_threshold_weighted: t.liq_threshold_weighted + liq_threshold_weighted_value(p),
    }
}

/// The health totals of a position sequence, or `None` when some
/// intermediate value is unrepresentable.
pub open spec fn spec_totals(ps: Seq<Position>) -> Option<HealthTotals>
    decreases ps.len(),
{
    if ps.len() == 0 {
        Some(
            HealthTotals {
                total_collateral: 0,
                total_debt: 0,
                max_ltv_weighted: 0,
                liq_threshold_weighted: 0,
            },
        )
    } else {
        match spec_totals(ps.drop_last()) {
            None => None,
            Some(t) => if position_fits(t, ps.last()) {
                Some(add_position(t, ps.last()))
            } else {
                None
            },
        }
    }
}

/// The reduced health of a user's positions.
#[derive(Clone, Copy, Debug, PartialEq, Eq, Structural)]
pub struct Health {
    /// Total value of enabled collateral.
    pub total_enabled_collateral: Decimal,
    /// Total value of collateralized debt.
    pub total_collateralized_debt: Decimal,
    /// Collateral value weighted by maximum loan-to-value.
    pub weighted_max_ltv_collateral: Decimal,
    /// Collateral value weighted by liquidation threshold.
    pub weighted_liquidation_threshold_collateral: Decimal,
    /// Weighted max-LTV collateral over total debt; absent without debt.
    pub max_ltv_health_factor: Option<Decimal>,
    /// Weighted liquidation-threshold collateral over total debt; absent
    /// without debt.
    pub liquidation_health_factor: Option<Decimal>,
}

/// The health of a position sequence, or `None` when a total or a health
/// factor is unrepresentable.
pub open spec fn spec_health(ps: Seq<Position>) -> Option<Health> {
    match spec_totals(ps) {
        None => None,
        Some(t) => {
            if t.total_debt == 0 {
                Some(
                    Health {
                        total_enabled_collateral: Decimal { atomics: t.total_collateral as u128 },
                        total_collateralized_debt: Decimal { atomics: 0 },
                        weighted_max_ltv_collateral: Decimal { atomics: t.max_ltv_weighted as u128 },
                        weighted_liquidation_threshold_collateral: Decimal {
                            atomics: t.liq_threshold_weighted as u128,
                        },
                        max_ltv_health_factor: None,
                        liquidation_health_factor: None,
                    },
                )
            } else if mul_div(t.max_ltv_weighted, DECIMAL_FRACTIONAL as int, t.total_debt)
                <= u128::MAX && mul_div(
                t.liq_threshold_weighted,
                DECIMAL_FRACTIONAL as int,
                t.total_debt,
            ) <= u128::MAX {
                Some(
                    Health {
                        total_enabled_collateral: Decimal { atomics: t.total_collateral as u128 },
                        total_collateralized_debt: Decimal { atomics: t.total_debt as u128 },
                        weighted_max_ltv_collateral: Decimal { atomics: t.max_ltv_weighted as u128 },
                        weighted_liquidation_threshold_collateral: Decimal {
                            atomics: t.liq_threshold_weighted as u128,
                        },
                        max_ltv_health_factor: Some(
                            Decimal {
                                atomics: mul_div(
                                    t.max_ltv_weighted,
                                    DECIMAL_FRACTIONAL as int,
                                    t.total_debt,
                                ) as u128,
                            },
                        ),
                        liquidation_health_factor: Some(
                            Decimal {
                                atomics: mul_div(
                                    t.liq_threshold_weighted,
                                    DECIMAL_FRACTIONAL as int,
                                    t.total_debt,
                                ) as u128,
                            },
                        ),
                    },
                )
            } else {
                None
            }
        },
    }
}

impl Health {
    /// The classification: not borrowing exactly when the health factors
    /// are undefined, that is, when there is no collateralized debt.
    pub open spec fn spec_status(self) -> UserHealthStatus {
        if self.max_ltv_health_factor is Some && self.liquidation_health_factor is Some {
            UserHealthStatus::Borrowing {
                max_ltv_hf: self.max_ltv_health_factor->Some_0,
                liq_threshold_hf: self.liquidation_health_factor->Some_0,
            }
        } else {
            UserHealthStatus::NotBorrowing
        }
    }

    /// The user's solvency classification.
    pub fn health_status(&self) -> (r: UserHealthStatus)
        ensures
            r == self.spec_status(),
    {
        match (self.max_ltv_health_factor, self.liquidation_health_factor) {
            (Some(max_ltv_hf), Some(liq_threshold_hf)) => UserHealthStatus::Borrowing {
                max_ltv_hf,
                liq_threshold_hf,
            },
            _ => UserHealthStatus::NotBorrowing,
        }
    }

    /// Liquidatable: borrowing, and the liquidation-threshold health
    /// factor is below one.
    pub open spec fn spec_is_liquidatable(self) -> bool {
        self.liquidation_health_factor matches Some(hf) && hf.atomics < DECIMAL_FRACTIONAL
    }

    /// True iff the user is liquidatable.
    pub fn is_liquidatable(&self) -> (r: bool)
        ensures
            r == self.spec_is_liquidatable(),
    {
        match self.liquidation_health_factor {
            Some(hf) => hf.atomics < DECIMAL_FRACTIONAL,
            None => false,
        }
    }

    /// Above the borrowing limit: borrowing, and the max-LTV health
    /// factor is below one.
    pub open spec fn spec_is_above_max_ltv(self) -> bool {
        self.max_ltv_health_factor matches Some(hf) && hf.atomics < DECIMAL_FRACTIONAL
    }

    /// True iff the user's debt exceeds what their collateral can carry.
    pub fn is_above_max_ltv(&self) -> (r: bool)
        ensures
            r == self.spec_is_above_max_ltv(),
    {
        match self.max_ltv_health_factor {
            Some(hf) => hf.atomics < DECIMAL_FRACTIONAL,
            None => false,
        }
    }
}

/// Once a prefix's totals are unrepresentable, so are the whole
/// sequence's.
proof fn lemma_totals_none_extends(ps: Seq<Position>, i: int)
    requires
        0 <= i <= ps.len(),
        spec_totals(ps.take(i)) is None,
    ensures
        spec_totals(ps) is None,
    decreases ps.len() - i,
{
    if i < ps.len() {
        assert(ps.take(i + 1).drop_last() =~= ps.take(i));
        lemma_totals_none_extends(ps, i + 1);
    } else {
        assert(ps.take(i) =~= ps);
    }
}

/// Reduces a user's positions to their health: totals of enabled
/// collateral and collateralized debt in value units, the two weighted
/// collateral sums, and the two health factors — each the weighted
/// collateral divided by the total debt, undefined when there is no debt,
/// in which case the user is classified as not borrowing. Fails with an
/// arithmetic error when a value, total or factor is unrepresentable.
pub fn compute_position_health(positions: &Vec<Position>) -> (r: Result<Health, Error>)
    ensures
        r is Ok <==> spec_health(positions@) is Some,
        r matches Ok(h) ==> spec_health(positions@) == Some(h),
        r matches Ok(h) ==> (h.total_collateralized_debt.atomics == 0 <==> h.spec_status()
            is NotBorrowing),
        r matches Err(e) ==> e is Overflow,
{
    let mut total_collateral: u128 = 0;
    let mut total_debt: u128 = 0;
    let mut max_ltv_weighted: u128 = 0;
    let mut liq_threshold_weighted: u128 = 0;

    let mut i: usize = 0;
    while i < positions.len()
        invariant
            i <= positions@.len(),
            spec_totals(positions@.take(i as int)) == Some(
                HealthTotals {
                    total_collateral: total_collateral as int,
                    total_debt: total_debt as int,
                    max_ltv_weighted: max_ltv_weighted as int,
                    liq_threshold_weighted: liq_threshold_weighted as int,
                },
            ),
        decreases positions@.len() - i,
    {
        let p = &positions[i];
        proof {
            assert(positions@.take(i as int + 1).drop_last() =~= positions@.take(i as int));
            assert(positions@.take(i as int + 1).last() == positions@[i as int]);
        }
        let overflow: Error = Error::Overflow {
            op: ArithmeticOp::Mul,
            operand1: p.collateral_amount,
            operand2: p.asset_price.atomics,
        };
        let collateral = match crate::math::checked_value(p.collateral_amount, p.asset_price) {
            Some(v) => v,
            None => {
                proof {
                    lemma_totals_none_extends(positions@, i as int + 1);
                }
                return Err(overflow);
            },
        };
        let new_total_collateral = match total_collateral.checked_add(collateral.atomics) {
            Some(v) => v,
            None => {
                proof {
                    lemma_totals_none_extends(positions@, i as int + 1);
                }
                return Err(Error::Overflow {
                    op: ArithmeticOp::Add,
                    operand1: total_collateral,
                    operand2: collateral.atomics,
                });
            },
        };
        let ltv_part = match collateral.checked_mul(p.max_ltv) {
            Ok(v) => v,
            Err(e) => {
                proof {
                    lemma_totals_none_extends(positions@, i as int + 1);
                }
                return Err(e);
            },
        };
        let new_max_ltv_weighted = match max_ltv_weighted.checked_add(ltv_part.atomics) {
            Some(v) => v,
            None => {
                proof {
                    lemma_totals_none_extends(positions@, i as int + 1);
                }
                return Err(Error::Overflow {
                    op: ArithmeticOp::Add,
                    operand1: max_ltv_weighted,
                    operand2: ltv_part.atomics,
                });
            },
        };
        let liq_part = match collateral.checked_mul(p.liquidation_threshold) {
            Ok(v) => v,
            Err(e) => {
                proof {
                    lemma_totals_none_extends(positions@, i as int + 1);
                }
                return Err(e);
            },
        };
        let new_liq_threshold_weighted = match liq_threshold_weighted.checked_add(
            liq_part.atomics,
        ) {
            Some(v) => v,
            None => {
                proof {
                    lemma_totals_none_extends(positions@, i as int + 1);
                }
                return Err(Error::Overflow {
                    op: ArithmeticOp::Add,
                    operand1: liq_threshold_weighted,
                    operand2: liq_part.atomics,
                });
            },
        };
        let new_total_debt = if p.uncollateralized_debt {
            total_debt
        } else {
            let debt = match crate::math::checked_value(p.debt_amount, p.asset_price) {
                Some(v) => v,
                None => {
                    proof {
                        lemma_totals_none_extends(positions@, i as int + 1);
                    }
                    return Err(Error::Overflow {
                        op: ArithmeticOp::Mul,
                        operand1: p.debt_amount,
                        operand2: p.asset_price.atomics,
                    });
                },
            };
            match total_debt.checked_add(debt.atomics) {
                Some(v) => v,
                None => {
                    proof {
                        lemma_totals_none_extends(positions@, i as int + 1);
                    }
                    return Err(Error::Overflow {
                        op: ArithmeticOp::Add,
                        operand1: total_debt,
                        operand2: debt.atomics,
                    });
                },
            }
        };
        total_collateral = new_total_collateral;
        total_debt = new_total_debt;
        max_ltv_weighted = new_max_ltv_weighted;
        liq_threshold_weighted = new_liq_threshold_weighted;
        i = i + 1;
    }
    proof {
        assert(positions@.take(positions@.len() as int) =~= positions@);
    }

    if total_debt == 0 {
        Ok(
            Health {
                total_enabled_collateral: Decimal { atomics: total_collateral },
                total_collateralized_debt: Decimal { atomics: 0 },
                weighted_max_ltv_collateral: Decimal { atomics: max_ltv_weighted },
                weighted_liquidation_threshold_collateral: Decimal {
                    atomics: liq_threshold_weighted,
                },
                max_ltv_health_factor: None,
                liquidation_health_factor: None,
            },
        )
    } else {
        let debt_dec = Decimal { atomics: total_debt };
        let max_ltv_health_factor = match (Decimal { atomics: max_ltv_weighted }).checked_div(
            debt_dec,
        ) {
            Ok(v) => v,
            Err(e) => {
                return Err(e);
            },
        };
        let liquidation_health_factor = match (Decimal {
            atomics: liq_threshold_weighted,
        }).checked_div(debt_dec) {
            Ok(v) => v,
            Err(e) => {
                return Err(e);
            },
        };
        Ok(
            Health {
                total_enabled_collateral: Decimal { atomics: total_collateral },
                total_collateralized_debt: debt_dec,
                weighted_max_ltv_collateral: Decimal { atomics: max_ltv_weighted },
                weighted_liquidation_threshold_collateral: Decimal {
                    atomics: liq_threshold_weighted,
                },
                max_ltv_health_factor: Some(max_ltv_health_factor),
                liquidation_health_factor: Some(liquidation_health_factor),
            },
        )
    }
}

/// Index of the first position in `denom`, from `i` on; `-1` if none.
pub open spec fn find_denom_from(ps: Seq<Position>, d: Seq<char>, i: int) -> int
    decreases ps.len() - i,
    when 0 <= i <= ps.len()
{
    if i >= ps.len() {
        -1
    } else if ps[i].denom@ == d {
        i
    } else {
        find_denom_from(ps, d, i + 1)
    }
}

/// Index of the first position in `denom`; `-1` if the user has none.
pub open spec fn find_denom(ps: Seq<Position>, d: Seq<char>) -> int {
    find_denom_from(ps, d, 0)
}

proof fn lemma_find_denom_from_spec(ps: Seq<Position>, d: Seq<char>, i: int)
    requires
        0 <= i <= ps.len(),
    ensures
        find_denom_from(ps, d, i) == -1 ==> (forall|j: int| i <= j < ps.len() ==> ps[j].denom@ != d),
        find_denom_from(ps, d, i) != -1 ==> i <= find_denom_from(ps, d, i) < ps.len() && ps[
            find_denom_from(ps, d, i)
        ].denom@ == d && (forall|j: int| i <= j < find_denom_from(ps, d, i) ==> ps[j].denom@ != d),
    decreases ps.len() - i,
{
    if i < ps.len() && ps[i].denom@ != d {
        lemma_find_denom_from_spec(ps, d, i + 1);
    }
}

/// The first position in `denom` is what `find_denom` names: `-1` exactly
/// when no position carries the denom, else the earliest index that does.
pub proof fn lemma_find_denom_spec(ps: Seq<Position>, d: Seq<char>)
    ensures
        find_denom(ps, d) == -1 <==> (forall|j: int| 0 <= j < ps.len() ==> ps[j].denom@ != d),
        find_denom(ps, d) != -1 ==> 0 <= find_denom(ps, d) < ps.len() && ps[
            find_denom(ps, d)
        ].denom@ == d && (forall|j: int| 0 <= j < find_denom(ps, d) ==> ps[j].denom@ != d),
{
    lemma_find_denom_from_spec(ps, d, 0);
    if forall|j: int| 0 <= j < ps.len() ==> ps[j].denom@ != d {
        if find_denom(ps, d) != -1 {
            assert(ps[find_denom(ps, d)].denom@ == d);
        }
    }
}

/// Finds the first position in `denom`.
fn find_position(positions: &Vec<Position>, denom: &String) -> (r: Option<usize>)
    ensures
        r matches Some(i) ==> i < positions@.len() && find_denom(positions@, denom@) == i,
        r is None ==> find_denom(positions@, denom@) == -1,
{
    let mut i: usize = 0;
    while i < positions.len()
        invariant
            i <= positions@.len(),
            find_denom(positions@, denom@) == find_denom_from(positions@, denom@, i as int),
        decreases positions@.len() - i,
    {
        if positions[i].denom == *denom {
            return Some(i);
        }
        i = i + 1;
    }
    None
}

/// The position with its collateral amount replaced.
pub open spec fn with_collateral(p: Position, collateral_amount: u128) -> Position {
    Position {
        denom: p.denom,
        collateral_amount,
        debt_amount: p.debt_amount,
        uncollateralized_debt: p.uncollateralized_debt,
        max_ltv: p.max_ltv,
        liquidation_threshold: p.liquidation_threshold,
        asset_price: p.asset_price,
    }
}

/// The position with its debt amount replaced.
pub open spec fn with_debt(p: Position, debt_amount: u128) -> Position {
    Position {
        denom: p.denom,
        collateral_amount: p.collateral_amount,
        debt_amount,
        uncollateralized_debt: p.uncollateralized_debt,
        max_ltv: p.max_ltv,
        liquidation_threshold: p.liquidation_threshold,
        asset_price: p.asset_price,
    }
}

/// The zero-basis position a borrow pre-check creates for a denom the
/// user had no position in: no collateral, the hypothetical debt, and a
/// freshly fetched price; the risk parameters default to zero.
pub open spec fn borrow_position(denom: String, debt_amount: u128, asset_price: Decimal) -> Position {
    Position {
        denom,
        collateral_amount: 0,
        debt_amount,
        uncollateralized_debt: false,
        max_ltv: Decimal { atomics: 0 },
        liquidation_threshold: Decimal { atomics: 0 },
        asset_price,
    }
}

/// A field-for-field copy.
fn copy_position(p: &Position) -> (r: Position)
    ensures
        r == *p,
{
    let r = Position {
        denom: p.denom.clone(),
        collateral_amount: p.collateral_amount,
        debt_amount: p.debt_amount,
        uncollateralized_debt: p.uncollateralized_debt,
        max_ltv: p.max_ltv,
        liquidation_threshold: p.liquidation_threshold,
        asset_price: p.asset_price,
    };
    proof {
        assert(r =~= *p);
    }
    r
}

/// The positions with the entry at `idx` replaced by `updated`.
fn positions_with_update(positions: &Vec<Position>, idx: usize, updated: &Position) -> (r: Vec<
    Position,
>)
    requires
        idx < positions@.len(),
    ensures
        r@ == positions@.update(idx as int, *updated),
{
    let mut out: Vec<Position> = Vec::new();
    let mut i: usize = 0;
    while i < positions.len()
        invariant
            idx < positions@.len(),
            i <= positions@.len(),
            out@.len() == i,
            forall|j: int| 0 <= j < i && j != idx ==> out@[j] == positions@[j],
            idx < i ==> out@[idx as int] == *updated,
        decreases positions@.len() - i,
    {
        if i == idx {
            out.push(copy_position(updated));
        } else {
            out.push(copy_position(&positions[i]));
        }
        i = i + 1;
    }
    proof {
        assert(out@ =~= positions@.update(idx as int, *updated));
    }
    out
}

/// Whether the user would stay below the liquidation threshold after
/// hypothetically withdrawing `withdraw_amount` of `denom`. Fails when
/// the user has no position in the denom, when the withdrawal exceeds
/// their collateral (never silently floored), or when the health of the
/// reduced positions is unrepresentable.
pub fn assert_below_liq_threshold_after_withdraw(
    positions: &Vec<Position>,
    denom: &String,
    withdraw_amount: u128,
) -> (r: Result<bool, Error>)
    ensures
        find_denom(positions@, denom@) == -1 ==> r == Err::<bool, Error>(Error::NoUserBalance),
        ({
            let idx = find_denom(positions@, denom@);
            idx != -1 && positions@[idx].collateral_amount < withdraw_amount ==> r == Err::<
                bool,
                Error,
            >(
                (Error::Overflow {
                    op: ArithmeticOp::Sub,
                    operand1: positions@[idx].collateral_amount,
                    operand2: withdraw_amount,
                }),
            )
        }),
        ({
            let idx = find_denom(positions@, denom@);
            idx != -1 && positions@[idx].collateral_amount >= withdraw_amount ==> {
                let reduced = positions@.update(
                    idx,
                    with_collateral(
                        positions@[idx],
                        (positions@[idx].collateral_amount - withdraw_amount) as u128,
                    ),
                );
                &&& (r is Ok <==> spec_health(reduced) is Some)
                &&& (r matches Ok(b) ==> spec_health(reduced) matches Some(h) && b
                    == !h.spec_is_liquidatable())
                &&& (r matches Err(e) ==> e is Overflow)
            }
        }),
{
    let idx = match find_position(positions, denom) {
        Some(idx) => idx,
        None => {
            return Err(Error::NoUserBalance);
        },
    };
    let p = &positions[idx];
    if p.collateral_amount < withdraw_amount {
        return Err(Error::Overflow {
            op: ArithmeticOp::Sub,
            operand1: p.collateral_amount,
            operand2: withdraw_amount,
        });
    }
    let updated = Position {
        denom: p.denom.clone(),
        collateral_amount: p.collateral_amount - withdraw_amount,
        debt_amount: p.debt_amount,
        uncollateralized_debt: p.uncollateralized_debt,
        max_ltv: p.max_ltv,
        liquidation_threshold: p.liquidation_threshold,
        asset_price: p.asset_price,
    };
    proof {
        assert(updated =~= with_collateral(
            positions@[idx as int],
            (positions@[idx as int].collateral_amount - withdraw_amount) as u128,
        ));
    }
    let modified = positions_with_update(positions, idx, &updated);
    let health = match compute_position_health(&modified) {
        Ok(h) => h,
        Err(e) => {
            return Err(e);
        },
    };
    Ok(!health.is_liquidatable())
}

/// Whether the user would stay at or below the maximum loan-to-value
/// after hypothetically borrowing `borrow_amount` of `denom`. A denom the
/// user has no position in gets a zero-basis entry carrying the freshly
/// fetched `asset_price` — never parameters reused from another denom.
/// Fails only when the health of the grown positions is unrepresentable;
/// the caller must rule out a debt total beyond the integer width.
pub fn assert_below_max_ltv_after_borrow(
    positions: &Vec<Position>,
    denom: &String,
    borrow_amount: u128,
    asset_price: Decimal,
) -> (r: Result<bool, Error>)
    requires
        find_denom(positions@, denom@) != -1 ==> positions@[
            find_denom(positions@, denom@)
        ].debt_amount + borrow_amount <= u128::MAX,
    ensures
        ({
            let idx = find_denom(positions@, denom@);
            let grown = if idx == -1 {
                positions@.push(borrow_position(*denom, borrow_amount, asset_price))
            } else {
                positions@.update(
                    idx,
                    with_debt(
                        positions@[idx],
                        (positions@[idx].debt_amount + borrow_amount) as u128,
                    ),
                )
            };
            &&& (r is Ok <==> spec_health(grown) is Some)
            &&& (r matches Ok(b) ==> spec_health(grown) matches Some(h) && b
                == !h.spec_is_above_max_ltv())
            &&& (r matches Err(e) ==> e is Overflow)
        }),
{
    let modified = match find_position(positions, denom) {
        Some(idx) => {
            let p = &positions[idx];
            let updated = Position {
                denom: p.denom.clone(),
                collateral_amount: p.collateral_amount,
                debt_amount: p.debt_amount + borrow_amount,
                uncollateralized_debt: p.uncollateralized_debt,
                max_ltv: p.max_ltv,
                liquidation_threshold: p.liquidation_threshold,
                asset_price: p.asset_price,
            };
            proof {
                assert(updated =~= with_debt(
                    positions@[idx as int],
                    (positions@[idx as int].debt_amount + borrow_amount) as u128,
                ));
            }
            positions_with_update(positions, idx, &updated)
        },
        None => {
            let mut out: Vec<Position> = Vec::new();
            let mut i: usize = 0;
            while i < positions.len()
                invariant
                    i <= positions@.len(),
                    out@ =~= positions@.take(i as int),
                decreases positions@.len() - i,
            {
                out.push(copy_position(&positions[i]));
                proof {
                    assert(out@ =~= positions@.take(i as int + 1));
                }
                i = i + 1;
            }
            proof {
                assert(out@ =~= positions@);
            }
            let fresh = Position {
                denom: denom.clone(),
                collateral_amount: 0,
                debt_amount: borrow_amount,
                uncollateralized_debt: false,
                max_ltv: Decimal::zero(),
                liquidation_threshold: Decimal::zero(),
                asset_price,
            };
            proof {
                assert(fresh =~= borrow_position(*denom, borrow_amount, asset_price));
            }
            out.push(fresh);
            out
        },
    };
    let health = match compute_position_health(&modified) {
        Ok(h) => h,
        Err(e) => {
            return Err(e);
        },
    };
    Ok(!health.is_above_max_ltv())
}

/// Whether the user is liquidatable, from their aggregated positions.
pub fn assert_liquidatable(positions: &Vec<Position>) -> (r: Result<bool, Error>)
    ensures
        r is Ok <==> spec_health(positions@) is Some,
        r matches Ok(b) ==> spec_health(positions@) matches Some(h) && b
            == h.spec_is_liquidatable(),
        r matches Err(e) ==> e is Overflow,
{
    let health = match compute_position_health(positions) {
        Ok(h) => h,
        Err(e) => {
            return Err(e);
        },
    };
    Ok(health.is_liquidatable())
}

} // verus!
