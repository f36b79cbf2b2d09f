//! Incentive index engine.
//!
//! An [`AssetIncentive`] pays out `emission_per_second` units of a reward
//! asset, pro rata over the holders of a collateral asset, during the
//! window `[start_time, start_time + duration)`. Its `index` accumulates
//! the reward emitted per unit of collateral since inception; advancing
//! the index is a pure function of the elapsed time, the emission rate
//! and the total scaled supply.

use vstd::prelude::*;

use crate::error::{ArithmeticOp, Error};
use crate::math::{mul_div, Decimal, DECIMAL_FRACTIONAL};

verus! {

/// Incentive schedule and accumulator state for one collateral denom and
/// one incentive denom.
#[derive(Clone, Copy, Debug, PartialEq, Eq, Structural)]
pub struct AssetIncentive {
    /// Reward units emitted per second while the schedule is active.
    pub emission_per_second: u128,
    /// First second of the emission window.
    pub start_time: u64,
    /// Length of the emission window in seconds.
    pub duration: u64,
    /// Cumulative reward per unit of scaled collateral; never decreases.
    pub index: Decimal,
    /// Timestamp of the last index advance; never exceeds the block time.
    pub last_updated: u64,
}

impl AssetIncentive {
    /// First second after the emission window.
    pub open spec fn end_time(self) -> int {
        self.start_time + self.duration
    }

    /// Whether an advance at time `now` with the given total scaled
    /// supply moves the index at all.
    pub open spec fn advances(self, total: int, now: int) -> bool {
        &&& now != self.last_updated
        &&& now > self.start_time
        &&& (self.last_updated as int) < self.end_time()
        &&& total != 0
        &&& self.emission_per_second != 0
    }

    /// Start of the accrual window: the later of the schedule start and
    /// the last advance.
    pub open spec fn window_start(self) -> int {
        if self.last_updated >= self.start_time {
            self.last_updated as int
        } else {
            self.start_time as int
        }
    }

    /// End of the accrual window: the earlier of `now` and the schedule
    /// end.
    pub open spec fn window_end(self, now: int) -> int {
        if now <= self.end_time() {
            now
        } else {
            self.end_time()
        }
    }

    /// Reward units emitted over the accrual window ending at `now`.
    pub open spec fn emission(self, now: int) -> int {
        self.emission_per_second * (self.window_end(now) - self.window_start())
    }

    /// By how many atomic units an advance at `now` raises the index.
    pub open spec fn index_delta(self, total: int, now: int) -> int {
        mul_div(self.emission(now), DECIMAL_FRACTIONAL as int, total)
    }

    /// Whether an advance at `now` succeeds: a moving advance needs a
    /// non-empty accrual window (the clock must not have run backwards)
    /// and a representable emission total.
    pub open spec fn advance_ok(self, total: int, now: int) -> bool {
        self.advances(total, now) ==> {
            &&& self.window_start() <= self.window_end(now)
            &&& self.emission(now) <= u128::MAX
        }
    }

    /// Machine limit on a successful moving advance: the index delta and
    /// the advanced index itself must be representable.
    pub open spec fn advance_fits(self, total: int, now: int) -> bool {
        (self.advances(total, now) && self.window_start() <= self.window_end(now)
            && self.emission(now) <= u128::MAX) ==> {
            &&& self.index_delta(total, now) <= u128::MAX
            &&& self.index.atomics + self.index_delta(total, now) <= u128::MAX
        }
    }

    /// The state after a successful advance at `now`: the index moves by
    /// `index_delta` when the advance moves at all, and `last_updated`
    /// becomes `now` unconditionally.
    pub open spec fn advanced(self, total: int, now: int) -> AssetIncentive {
        AssetIncentive {
            emission_per_second: self.emission_per_second,
            start_time: self.start_time,
            duration: self.duration,
            index: if self.advances(total, now) {
                Decimal { atomics: (self.index.atomics + self.index_delta(total, now)) as u128 }
            } else {
                self.index
            },
            last_updated: now as u64,
        }
    }
}

/// The error a failing moving advance reports: an underflow naming the
/// inverted window's bounds, or an overflow naming the emission factors.
pub open spec fn advance_error(inc: AssetIncentive, now: int) -> Error {
    if inc.window_start() > inc.window_end(now) {
        Error::Overflow {
            op: ArithmeticOp::Sub,
            operand1: inc.window_start() as u128,
            operand2: inc.window_end(now) as u128,
        }
    } else {
        Error::Overflow {
            op: ArithmeticOp::Mul,
            operand1: inc.emission_per_second,
            operand2: (inc.window_end(now) - inc.window_start()) as u128,
        }
    }
}

/// The index grown by the reward emitted between `time_start` and
/// `time_end`, spread over the total scaled supply: `previous_index +
/// (emission_per_second * (time_end - time_start)) / total_amount_scaled`,
/// as an exact ratio floored to 18 fractional digits.
///
/// Fails with an underflow when `time_start > time_end` and with an
/// overflow when the emission total does not fit; the caller must rule
/// out the inputs on which the final ratio or sum is unrepresentable.
pub fn compute_asset_incentive_index(
    previous_index: Decimal,
    emission_per_second: u128,
    total_amount_scaled: u128,
    time_start: u64,
    time_end: u64,
) -> (r: Result<Decimal, Error>)
    requires
        (time_start <= time_end && emission_per_second * (time_end - time_start)
            <= u128::MAX) ==> {
            &&& total_amount_scaled != 0
            &&& mul_div(
                emission_per_second * (time_end - time_start),
                DECIMAL_FRACTIONAL as int,
                total_amount_scaled as int,
            ) <= u128::MAX
            &&& previous_index.atomics + mul_div(
                emission_per_second * (time_end - time_start),
                DECIMAL_FRACTIONAL as int,
                total_amount_scaled as int,
            ) <= u128::MAX
        },
    ensures
        time_start > time_end ==> r == Err::<Decimal, Error>(
            (Error::Overflow {
                op: ArithmeticOp::Sub,
                operand1: time_start as u128,
                operand2: time_end as u128,
            }),
        ),
        time_start <= time_end && emission_per_second * (time_end - time_start)
            > u128::MAX ==> r == Err::<Decimal, Error>(
            (Error::Overflow {
                op: ArithmeticOp::Mul,
                operand1: emission_per_second,
                operand2: (time_end - time_start) as u128,
            }),
        ),
        time_start <= time_end && emission_per_second * (time_end - time_start)
            <= u128::MAX ==> r == Ok::<Decimal, Error>(
            (Decimal {
                atomics: (previous_index.atomics + mul_div(
                    emission_per_second * (time_end - time_start),
                    DECIMAL_FRACTIONAL as int,
                    total_amount_scaled as int,
                )) as u128,
            }),
        ),
{
    if time_start > time_end {
        return Err(Error::Overflow {
            op: ArithmeticOp::Sub,
            operand1: time_start as u128,
            operand2: time_end as u128,
        });
    }
    let seconds_elapsed: u64 = time_end - time_start;
    match emission_per_second.checked_mul(seconds_elapsed as u128) {
        None => Err(Error::Overflow {
            op: ArithmeticOp::Mul,
            operand1: emission_per_second,
            operand2: seconds_elapsed as u128,
        }),
        Some(emission_for_elapsed_seconds) => {
            let delta = Decimal::from_ratio(emission_for_elapsed_seconds, total_amount_scaled);
            Ok(previous_index.add(delta))
        },
    }
}

/// Advances the incentive's index by the reward accrued since the last
/// update, clamping the accrual window to the schedule, and stamps
/// `last_updated` with the block time. The index moves only when time has
/// passed, the schedule has started and not lapsed, and both the supply
/// and the emission rate are nonzero; `last_updated` moves even when the
/// index does not, so the same no-op window is never reprocessed.
///
/// Fails, leaving the incentive untouched, exactly when a moving advance
/// finds an inverted accrual window (the clock ran backwards past
/// `last_updated`) or an unrepresentable emission total.
pub fn update_asset_incentive_index(
    asset_incentive: &mut AssetIncentive,
    total_amount_scaled: u128,
    current_block_time: u64,
) -> (r: Result<(), Error>)
    requires
        old(asset_incentive).start_time + old(asset_incentive).duration <= u64::MAX,
        old(asset_incentive).advance_fits(
            total_amount_scaled as int,
            current_block_time as int,
        ),
    ensures
        r is Ok <==> old(asset_incentive).advance_ok(
            total_amount_scaled as int,
            current_block_time as int,
        ),
        r is Ok ==> *final(asset_incentive) == old(asset_incentive).advanced(
            total_amount_scaled as int,
            current_block_time as int,
        ),
        r is Err ==> *final(asset_incentive) == *old(asset_incentive),
        !old(asset_incentive).advance_ok(total_amount_scaled as int, current_block_time as int)
            ==> r == Err::<(), Error>(
            advance_error(*old(asset_incentive), current_block_time as int),
        ),
        final(asset_incentive).index.atomics >= old(asset_incentive).index.atomics,
{
    let end_time_sec = asset_incentive.start_time + asset_incentive.duration;
    if current_block_time != asset_incentive.last_updated
        && current_block_time > asset_incentive.start_time
        && asset_incentive.last_updated < end_time_sec
        && total_amount_scaled != 0
        && asset_incentive.emission_per_second != 0 {
        let time_start = if asset_incentive.start_time >= asset_incentive.last_updated {
            asset_incentive.start_time
        } else {
            asset_incentive.last_updated
        };
        let time_end = if current_block_time <= end_time_sec {
            current_block_time
        } else {
            end_time_sec
        };
        match compute_asset_incentive_index(
            asset_incentive.index,
            asset_incentive.emission_per_second,
            total_amount_scaled,
            time_start,
            time_end,
        ) {
            Ok(index) => {
                asset_incentive.index = index;
            },
            Err(e) => {
                return Err(e);
            },
        }
    }
    asset_incentive.last_updated = current_block_time;
    Ok(())
}

/// Law: an advance never lowers the index. It leaves the index unchanged
/// exactly when nothing moves it — no time passed, the schedule is not
/// running, the supply or the emission rate is zero — or the emitted
/// total is too small to register one atomic unit against the supply. In
/// particular a zero emission rate or a zero supply always leaves the
/// index unchanged.
pub proof fn lemma_advance_monotone(inc: AssetIncentive, total: u128, now: u64)
    requires
        inc.advance_ok(total as int, now as int),
        inc.advance_fits(total as int, now as int),
    ensures
        inc.advanced(total as int, now as int).index.atomics >= inc.index.atomics,
        inc.emission_per_second == 0 || total == 0 ==> inc.advanced(
            total as int,
            now as int,
        ).index == inc.index,
        inc.advanced(total as int, now as int).index == inc.index <==> (!inc.advances(
            total as int,
            now as int,
        ) || inc.emission(now as int) * (DECIMAL_FRACTIONAL as int) < total as int),
{
    if inc.advances(total as int, now as int) {
        let rate = inc.emission_per_second as int;
        let span = inc.window_end(now as int) - inc.window_start();
        let em = inc.emission(now as int);
        assert(em >= 0) by (nonlinear_arith)
            requires
                rate >= 0,
                span >= 0,
                em == rate * span,
        ;
        let product = em * (DECIMAL_FRACTIONAL as int);
        assert(product >= 0) by (nonlinear_arith)
            requires
                em >= 0,
                product == em * (DECIMAL_FRACTIONAL as int),
        ;
        let delta = inc.index_delta(total as int, now as int);
        if product < total as int {
            vstd::arithmetic::div_mod::lemma_basic_div(product, total as int);
            assert(delta == 0);
        } else {
            vstd::arithmetic::div_mod::lemma_div_non_zero(product, total as int);
            assert(delta > 0);
        }
    }
}

/// Law: advancing twice with the same block time is idempotent — the
/// second advance succeeds and changes nothing, because the first one
/// stamped `last_updated` with that block time.
pub proof fn lemma_advance_idempotent(inc: AssetIncentive, total: u128, now: u64)
    ensures
        ({
            let once = inc.advanced(total as int, now as int);
            once.advanced(total as int, now as int) == once && once.advance_ok(
                total as int,
                now as int,
            )
        }),
{
}

} // verus!
