use vstd::prelude::*;

use crate::error::ErrorCode;
use crate::treasury::TreasuryConfig;

verus! {

/// Length of the daily spending window, in seconds.
pub const DAY_SECONDS: i64 = 86_400;

/// Length of the weekly spending window, in seconds.
pub const WEEK_SECONDS: i64 = 604_800;

/// Length of the monthly spending window, in seconds.
pub const MONTH_SECONDS: i64 = 2_592_000;

/// A window has run out once its full length has elapsed since its last reset.
pub open spec fn window_expired(last_reset: i64, now: i64, length: i64) -> bool {
    now - last_reset >= length
}

/// The amount already spent in a window, as seen at `now`.
pub open spec fn spent_in_window(total: u64, last_reset: i64, now: i64, length: i64) -> int {
    if window_expired(last_reset, now, length) {
        0
    } else {
        total as int
    }
}

/// The reset time of a window once `now` has been taken into account.
pub open spec fn reset_time_at(last_reset: i64, now: i64, length: i64) -> i64 {
    if window_expired(last_reset, now, length) {
        now
    } else {
        last_reset
    }
}

impl TreasuryConfig {
    /// Every rolling total is within its ceiling.
    pub open spec fn within_limits(&self) -> bool {
        &&& self.daily_total <= self.daily_limit
        &&& self.weekly_total <= self.weekly_limit
        &&& self.monthly_total <= self.monthly_limit
    }

    /// Spending `amount` at `now` keeps each window, after its due reset,
    /// within its ceiling.
    pub open spec fn can_spend(&self, amount: u64, now: i64) -> bool {
        &&& spent_in_window(self.daily_total, self.last_day_reset, now, DAY_SECONDS) + amount
            <= self.daily_limit
        &&& spent_in_window(self.weekly_total, self.last_week_reset, now, WEEK_SECONDS) + amount
            <= self.weekly_limit
        &&& spent_in_window(self.monthly_total, self.last_month_reset, now, MONTH_SECONDS)
            + amount <= self.monthly_limit
    }

    /// The configuration after `amount` has been charged at `now`: due
    /// windows reset to `now`, and the amount added to every window.
    pub open spec fn after_spend(self, amount: u64, now: i64) -> TreasuryConfig {
        TreasuryConfig {
            daily_total: (spent_in_window(self.daily_total, self.last_day_reset, now, DAY_SECONDS)
                + amount) as u64,
            weekly_total: (spent_in_window(
                self.weekly_total,
                self.last_week_reset,
                now,
                WEEK_SECONDS,
            ) + amount) as u64,
            monthly_total: (spent_in_window(
                self.monthly_total,
                self.last_month_reset,
                now,
                MONTH_SECONDS,
            ) + amount) as u64,
            last_day_reset: reset_time_at(self.last_day_reset, now, DAY_SECONDS),
            last_week_reset: reset_time_at(self.last_week_reset, now, WEEK_SECONDS),
            last_month_reset: reset_time_at(self.last_month_reset, now, MONTH_SECONDS),
            ..self
        }
    }
}

/// Whether a window of `length` seconds last reset at `last_reset` has run out at `now`.
pub fn is_window_expired(last_reset: i64, now: i64, length: i64) -> (r: bool)
    ensures
        r == window_expired(last_reset, now, length),
{
    (now as i128) - (last_reset as i128) >= length as i128
}

/// The window total that applies at `now`: zero once the window has run out.
pub fn window_total(total: u64, last_reset: i64, now: i64, length: i64) -> (r: u64)
    ensures
        r == spent_in_window(total, last_reset, now, length),
{
    if is_window_expired(last_reset, now, length) {
        0
    } else {
        total
    }
}

/// Whether `amount` fits in a window holding `spent` under `limit`.
fn fits_limit(spent: u64, amount: u64, limit: u64) -> (r: bool)
    ensures
        r == (spent + amount <= limit),
{
    (spent as u128) + (amount as u128) <= limit as u128
}

/// Decides whether `amount` may leave the treasury at `now`. The three
/// windows are judged independently, after any reset that is due, and a tie
/// with a ceiling is allowed. Nothing is changed.
pub fn check_spending_limits(treasury: &TreasuryConfig, amount: u64, now: i64) -> (r: Result<
    (),
    ErrorCode,
>)
    ensures
        r is Ok <==> treasury.can_spend(amount, now),
        r is Err ==> r == Err::<(), ErrorCode>(ErrorCode::SpendingLimitExceeded),
{
    let daily = window_total(treasury.daily_total, treasury.last_day_reset, now, DAY_SECONDS);
    if !fits_limit(daily, amount, treasury.daily_limit) {
        return Err(ErrorCode::SpendingLimitExceeded);
    }
    let weekly = window_total(treasury.weekly_total, treasury.last_week_reset, now, WEEK_SECONDS);
    if !fits_limit(weekly, amount, treasury.weekly_limit) {
        return Err(ErrorCode::SpendingLimitExceeded);
    }
    let monthly = window_total(
        treasury.monthly_total,
        treasury.last_month_reset,
        now,
        MONTH_SECONDS,
    );
    if !fits_limit(monthly, amount, treasury.monthly_limit) {
        return Err(ErrorCode::SpendingLimitExceeded);
    }
    Ok(())
}

/// Charges `amount` at `now` to the three windows, resetting those that are due.
pub fn record_spend(treasury: &mut TreasuryConfig, amount: u64, now: i64)
    requires
        old(treasury).can_spend(amount, now),
    ensures
        *final(treasury) == old(treasury).after_spend(amount, now),
{
    if is_window_expired(treasury.last_day_reset, now, DAY_SECONDS) {
        treasury.daily_total = 0;
        treasury.last_day_reset = now;
    }
    if is_window_expired(treasury.last_week_reset, now, WEEK_SECONDS) {
        treasury.weekly_total = 0;
        treasury.last_week_reset = now;
    }
    if is_window_expired(treasury.last_month_reset, now, MONTH_SECONDS) {
        treasury.monthly_total = 0;
        treasury.last_month_reset = now;
    }
    treasury.daily_total = treasury.daily_total + amount;
    treasury.weekly_total = treasury.weekly_total + amount;
    treasury.monthly_total = treasury.monthly_total + amount;
}

/// The spend-limit guard as one step: either `amount` is charged at `now`
/// and every window stays within its ceiling, or the operation is refused
/// with `SpendingLimitExceeded` and nothing changes, not even a reset.
pub fn apply_spending_limits(treasury: &mut TreasuryConfig, amount: u64, now: i64) -> (r: Result<
    (),
    ErrorCode,
>)
    ensures
        r is Ok <==> old(treasury).can_spend(amount, now),
        r is Ok ==> *final(treasury) == old(treasury).after_spend(amount, now),
        r is Ok ==> final(treasury).within_limits(),
        r is Err ==> r == Err::<(), ErrorCode>(ErrorCode::SpendingLimitExceeded) && *final(treasury)
            == *old(treasury),
{
    check_spending_limits(treasury, amount, now)?;
    record_spend(treasury, amount, now);
    proof {
        lemma_spend_keeps_limits(*old(treasury), amount, now);
    }
    Ok(())
}

/// Whatever the totals were before, a charge that the guard accepts leaves
/// every rolling total within its ceiling.
pub proof fn lemma_spend_keeps_limits(treasury: TreasuryConfig, amount: u64, now: i64)
    requires
        treasury.can_spend(amount, now),
    ensures
        treasury.after_spend(amount, now).within_limits(),
{
}

/// Two charges within one daily window: when the second comes before a full
/// day has passed since the reset time that the first left behind, the daily
/// total is not reset but grows by the second amount.
pub proof fn lemma_no_daily_reset_within_window(
    treasury: TreasuryConfig,
    first: u64,
    first_time: i64,
    second: u64,
    second_time: i64,
)
    requires
        treasury.can_spend(first, first_time),
        treasury.after_spend(first, first_time).can_spend(second, second_time),
        second_time - treasury.after_spend(first, first_time).last_day_reset < DAY_SECONDS,
    ensures
        ({
            let once = treasury.after_spend(first, first_time);
            let twice = once.after_spend(second, second_time);
            &&& twice.daily_total == once.daily_total + second
            &&& twice.last_day_reset == once.last_day_reset
        }),
{
}

} // verus!
