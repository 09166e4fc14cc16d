use vstd::prelude::*;

use crate::address::Address;
use crate::error::ErrorCode;
use crate::recipient::{admin_or_treasurer, is_admin_or_treasurer, Recipient};
use crate::spend_limit::{check_spending_limits, record_spend};
use crate::treasury::TreasuryConfig;
use crate::vault::TokenVault;

verus! {

/// A one-time or recurring payout of a fixed amount to one recipient.
#[derive(Clone, Copy, Debug, PartialEq, Eq)]
pub struct PayoutSchedule {
    pub treasury: Address,
    pub recipient: Address,
    pub schedule_id: u64,
    pub amount: u64,
    /// `None` for the native currency.
    pub token_mint: Option<Address>,
    pub start_time: i64,
    /// Seconds between payouts; 0 for a one-time payout.
    pub interval_seconds: u64,
    pub executions: u64,
    /// 0 for no cap.
    pub max_executions: u64,
    pub is_active: bool,
    pub last_execution_time: i64,
    pub bump: u8,
}

impl PayoutSchedule {
    /// The execution cap is set and has been reached.
    pub open spec fn cap_reached(&self) -> bool {
        self.max_executions > 0 && self.executions >= self.max_executions
    }

    /// The schedule's payout is due at `now`: it has started and, for a
    /// recurring schedule that has paid before, a full interval has passed
    /// since the last payout.
    pub open spec fn due_at(&self, now: i64) -> bool {
        &&& now >= self.start_time
        &&& (self.interval_seconds > 0 && self.executions > 0) ==> now >= self.last_execution_time
            + self.interval_seconds
    }

    /// Why the schedule's state machine refuses to pay at `now`, if it does:
    /// an inactive schedule, a payout not yet started, an exhausted cap, or
    /// a recurring payout whose interval has not passed, in that order.
    pub open spec fn gate_error(&self, now: i64) -> Option<ErrorCode> {
        if !self.is_active {
            Some(ErrorCode::InvalidSchedule)
        } else if now < self.start_time {
            Some(ErrorCode::PayoutNotDue)
        } else if self.cap_reached() {
            Some(ErrorCode::MaxExecutionsReached)
        } else if !self.due_at(now) {
            Some(ErrorCode::PayoutNotDue)
        } else {
            None
        }
    }

    /// The schedule after one payout at `now`: one more execution, and
    /// inactive for good once the cap is reached.
    pub open spec fn after_execution(self, now: i64) -> PayoutSchedule {
        PayoutSchedule {
            executions: (self.executions + 1) as u64,
            last_execution_time: now,
            is_active: !(self.max_executions > 0 && self.executions + 1 >= self.max_executions),
            ..self
        }
    }
}

impl Recipient {
    /// The recipient after being paid `amount` at `now`.
    pub open spec fn after_payment(self, amount: u64, now: i64) -> Recipient {
        Recipient {
            total_received: (self.total_received + amount) as u64,
            last_payout_time: now,
            ..self
        }
    }
}

/// Applies the schedule's state machine at `now`: `InvalidSchedule` when
/// inactive, `PayoutNotDue` before the start, `MaxExecutionsReached` once
/// the cap is exhausted, and `PayoutNotDue` before a recurring schedule's
/// next payout time.
pub fn check_payout_due(schedule: &PayoutSchedule, now: i64) -> (r: Result<(), ErrorCode>)
    ensures
        schedule.gate_error(now) matches Some(e) ==> r == Err::<(), ErrorCode>(e),
        schedule.gate_error(now) is None ==> r is Ok,
{
    if !schedule.is_active {
        return Err(ErrorCode::InvalidSchedule);
    }
    if now < schedule.start_time {
        return Err(ErrorCode::PayoutNotDue);
    }
    if schedule.max_executions > 0 && schedule.executions >= schedule.max_executions {
        return Err(ErrorCode::MaxExecutionsReached);
    }
    if schedule.interval_seconds > 0 && schedule.executions > 0 {
        let next_execution: i128 = (schedule.last_execution_time as i128)
            + (schedule.interval_seconds as i128);
        if (now as i128) < next_execution {
            return Err(ErrorCode::PayoutNotDue);
        }
    }
    Ok(())
}

/// Records one payout of `schedule` at `now` on the schedule and its recipient.
fn record_execution(recipient: &mut Recipient, schedule: &mut PayoutSchedule, now: i64)
    requires
        old(recipient).total_received + old(schedule).amount <= u64::MAX,
        old(schedule).executions < u64::MAX,
    ensures
        *final(recipient) == old(recipient).after_payment(old(schedule).amount, now),
        *final(schedule) == old(schedule).after_execution(now),
{
    recipient.total_received = recipient.total_received + schedule.amount;
    recipient.last_payout_time = now;
    schedule.executions = schedule.executions + 1;
    schedule.last_execution_time = now;
    schedule.is_active = !(schedule.max_executions > 0 && schedule.executions
        >= schedule.max_executions);
}

/// Why a native payout of `schedule` at `now` is refused, if it is.
pub open spec fn sol_payout_error(
    treasury: TreasuryConfig,
    schedule: PayoutSchedule,
    now: i64,
) -> Option<ErrorCode> {
    if schedule.gate_error(now) is Some {
        schedule.gate_error(now)
    } else if schedule.token_mint is Some {
        Some(ErrorCode::InvalidTokenVault)
    } else if treasury.total_balance < schedule.amount {
        Some(ErrorCode::InsufficientFunds)
    } else if !treasury.can_spend(schedule.amount, now) {
        Some(ErrorCode::SpendingLimitExceeded)
    } else {
        None
    }
}

/// Decides whether a native payout of `schedule` at `now` would be made,
/// without changing anything: the refusal it would meet, if any.
pub fn check_sol_payout(treasury: &TreasuryConfig, schedule: &PayoutSchedule, now: i64) -> (r:
    Result<(), ErrorCode>)
    ensures
        sol_payout_error(*treasury, *schedule, now) matches Some(e) ==> r == Err::<(), ErrorCode>(
            e,
        ),
        sol_payout_error(*treasury, *schedule, now) is None ==> r is Ok,
{
    check_payout_due(schedule, now)?;
    if schedule.token_mint.is_some() {
        return Err(ErrorCode::InvalidTokenVault);
    }
    if treasury.total_balance < schedule.amount {
        return Err(ErrorCode::InsufficientFunds);
    }
    check_spending_limits(treasury, schedule.amount, now)
}

/// Executes a native-currency payout at `now`. After the schedule's state
/// machine (see `check_payout_due`), a schedule with a token mint is refused
/// (`InvalidTokenVault`), the treasury's balance must cover the amount
/// (`InsufficientFunds`) and the spend-limit guard must accept it
/// (`SpendingLimitExceeded`). On success the amount, which the caller
/// transfers to the recipient, leaves the balance and is charged to the
/// rolling totals; the recipient and the schedule record the payout. On
/// failure nothing changes.
pub fn execute_sol_payout(
    treasury: &mut TreasuryConfig,
    recipient: &mut Recipient,
    schedule: &mut PayoutSchedule,
    now: i64,
) -> (r: Result<u64, ErrorCode>)
    requires
        sol_payout_error(*old(treasury), *old(schedule), now) is None ==> old(
            recipient,
        ).total_received + old(schedule).amount <= u64::MAX && old(schedule).executions
            < u64::MAX,
    ensures
        sol_payout_error(*old(treasury), *old(schedule), now) matches Some(e) ==> r == Err::<
            u64,
            ErrorCode,
        >(e),
        sol_payout_error(*old(treasury), *old(schedule), now) is None ==> r is Ok,
        r is Err ==> *final(treasury) == *old(treasury) && *final(recipient) == *old(recipient)
            && *final(schedule) == *old(schedule),
        r matches Ok(amount) ==> ({
            &&& amount == old(schedule).amount
            &&& *final(treasury) == (TreasuryConfig {
                total_balance: (old(treasury).total_balance - amount) as u64,
                ..old(treasury).after_spend(amount, now)
            })
            &&& final(treasury).within_limits()
            &&& *final(recipient) == old(recipient).after_payment(amount, now)
            &&& *final(schedule) == old(schedule).after_execution(now)
        }),
{
    check_sol_payout(treasury, schedule, now)?;
    let amount = schedule.amount;
    proof {
        crate::spend_limit::lemma_spend_keeps_limits(*treasury, amount, now);
    }
    record_spend(treasury, amount, now);
    treasury.total_balance = treasury.total_balance - amount;
    record_execution(recipient, schedule, now);
    Ok(amount)
}

/// Why a token payout of `schedule` from `vault` at `now` is refused, if it is.
pub open spec fn token_payout_error(
    treasury: TreasuryConfig,
    schedule: PayoutSchedule,
    vault: TokenVault,
    now: i64,
) -> Option<ErrorCode> {
    if schedule.gate_error(now) is Some {
        schedule.gate_error(now)
    } else if schedule.token_mint != Some(vault.token_mint) {
        Some(ErrorCode::InvalidTokenVault)
    } else if vault.balance < schedule.amount {
        Some(ErrorCode::InsufficientFunds)
    } else if !treasury.can_spend(schedule.amount, now) {
        Some(ErrorCode::SpendingLimitExceeded)
    } else {
        None
    }
}

/// Decides whether a token payout of `schedule` from `vault` at `now` would
/// be made, without changing anything: the refusal it would meet, if any.
pub fn check_token_payout(
    treasury: &TreasuryConfig,
    schedule: &PayoutSchedule,
    vault: &TokenVault,
    now: i64,
) -> (r: Result<(), ErrorCode>)
    ensures
        token_payout_error(*treasury, *schedule, *vault, now) matches Some(e) ==> r == Err::<
            (),
            ErrorCode,
        >(e),
        token_payout_error(*treasury, *schedule, *vault, now) is None ==> r is Ok,
{
    check_payout_due(schedule, now)?;
    match schedule.token_mint {
        Some(mint) => {
            if mint != vault.token_mint {
                return Err(ErrorCode::InvalidTokenVault);
            }
        },
        None => return Err(ErrorCode::InvalidTokenVault),
    }
    if vault.balance < schedule.amount {
        return Err(ErrorCode::InsufficientFunds);
    }
    check_spending_limits(treasury, schedule.amount, now)
}

/// Executes a token payout at `now` from the vault of the schedule's mint.
/// After the schedule's state machine (see `check_payout_due`), the vault
/// must hold the schedule's mint (`InvalidTokenVault`) and cover the amount
/// (`InsufficientFunds`), and the spend-limit guard must accept it
/// (`SpendingLimitExceeded`). On success the amount, which the caller
/// transfers, leaves the vault and is charged to the rolling totals; the
/// recipient and the schedule record the payout. On failure nothing changes.
pub fn execute_token_payout(
    treasury: &mut TreasuryConfig,
    recipient: &mut Recipient,
    schedule: &mut PayoutSchedule,
    vault: &mut TokenVault,
    now: i64,
) -> (r: Result<u64, ErrorCode>)
    requires
        token_payout_error(*old(treasury), *old(schedule), *old(vault), now) is None ==> old(
            recipient,
        ).total_received + old(schedule).amount <= u64::MAX && old(schedule).executions
            < u64::MAX,
    ensures
        token_payout_error(*old(treasury), *old(schedule), *old(vault), now) matches Some(e) ==> r
            == Err::<u64, ErrorCode>(e),
        token_payout_error(*old(treasury), *old(schedule), *old(vault), now) is None ==> r is Ok,
        r is Err ==> *final(treasury) == *old(treasury) && *final(recipient) == *old(recipient)
            && *final(schedule) == *old(schedule) && *final(vault) == *old(vault),
        r matches Ok(amount) ==> ({
            &&& amount == old(schedule).amount
            &&& *final(vault) == (TokenVault {
                balance: (old(vault).balance - amount) as u64,
                ..*old(vault)
            })
            &&& *final(treasury) == old(treasury).after_spend(amount, now)
            &&& final(treasury).within_limits()
            &&& *final(recipient) == old(recipient).after_payment(amount, now)
            &&& *final(schedule) == old(schedule).after_execution(now)
        }),
{
    check_token_payout(treasury, schedule, vault, now)?;
    let amount = schedule.amount;
    proof {
        crate::spend_limit::lemma_spend_keeps_limits(*treasury, amount, now);
    }
    vault.balance = vault.balance - amount;
    record_spend(treasury, amount, now);
    record_execution(recipient, schedule, now);
    Ok(amount)
}

/// Creates a payout schedule for a recipient. Only the admin or the
/// treasurer may (`UnauthorizedAccess`), and only for an active recipient
/// (`InactiveRecipient`). The schedule starts active with no executions.
pub fn create_payout_schedule(
    treasury: &TreasuryConfig,
    treasury_key: Address,
    recipient: &Recipient,
    recipient_key: Address,
    authority: &Address,
    schedule_id: u64,
    amount: u64,
    token_mint: Option<Address>,
    start_time: i64,
    interval_seconds: u64,
    max_executions: u64,
    bump: u8,
) -> (r: Result<PayoutSchedule, ErrorCode>)
    ensures
        !admin_or_treasurer(*treasury, *authority) ==> r == Err::<PayoutSchedule, ErrorCode>(
            ErrorCode::UnauthorizedAccess,
        ),
        admin_or_treasurer(*treasury, *authority) && !recipient.is_active ==> r == Err::<
            PayoutSchedule,
            ErrorCode,
        >(ErrorCode::InactiveRecipient),
        admin_or_treasurer(*treasury, *authority) && recipient.is_active ==> r == Ok::<
            PayoutSchedule,
            ErrorCode,
        >(
            PayoutSchedule {
                treasury: treasury_key,
                recipient: recipient_key,
                schedule_id,
                amount,
                token_mint,
                start_time,
                interval_seconds,
                executions: 0,
                max_executions,
                is_active: true,
                last_execution_time: 0,
                bump,
            },
        ),
{
    if !is_admin_or_treasurer(treasury, authority) {
        return Err(ErrorCode::UnauthorizedAccess);
    }
    if !recipient.is_active {
        return Err(ErrorCode::InactiveRecipient);
    }
    Ok(
        PayoutSchedule {
            treasury: treasury_key,
            recipient: recipient_key,
            schedule_id,
            amount,
            token_mint,
            start_time,
            interval_seconds,
            executions: 0,
            max_executions,
            is_active: true,
            last_execution_time: 0,
            bump,
        },
    )
}

/// Overwrites any of a schedule's amount, start time, interval, cap or
/// active flag, outside the state machine. Only the admin or the treasurer
/// may (`UnauthorizedAccess`).
pub fn update_payout_schedule(
    treasury: &TreasuryConfig,
    schedule: &mut PayoutSchedule,
    authority: &Address,
    amount: Option<u64>,
    start_time: Option<i64>,
    interval_seconds: Option<u64>,
    max_executions: Option<u64>,
    is_active: Option<bool>,
) -> (r: Result<(), ErrorCode>)
    ensures
        r is Ok <==> admin_or_treasurer(*treasury, *authority),
        r is Err ==> r == Err::<(), ErrorCode>(ErrorCode::UnauthorizedAccess) && *final(schedule)
            == *old(schedule),
        r is Ok ==> *final(schedule) == (PayoutSchedule {
            amount: match amount {
                Some(v) => v,
                None => old(schedule).amount,
            },
            start_time: match start_time {
                Some(v) => v,
                None => old(schedule).start_time,
            },
            interval_seconds: match interval_seconds {
                Some(v) => v,
                None => old(schedule).interval_seconds,
            },
            max_executions: match max_executions {
                Some(v) => v,
                None => old(schedule).max_executions,
            },
            is_active: match is_active {
                Some(v) => v,
                None => old(schedule).is_active,
            },
            ..*old(schedule)
        }),
{
    if !is_admin_or_treasurer(treasury, authority) {
        return Err(ErrorCode::UnauthorizedAccess);
    }
    if let Some(new_amount) = amount {
        schedule.amount = new_amount;
    }
    if let Some(new_start_time) = start_time {
        schedule.start_time = new_start_time;
    }
    if let Some(new_interval) = interval_seconds {
        schedule.interval_seconds = new_interval;
    }
    if let Some(new_max) = max_executions {
        schedule.max_executions = new_max;
    }
    if let Some(active) = is_active {
        schedule.is_active = active;
    }
    Ok(())
}

/// A payout that is not yet due is refused with `PayoutNotDue`, and a
/// refusal changes nothing; so invoking it again, at the same or any later
/// time still before the due time, is refused the same way.
pub proof fn lemma_premature_payout_rejected_again(
    treasury: TreasuryConfig,
    schedule: PayoutSchedule,
    vault: TokenVault,
    first_time: i64,
    second_time: i64,
)
    requires
        schedule.is_active,
        first_time <= second_time,
        !schedule.due_at(second_time),
        second_time < schedule.start_time || !schedule.cap_reached(),
    ensures
        sol_payout_error(treasury, schedule, first_time) == Some(ErrorCode::PayoutNotDue),
        sol_payout_error(treasury, schedule, second_time) == Some(ErrorCode::PayoutNotDue),
        token_payout_error(treasury, schedule, vault, first_time) == Some(ErrorCode::PayoutNotDue),
        token_payout_error(treasury, schedule, vault, second_time) == Some(
            ErrorCode::PayoutNotDue,
        ),
{
}

} // verus!
