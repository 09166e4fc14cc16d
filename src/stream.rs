use vstd::prelude::*;

use crate::address::Address;
use crate::error::ErrorCode;
use crate::recipient::{admin_or_treasurer, is_admin_or_treasurer, Recipient};
use crate::spend_limit::{check_spending_limits, record_spend};
use crate::treasury::TreasuryConfig;

verus! {

/// A continuous, cliff-based linear vesting of `total_amount` to one
/// recipient, with the amount withdrawn so far.
#[derive(Clone, Copy, Debug, PartialEq, Eq)]
pub struct StreamingSchedule {
    pub treasury: Address,
    pub recipient: Address,
    pub stream_id: u64,
    pub total_amount: u64,
    pub amount_per_second: u64,
    pub start_time: i64,
    /// No amount vests before this time; accrual counts from it.
    pub cliff_time: i64,
    /// From this time on the whole remainder may be withdrawn.
    pub end_time: i64,
    /// `None` for the native currency.
    pub token_mint: Option<Address>,
    pub withdrawn_amount: u64,
    pub is_active: bool,
    pub is_cancelable: bool,
    pub created_by: Address,
    pub bump: u8,
}

/// `a - b`, or zero where `b` is the larger.
pub open spec fn clamp_sub(a: int, b: int) -> int {
    if a >= b {
        a - b
    } else {
        0
    }
}

/// The smaller of two integers.
pub open spec fn min_int(a: int, b: int) -> int {
    if a <= b {
        a
    } else {
        b
    }
}

impl StreamingSchedule {
    /// The stream is well formed: it never pays out more than its total.
    pub open spec fn wf(&self) -> bool {
        self.withdrawn_amount <= self.total_amount
    }

    /// The amount vested by `now` between the cliff and the end of the stream.
    pub open spec fn vested_at(&self, now: i64) -> int {
        min_int((now - self.cliff_time) * self.amount_per_second, self.total_amount as int)
    }

    /// What the recipient may withdraw at `now`.
    pub open spec fn withdrawable_at(&self, now: i64) -> int {
        if now < self.start_time || now < self.cliff_time {
            0
        } else if now >= self.end_time {
            clamp_sub(self.total_amount as int, self.withdrawn_amount as int)
        } else {
            clamp_sub(self.vested_at(now), self.withdrawn_amount as int)
        }
    }

    /// The stream still pays out at `now`.
    pub open spec fn active_at(&self, now: i64) -> bool {
        &&& self.is_active
        &&& now >= self.start_time
        &&& self.withdrawn_amount < self.total_amount
    }

    /// How much can be withdrawn at `current_time`: nothing before the start
    /// or the cliff, the whole remainder from the end time on, and in between
    /// what has accrued per second since the cliff, capped at the total, less
    /// what was already withdrawn (never below zero).
    pub fn calculate_withdrawable_amount(&self, current_time: i64) -> (r: u64)
        ensures
            r == self.withdrawable_at(current_time),
    {
        if current_time < self.start_time {
            return 0;
        }
        if current_time < self.cliff_time {
            return 0;
        }
        if current_time >= self.end_time {
            return self.total_amount.saturating_sub(self.withdrawn_amount);
        }
        let elapsed: i128 = (current_time as i128) - (self.cliff_time as i128);
        assert(0 <= elapsed <= u64::MAX);
        let time_since_cliff: u64 = elapsed as u64;
        assert((time_since_cliff as int) * (self.amount_per_second as int) <= u128::MAX)
            by (nonlinear_arith)
            requires
                time_since_cliff <= u64::MAX,
                self.amount_per_second <= u64::MAX,
        ;
        let accrued: u128 = (time_since_cliff as u128) * (self.amount_per_second as u128);
        let streamed: u64 = if accrued < self.total_amount as u128 {
            accrued as u64
        } else {
            self.total_amount
        };
        streamed.saturating_sub(self.withdrawn_amount)
    }

    /// Whether the stream is active, has started and is not fully withdrawn.
    pub fn is_stream_active(&self, current_time: i64) -> (r: bool)
        ensures
            r == self.active_at(current_time),
    {
        self.is_active && current_time >= self.start_time && self.withdrawn_amount
            < self.total_amount
    }
}

/// What can be withdrawn never takes the withdrawn amount past the total.
pub proof fn lemma_withdrawable_within_total(stream: StreamingSchedule, now: i64)
    requires
        stream.wf(),
    ensures
        0 <= stream.withdrawable_at(now),
        stream.withdrawn_amount + stream.withdrawable_at(now) <= stream.total_amount,
{
}

/// Vesting is monotonic: between the cliff and the end, a later withdrawable
/// amount is at least the earlier one less what was withdrawn in between.
pub proof fn lemma_vesting_monotonic(
    stream: StreamingSchedule,
    earlier: i64,
    later: i64,
    withdrawn_delta: u64,
)
    requires
        stream.cliff_time <= earlier < later < stream.end_time,
        stream.withdrawn_amount + withdrawn_delta <= u64::MAX,
    ensures
        ({
            let after = StreamingSchedule {
                withdrawn_amount: (stream.withdrawn_amount + withdrawn_delta) as u64,
                ..stream
            };
            after.withdrawable_at(later) >= stream.withdrawable_at(earlier) - withdrawn_delta
        }),
{
    let rate = stream.amount_per_second as int;
    assert((earlier - stream.cliff_time) * rate <= (later - stream.cliff_time) * rate)
        by (nonlinear_arith)
        requires
            earlier - stream.cliff_time <= later - stream.cliff_time,
            rate >= 0,
    ;
}

/// Why creating a stream with these parameters is refused, if it is.
pub open spec fn stream_creation_error(
    treasury: TreasuryConfig,
    recipient: Recipient,
    authority: Address,
    total_amount: u64,
    amount_per_second: u64,
    start_time: i64,
    cliff_time: i64,
    duration_seconds: u64,
    token_mint: Option<Address>,
) -> Option<ErrorCode> {
    if !admin_or_treasurer(treasury, authority) {
        Some(ErrorCode::UnauthorizedAccess)
    } else if !recipient.is_active {
        Some(ErrorCode::InactiveRecipient)
    } else if total_amount == 0 || amount_per_second == 0 || duration_seconds == 0 {
        Some(ErrorCode::InvalidSchedule)
    } else if cliff_time < start_time {
        Some(ErrorCode::InvalidSchedule)
    } else if start_time + duration_seconds > i64::MAX || start_time + duration_seconds
        <= cliff_time {
        Some(ErrorCode::InvalidSchedule)
    } else if total_amount > amount_per_second * duration_seconds {
        Some(ErrorCode::InvalidSchedule)
    } else if token_mint is None && treasury.total_balance < total_amount {
        Some(ErrorCode::InsufficientFunds)
    } else {
        None
    }
}

/// Creates a stream of `total_amount` to a recipient, vesting from
/// `cliff_time` at `amount_per_second` until `start_time + duration_seconds`.
/// Only the admin or the treasurer may (`UnauthorizedAccess`), for an active
/// recipient (`InactiveRecipient`). The amounts and duration must be
/// positive, the cliff must lie in `[start, end)`, the end must be a valid
/// time and the rate over the duration must cover the total
/// (`InvalidSchedule`); a native stream must be covered by the treasury's
/// balance (`InsufficientFunds`). The stream starts active, cancelable and
/// with nothing withdrawn.
pub fn create_streaming_schedule(
    treasury: &TreasuryConfig,
    treasury_key: Address,
    recipient: &Recipient,
    recipient_key: Address,
    authority: &Address,
    stream_id: u64,
    total_amount: u64,
    amount_per_second: u64,
    start_time: i64,
    cliff_time: i64,
    duration_seconds: u64,
    token_mint: Option<Address>,
    bump: u8,
) -> (r: Result<StreamingSchedule, ErrorCode>)
    ensures
        ({
            let error = stream_creation_error(
                *treasury,
                *recipient,
                *authority,
                total_amount,
                amount_per_second,
                start_time,
                cliff_time,
                duration_seconds,
                token_mint,
            );
            &&& error matches Some(e) ==> r == Err::<StreamingSchedule, ErrorCode>(e)
            &&& error is None ==> r is Ok
        }),
        r matches Ok(s) ==> ({
            &&& s.wf()
            &&& s == StreamingSchedule {
                treasury: treasury_key,
                recipient: recipient_key,
                stream_id,
                total_amount,
                amount_per_second,
                start_time,
                cliff_time,
                end_time: (start_time + duration_seconds) as i64,
                token_mint,
                withdrawn_amount: 0,
                is_active: true,
                is_cancelable: true,
                created_by: *authority,
                bump,
            }
        }),
{
    if !is_admin_or_treasurer(treasury, authority) {
        return Err(ErrorCode::UnauthorizedAccess);
    }
    if !recipient.is_active {
        return Err(ErrorCode::InactiveRecipient);
    }
    if total_amount == 0 || amount_per_second == 0 || duration_seconds == 0 {
        return Err(ErrorCode::InvalidSchedule);
    }
    if cliff_time < start_time {
        return Err(ErrorCode::InvalidSchedule);
    }
    let end: i128 = (start_time as i128) + (duration_seconds as i128);
    if end > i64::MAX as i128 || end <= cliff_time as i128 {
        return Err(ErrorCode::InvalidSchedule);
    }
    let end_time: i64 = end as i64;
    assert((amount_per_second as int) * (duration_seconds as int) <= u128::MAX) by (nonlinear_arith)
        requires
            amount_per_second <= u64::MAX,
            duration_seconds <= u64::MAX,
    ;
    let covered: u128 = (amount_per_second as u128) * (duration_seconds as u128);
    if total_amount as u128 > covered {
        return Err(ErrorCode::InvalidSchedule);
    }
    if token_mint.is_none() && treasury.total_balance < total_amount {
        return Err(ErrorCode::InsufficientFunds);
    }
    Ok(
        StreamingSchedule {
            treasury: treasury_key,
            recipient: recipient_key,
            stream_id,
            total_amount,
            amount_per_second,
            start_time,
            cliff_time,
            end_time,
            token_mint,
            withdrawn_amount: 0,
            is_active: true,
            is_cancelable: true,
            created_by: *authority,
            bump,
        },
    )
}

/// Why a withdrawal from `stream` at `now` is refused, if it is.
pub open spec fn withdrawal_error(
    treasury: TreasuryConfig,
    stream: StreamingSchedule,
    now: i64,
) -> Option<ErrorCode> {
    let amount = stream.withdrawable_at(now);
    if !stream.active_at(now) {
        Some(ErrorCode::InvalidSchedule)
    } else if amount == 0 {
        Some(ErrorCode::PayoutNotDue)
    } else if !treasury.can_spend(amount as u64, now) {
        Some(ErrorCode::SpendingLimitExceeded)
    } else if stream.token_mint is Some {
        Some(ErrorCode::InvalidTokenVault)
    } else if treasury.total_balance < amount {
        Some(ErrorCode::InsufficientFunds)
    } else {
        None
    }
}

/// Decides whether a withdrawal from `stream` at `now` would be made,
/// without changing anything: the amount it would pay, or the refusal it
/// would meet.
pub fn check_withdrawal(treasury: &TreasuryConfig, stream: &StreamingSchedule, now: i64) -> (r:
    Result<u64, ErrorCode>)
    ensures
        withdrawal_error(*treasury, *stream, now) matches Some(e) ==> r == Err::<u64, ErrorCode>(
            e,
        ),
        withdrawal_error(*treasury, *stream, now) is None ==> r == Ok::<u64, ErrorCode>(
            stream.withdrawable_at(now) as u64,
        ),
{
    if !stream.is_stream_active(now) {
        return Err(ErrorCode::InvalidSchedule);
    }
    let amount = stream.calculate_withdrawable_amount(now);
    if amount == 0 {
        return Err(ErrorCode::PayoutNotDue);
    }
    check_spending_limits(treasury, amount, now)?;
    if stream.token_mint.is_some() {
        return Err(ErrorCode::InvalidTokenVault);
    }
    if treasury.total_balance < amount {
        return Err(ErrorCode::InsufficientFunds);
    }
    Ok(amount)
}

/// Withdraws everything that has vested and not yet been withdrawn. The
/// stream must be active, started and not exhausted (`InvalidSchedule`), and
/// something must be withdrawable (`PayoutNotDue`); the amount passes the
/// spend-limit guard (`SpendingLimitExceeded`) and comes out of the native
/// balance (`InsufficientFunds`); token streams are not paid out here
/// (`InvalidTokenVault`). On success the amount, which the caller transfers,
/// is charged to the treasury, added to the stream's withdrawn amount and to
/// the recipient's total, and the stream ends once fully withdrawn. On
/// failure nothing changes.
pub fn withdraw_from_stream(
    treasury: &mut TreasuryConfig,
    recipient: &mut Recipient,
    stream: &mut StreamingSchedule,
    now: i64,
) -> (r: Result<u64, ErrorCode>)
    requires
        withdrawal_error(*old(treasury), *old(stream), now) is None ==> old(
            recipient,
        ).total_received + old(stream).withdrawable_at(now) <= u64::MAX,
    ensures
        withdrawal_error(*old(treasury), *old(stream), now) matches Some(e) ==> r == Err::<
            u64,
            ErrorCode,
        >(e),
        withdrawal_error(*old(treasury), *old(stream), now) is None ==> r is Ok,
        r is Err ==> *final(treasury) == *old(treasury) && *final(recipient) == *old(recipient)
            && *final(stream) == *old(stream),
        r matches Ok(amount) ==> ({
            &&& amount == old(stream).withdrawable_at(now)
            &&& *final(treasury) == (TreasuryConfig {
                total_balance: (old(treasury).total_balance - amount) as u64,
                ..old(treasury).after_spend(amount, now)
            })
            &&& final(treasury).within_limits()
            &&& *final(stream) == (StreamingSchedule {
                withdrawn_amount: (old(stream).withdrawn_amount + amount) as u64,
                is_active: old(stream).withdrawn_amount + amount < old(stream).total_amount,
                ..*old(stream)
            })
            &&& *final(recipient) == (Recipient {
                total_received: (old(recipient).total_received + amount) as u64,
                last_payout_time: now,
                ..*old(recipient)
            })
        }),
        old(stream).withdrawn_amount <= final(stream).withdrawn_amount,
        r is Ok ==> final(stream).wf(),
        old(stream).wf() ==> final(stream).wf(),
{
    let amount = check_withdrawal(treasury, stream, now)?;
    proof {
        crate::spend_limit::lemma_spend_keeps_limits(*treasury, amount, now);
    }
    record_spend(treasury, amount, now);
    treasury.total_balance = treasury.total_balance - amount;
    stream.withdrawn_amount = stream.withdrawn_amount + amount;
    if stream.withdrawn_amount >= stream.total_amount {
        stream.is_active = false;
    }
    recipient.total_received = recipient.total_received + amount;
    recipient.last_payout_time = now;
    Ok(amount)
}

/// Why cancelling `stream` by `authority` at `now` is refused, if it is.
pub open spec fn cancellation_error(
    treasury: TreasuryConfig,
    stream: StreamingSchedule,
    authority: Address,
    now: i64,
) -> Option<ErrorCode> {
    if !(admin_or_treasurer(treasury, authority) || authority == stream.created_by) {
        Some(ErrorCode::UnauthorizedAccess)
    } else if !stream.is_cancelable {
        Some(ErrorCode::StreamNotCancelable)
    } else if stream.withdrawable_at(now) > 0 && stream.token_mint is Some {
        Some(ErrorCode::InvalidTokenVault)
    } else {
        None
    }
}

/// Cancels a stream. The admin, the treasurer or the stream's creator may
/// (`UnauthorizedAccess`), and only a cancelable stream
/// (`StreamNotCancelable`). What is withdrawable at `now` is paid out
/// (native streams only, `InvalidTokenVault` otherwise) and returned for
/// the caller to transfer; the treasury's balance drops by it, clamped at
/// zero. The caller then removes the stream. On failure nothing changes.
pub fn cancel_stream(
    treasury: &mut TreasuryConfig,
    stream: &StreamingSchedule,
    authority: &Address,
    now: i64,
) -> (r: Result<u64, ErrorCode>)
    ensures
        cancellation_error(*old(treasury), *stream, *authority, now) matches Some(e) ==> r == Err::<
            u64,
            ErrorCode,
        >(e),
        cancellation_error(*old(treasury), *stream, *authority, now) is None ==> r is Ok,
        r is Err ==> *final(treasury) == *old(treasury),
        r matches Ok(amount) ==> ({
            &&& amount == stream.withdrawable_at(now)
            &&& *final(treasury) == (TreasuryConfig {
                total_balance: clamp_sub(old(treasury).total_balance as int, amount as int) as u64,
                ..*old(treasury)
            })
        }),
        old(treasury).within_limits() ==> final(treasury).within_limits(),
{
    let is_authorized = is_admin_or_treasurer(treasury, authority) || *authority
        == stream.created_by;
    if !is_authorized {
        return Err(ErrorCode::UnauthorizedAccess);
    }
    if !stream.is_cancelable {
        return Err(ErrorCode::StreamNotCancelable);
    }
    let amount = stream.calculate_withdrawable_amount(now);
    if amount > 0 {
        if stream.token_mint.is_some() {
            return Err(ErrorCode::InvalidTokenVault);
        }
        treasury.total_balance = treasury.total_balance.saturating_sub(amount);
    }
    Ok(amount)
}

} // verus!
