use vstd::prelude::*;

use crate::address::Address;
use crate::error::ErrorCode;

verus! {

/// The root entity of a treasury: who governs it, its spending ceilings and
/// rolling totals, its native balance and its token-gating rule.
#[derive(Clone, Debug, PartialEq, Eq)]
pub struct TreasuryConfig {
    pub admin: Address,
    pub treasurer: Address,
    pub name: String,
    pub description: String,
    pub daily_limit: u64,
    pub weekly_limit: u64,
    pub monthly_limit: u64,
    pub total_balance: u64,
    pub daily_total: u64,
    pub weekly_total: u64,
    pub monthly_total: u64,
    pub last_day_reset: i64,
    pub last_week_reset: i64,
    pub last_month_reset: i64,
    pub require_token_gate: bool,
    pub token_gate_mint: Option<Address>,
    pub token_gate_amount: u64,
    pub bump: u8,
}

/// Creates a treasury governed by `admin`, with the given ceilings and
/// gating rule, an empty balance and all three windows starting at `now`.
pub fn initialize_treasury(
    admin: Address,
    name: String,
    description: String,
    treasurer: Address,
    daily_limit: u64,
    weekly_limit: u64,
    monthly_limit: u64,
    require_token_gate: bool,
    token_gate_mint: Option<Address>,
    token_gate_amount: u64,
    now: i64,
    bump: u8,
) -> (r: TreasuryConfig)
    ensures
        r == (TreasuryConfig {
            admin,
            treasurer,
            name,
            description,
            daily_limit,
            weekly_limit,
            monthly_limit,
            total_balance: 0,
            daily_total: 0,
            weekly_total: 0,
            monthly_total: 0,
            last_day_reset: now,
            last_week_reset: now,
            last_month_reset: now,
            require_token_gate,
            token_gate_mint,
            token_gate_amount,
            bump,
        }),
        r.within_limits(),
{
    TreasuryConfig {
        admin,
        treasurer,
        name,
        description,
        daily_limit,
        weekly_limit,
        monthly_limit,
        total_balance: 0,
        daily_total: 0,
        weekly_total: 0,
        monthly_total: 0,
        last_day_reset: now,
        last_week_reset: now,
        last_month_reset: now,
        require_token_gate,
        token_gate_mint,
        token_gate_amount,
        bump,
    }
}

/// `new` where it is given, `current` otherwise.
pub open spec fn updated<T>(new: Option<T>, current: T) -> T {
    match new {
        Some(v) => v,
        None => current,
    }
}

/// Whether the ceiling an update leaves covers `total`.
fn covers(new_limit: Option<u64>, current_limit: u64, total: u64) -> (r: bool)
    ensures
        r == (total <= updated(new_limit, current_limit)),
{
    match new_limit {
        Some(limit) => total <= limit,
        None => total <= current_limit,
    }
}

/// The ceilings that an update leaves each cover the window's current total.
pub open spec fn limits_cover_totals(
    treasury: TreasuryConfig,
    daily_limit: Option<u64>,
    weekly_limit: Option<u64>,
    monthly_limit: Option<u64>,
) -> bool {
    &&& treasury.daily_total <= updated(daily_limit, treasury.daily_limit)
    &&& treasury.weekly_total <= updated(weekly_limit, treasury.weekly_limit)
    &&& treasury.monthly_total <= updated(monthly_limit, treasury.monthly_limit)
}

/// Changes any of the treasury's admin, treasurer, description, ceilings
/// and gating settings, each only where a new value is given. Only the
/// admin may (`UnauthorizedAccess`), and no ceiling may be set below the
/// total already spent in its window (`SpendingLimitExceeded`). Balance,
/// totals and reset times stay.
pub fn update_treasury_config(
    treasury: &mut TreasuryConfig,
    signer: &Address,
    new_admin: Option<Address>,
    new_treasurer: Option<Address>,
    description: Option<String>,
    daily_limit: Option<u64>,
    weekly_limit: Option<u64>,
    monthly_limit: Option<u64>,
    require_token_gate: Option<bool>,
    token_gate_mint: Option<Address>,
    token_gate_amount: Option<u64>,
) -> (r: Result<(), ErrorCode>)
    ensures
        *signer != old(treasury).admin ==> r == Err::<(), ErrorCode>(ErrorCode::UnauthorizedAccess),
        *signer == old(treasury).admin && !limits_cover_totals(
            *old(treasury),
            daily_limit,
            weekly_limit,
            monthly_limit,
        ) ==> r == Err::<(), ErrorCode>(ErrorCode::SpendingLimitExceeded),
        r is Ok <==> *signer == old(treasury).admin && limits_cover_totals(
            *old(treasury),
            daily_limit,
            weekly_limit,
            monthly_limit,
        ),
        r is Err ==> *final(treasury) == *old(treasury),
        r is Ok ==> *final(treasury) == (TreasuryConfig {
            admin: updated(new_admin, old(treasury).admin),
            treasurer: updated(new_treasurer, old(treasury).treasurer),
            description: updated(description, old(treasury).description),
            daily_limit: updated(daily_limit, old(treasury).daily_limit),
            weekly_limit: updated(weekly_limit, old(treasury).weekly_limit),
            monthly_limit: updated(monthly_limit, old(treasury).monthly_limit),
            require_token_gate: updated(require_token_gate, old(treasury).require_token_gate),
            token_gate_mint: match token_gate_mint {
                Some(m) => Some(m),
                None => old(treasury).token_gate_mint,
            },
            token_gate_amount: updated(token_gate_amount, old(treasury).token_gate_amount),
            ..*old(treasury)
        }),
        old(treasury).within_limits() ==> final(treasury).within_limits(),
{
    if *signer != treasury.admin {
        return Err(ErrorCode::UnauthorizedAccess);
    }
    if !covers(daily_limit, treasury.daily_limit, treasury.daily_total) || !covers(
        weekly_limit,
        treasury.weekly_limit,
        treasury.weekly_total,
    ) || !covers(monthly_limit, treasury.monthly_limit, treasury.monthly_total) {
        return Err(ErrorCode::SpendingLimitExceeded);
    }
    if let Some(admin) = new_admin {
        treasury.admin = admin;
    }
    if let Some(treasurer) = new_treasurer {
        treasury.treasurer = treasurer;
    }
    if let Some(desc) = description {
        treasury.description = desc;
    }
    if let Some(limit) = daily_limit {
        treasury.daily_limit = limit;
    }
    if let Some(limit) = weekly_limit {
        treasury.weekly_limit = limit;
    }
    if let Some(limit) = monthly_limit {
        treasury.monthly_limit = limit;
    }
    if let Some(require) = require_token_gate {
        treasury.require_token_gate = require;
    }
    if let Some(mint) = token_gate_mint {
        treasury.token_gate_mint = Some(mint);
    }
    if let Some(amount) = token_gate_amount {
        treasury.token_gate_amount = amount;
    }
    Ok(())
}

/// Deposits `amount` of the native currency from a depositor holding
/// `depositor_balance`, which must cover it (`InsufficientFunds`).
pub fn deposit_sol(treasury: &mut TreasuryConfig, depositor_balance: u64, amount: u64) -> (r:
    Result<(), ErrorCode>)
    requires
        depositor_balance >= amount ==> old(treasury).total_balance + amount <= u64::MAX,
    ensures
        r is Ok <==> depositor_balance >= amount,
        r is Err ==> r == Err::<(), ErrorCode>(ErrorCode::InsufficientFunds) && *final(treasury)
            == *old(treasury),
        r is Ok ==> *final(treasury) == (TreasuryConfig {
            total_balance: (old(treasury).total_balance + amount) as u64,
            ..*old(treasury)
        }),
        old(treasury).within_limits() ==> final(treasury).within_limits(),
{
    if depositor_balance < amount {
        return Err(ErrorCode::InsufficientFunds);
    }
    treasury.total_balance = treasury.total_balance + amount;
    Ok(())
}

/// Withdraws `amount` of the native currency to the admin, outside the
/// spending limits. Only the admin may (`UnauthorizedAccess`), and the
/// balance must cover it (`InsufficientFunds`).
pub fn emergency_withdraw_sol(treasury: &mut TreasuryConfig, signer: &Address, amount: u64) -> (r:
    Result<(), ErrorCode>)
    ensures
        *signer != old(treasury).admin ==> r == Err::<(), ErrorCode>(ErrorCode::UnauthorizedAccess),
        *signer == old(treasury).admin && old(treasury).total_balance < amount ==> r == Err::<
            (),
            ErrorCode,
        >(ErrorCode::InsufficientFunds),
        r is Ok <==> *signer == old(treasury).admin && old(treasury).total_balance >= amount,
        r is Err ==> *final(treasury) == *old(treasury),
        r is Ok ==> *final(treasury) == (TreasuryConfig {
            total_balance: (old(treasury).total_balance - amount) as u64,
            ..*old(treasury)
        }),
        old(treasury).within_limits() ==> final(treasury).within_limits(),
{
    if *signer != treasury.admin {
        return Err(ErrorCode::UnauthorizedAccess);
    }
    if treasury.total_balance < amount {
        return Err(ErrorCode::InsufficientFunds);
    }
    treasury.total_balance = treasury.total_balance - amount;
    Ok(())
}

} // verus!
