use treasury_vault::spend_limit::{
    apply_spending_limits, check_spending_limits, DAY_SECONDS, MONTH_SECONDS, WEEK_SECONDS,
};
use treasury_vault::{
    deposit_sol, deposit_token, emergency_withdraw_sol, emergency_withdraw_token,
    initialize_token_vault, initialize_treasury, update_treasury_config, Address, ErrorCode,
    TokenVault, TreasuryConfig,
};

fn addr(n: u8) -> Address {
    Address::new([n; 32])
}

fn new_treasury(daily: u64, weekly: u64, monthly: u64) -> TreasuryConfig {
    initialize_treasury(
        addr(1),
        String::from("test_treasury"),
        String::from("operating funds"),
        addr(2),
        daily,
        weekly,
        monthly,
        false,
        None,
        0,
        1_640_995_200,
        255,
    )
}

fn within_limits(t: &TreasuryConfig) -> bool {
    t.daily_total <= t.daily_limit
        && t.weekly_total <= t.weekly_limit
        && t.monthly_total <= t.monthly_limit
}

#[test]
fn initialize_treasury_ix_success() {
    let t = new_treasury(1_000, 5_000, 20_000);
    assert_eq!(t.admin, addr(1));
    assert_eq!(t.treasurer, addr(2));
    assert_eq!(t.name, "test_treasury");
    assert_eq!(t.daily_limit, 1_000);
    assert_eq!(t.weekly_limit, 5_000);
    assert_eq!(t.monthly_limit, 20_000);
    assert_eq!(t.total_balance, 0);
    assert_eq!((t.daily_total, t.weekly_total, t.monthly_total), (0, 0, 0));
    assert_eq!(t.last_day_reset, 1_640_995_200);
    assert_eq!(t.last_week_reset, 1_640_995_200);
    assert_eq!(t.last_month_reset, 1_640_995_200);
    assert_eq!(t.bump, 255);
}

#[test]
fn update_treasury_config_ix_success() {
    let mut t = new_treasury(1_000, 5_000, 20_000);
    let r = update_treasury_config(
        &mut t,
        &addr(1),
        None,
        Some(addr(3)),
        Some(String::from("new description")),
        Some(2_000),
        None,
        None,
        Some(true),
        Some(addr(9)),
        Some(50),
    );
    assert_eq!(r, Ok(()));
    assert_eq!(t.admin, addr(1));
    assert_eq!(t.treasurer, addr(3));
    assert_eq!(t.description, "new description");
    assert_eq!(t.daily_limit, 2_000);
    assert_eq!(t.weekly_limit, 5_000);
    assert!(t.require_token_gate);
    assert_eq!(t.token_gate_mint, Some(addr(9)));
    assert_eq!(t.token_gate_amount, 50);
}

#[test]
fn update_treasury_config_requires_admin() {
    let mut t = new_treasury(1_000, 5_000, 20_000);
    let r = update_treasury_config(
        &mut t,
        &addr(2),
        Some(addr(2)),
        None,
        None,
        Some(0),
        None,
        None,
        None,
        None,
        None,
    );
    assert_eq!(r, Err(ErrorCode::UnauthorizedAccess));
    assert_eq!(t.admin, addr(1));
    assert_eq!(t.daily_limit, 1_000);
}

#[test]
fn update_treasury_config_keeps_totals_within_ceilings() {
    let mut t = new_treasury(1_000, 5_000, 20_000);
    t.daily_total = 1;
    t.weekly_total = 700;
    let r = update_treasury_config(&mut t, &addr(1), Some(addr(3)), None, None, Some(0), None, None, None, None, None);
    assert_eq!(r, Err(ErrorCode::SpendingLimitExceeded));
    assert_eq!(t.daily_limit, 1_000);
    assert_eq!(t.admin, addr(1));
    let r = update_treasury_config(&mut t, &addr(1), None, None, None, None, Some(699), None, None, None, None);
    assert_eq!(r, Err(ErrorCode::SpendingLimitExceeded));
    assert_eq!(t.weekly_limit, 5_000);
    // A ceiling equal to the total is accepted.
    let r = update_treasury_config(&mut t, &addr(1), None, None, None, Some(1), Some(700), Some(700), None, None, None);
    assert_eq!(r, Ok(()));
    assert_eq!((t.daily_limit, t.weekly_limit, t.monthly_limit), (1, 700, 700));
    assert!(within_limits(&t));
}

#[test]
fn deposit_sol_ix_success() {
    let mut t = new_treasury(1_000, 5_000, 20_000);
    assert_eq!(deposit_sol(&mut t, 1_000_000_000_000, 1_000_000_000_000), Ok(()));
    assert_eq!(t.total_balance, 1_000_000_000_000);
}

#[test]
fn deposit_sol_insufficient_source() {
    let mut t = new_treasury(1_000, 5_000, 20_000);
    assert_eq!(deposit_sol(&mut t, 99, 100), Err(ErrorCode::InsufficientFunds));
    assert_eq!(t.total_balance, 0);
    // A refused deposit is refused even where the balance could not take it.
    t.total_balance = u64::MAX;
    assert_eq!(deposit_sol(&mut t, 99, 100), Err(ErrorCode::InsufficientFunds));
    assert_eq!(t.total_balance, u64::MAX);
}

#[test]
fn emergency_withdraw_sol_rules() {
    let mut t = new_treasury(1_000, 5_000, 20_000);
    deposit_sol(&mut t, 10_000, 10_000).unwrap();
    assert_eq!(emergency_withdraw_sol(&mut t, &addr(2), 10), Err(ErrorCode::UnauthorizedAccess));
    assert_eq!(emergency_withdraw_sol(&mut t, &addr(1), 10_001), Err(ErrorCode::InsufficientFunds));
    assert_eq!(t.total_balance, 10_000);
    // Emergency withdrawals bypass the spending limits.
    assert_eq!(emergency_withdraw_sol(&mut t, &addr(1), 9_000), Ok(()));
    assert_eq!(t.total_balance, 1_000);
    assert_eq!(t.daily_total, 0);
}

#[test]
fn initialize_token_vault_ix_success() {
    let t = new_treasury(1_000, 5_000, 20_000);
    let v = initialize_token_vault(&t, addr(7), &addr(2), addr(9), addr(10), 254).unwrap();
    assert_eq!(v.treasury, addr(7));
    assert_eq!(v.token_mint, addr(9));
    assert_eq!(v.token_account, addr(10));
    assert_eq!(v.balance, 0);
    assert_eq!(v.bump, 254);
    let r = initialize_token_vault(&t, addr(7), &addr(5), addr(9), addr(10), 254);
    assert!(matches!(r, Err(ErrorCode::UnauthorizedAccess)));
}

fn vault(balance: u64) -> TokenVault {
    TokenVault { treasury: addr(7), token_mint: addr(9), token_account: addr(10), balance, bump: 0 }
}

#[test]
fn deposit_token_ix_success() {
    let mut v = vault(0);
    assert_eq!(deposit_token(&mut v, 1_000_000_000_000, 1_000_000_000_000), Ok(()));
    assert_eq!(v.balance, 1_000_000_000_000);
    assert_eq!(deposit_token(&mut v, 5, 6), Err(ErrorCode::InsufficientFunds));
    assert_eq!(v.balance, 1_000_000_000_000);
}

#[test]
fn emergency_withdraw_token_rules() {
    let t = new_treasury(1_000, 5_000, 20_000);
    let mut v = vault(500);
    assert_eq!(emergency_withdraw_token(&t, &mut v, &addr(2), 1), Err(ErrorCode::UnauthorizedAccess));
    assert_eq!(emergency_withdraw_token(&t, &mut v, &addr(1), 501), Err(ErrorCode::InsufficientFunds));
    assert_eq!(emergency_withdraw_token(&t, &mut v, &addr(1), 500), Ok(()));
    assert_eq!(v.balance, 0);
}

#[test]
fn daily_limit_reached_exactly() {
    let mut t = new_treasury(1_000, 1_000_000, 1_000_000);
    t.daily_total = 900;
    let now = t.last_day_reset + 10;
    assert_eq!(apply_spending_limits(&mut t, 200, now), Err(ErrorCode::SpendingLimitExceeded));
    assert_eq!(t.daily_total, 900);
    assert_eq!(apply_spending_limits(&mut t, 100, now), Ok(()));
    assert_eq!(t.daily_total, 1_000);
    assert!(within_limits(&t));
}

#[test]
fn limits_are_checked_independently() {
    let mut t = new_treasury(1_000, 1_500, 1_000_000);
    t.weekly_total = 1_450;
    let now = t.last_day_reset + 1;
    assert_eq!(check_spending_limits(&t, 100, now), Err(ErrorCode::SpendingLimitExceeded));
    assert_eq!(check_spending_limits(&t, 50, now), Ok(()));
    t.monthly_limit = 10;
    assert_eq!(check_spending_limits(&t, 50, now), Err(ErrorCode::SpendingLimitExceeded));
}

#[test]
fn refused_charge_persists_no_reset() {
    let mut t = new_treasury(1_000, 1_000, 1_000_000);
    t.daily_total = 600;
    t.weekly_total = 950;
    let start = t.last_day_reset;
    let now = start + DAY_SECONDS;
    // The day window is due for a reset but the week refuses the charge.
    assert_eq!(apply_spending_limits(&mut t, 100, now), Err(ErrorCode::SpendingLimitExceeded));
    assert_eq!(t.daily_total, 600);
    assert_eq!(t.last_day_reset, start);
}

#[test]
fn windows_reset_after_their_length() {
    let mut t = new_treasury(1_000, 2_000, 3_000);
    t.daily_total = 1_000;
    t.weekly_total = 1_500;
    t.monthly_total = 2_500;
    let start = t.last_day_reset;
    assert_eq!(apply_spending_limits(&mut t, 1, start + DAY_SECONDS - 1), Err(ErrorCode::SpendingLimitExceeded));
    assert_eq!(apply_spending_limits(&mut t, 400, start + DAY_SECONDS), Ok(()));
    assert_eq!((t.daily_total, t.last_day_reset), (400, start + DAY_SECONDS));
    assert_eq!((t.weekly_total, t.last_week_reset), (1_900, start));
    assert_eq!(apply_spending_limits(&mut t, 200, start + WEEK_SECONDS), Err(ErrorCode::SpendingLimitExceeded));
    assert_eq!(apply_spending_limits(&mut t, 100, start + WEEK_SECONDS), Ok(()));
    assert_eq!((t.daily_total, t.weekly_total, t.monthly_total), (100, 100, 3_000));
    assert_eq!(apply_spending_limits(&mut t, 1, start + WEEK_SECONDS + 1), Err(ErrorCode::SpendingLimitExceeded));
    assert_eq!(apply_spending_limits(&mut t, 1, start + MONTH_SECONDS), Ok(()));
    assert_eq!(t.monthly_total, 1);
    assert_eq!(t.last_month_reset, start + MONTH_SECONDS);
    assert!(within_limits(&t));
}

#[test]
fn no_daily_reset_within_one_window() {
    let mut t = new_treasury(1_000, 10_000, 10_000);
    t.daily_total = 300;
    let start = t.last_day_reset;
    assert_eq!(apply_spending_limits(&mut t, 100, start + 1_000), Ok(()));
    assert_eq!(apply_spending_limits(&mut t, 200, start + DAY_SECONDS - 1), Ok(()));
    assert_eq!(t.daily_total, 600);
    assert_eq!(t.last_day_reset, start);
}

#[test]
fn oversized_amount_is_refused_not_wrapped() {
    let mut t = new_treasury(u64::MAX, u64::MAX, u64::MAX);
    t.daily_total = 10;
    let now = t.last_day_reset;
    assert_eq!(apply_spending_limits(&mut t, u64::MAX, now), Err(ErrorCode::SpendingLimitExceeded));
    assert_eq!(apply_spending_limits(&mut t, u64::MAX - 10, now), Ok(()));
    assert_eq!(t.daily_total, u64::MAX);
}
