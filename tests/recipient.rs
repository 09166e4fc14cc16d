use treasury_vault::recipient::check_token_account_address;
use treasury_vault::{
    add_recipient, get_expected_token_account_address, initialize_treasury, update_recipient,
    validate_associated_token_account, validate_token_gate,
    validate_token_gate_for_recipient_creation, verify_recipient_token_gate_status, Address,
    ErrorCode, TokenAccountState, TreasuryConfig,
};

fn addr(n: u8) -> Address {
    Address::new([n; 32])
}

fn gated_treasury(amount: u64) -> TreasuryConfig {
    initialize_treasury(
        addr(1),
        String::from("treasury"),
        String::new(),
        addr(2),
        1_000,
        1_000,
        1_000,
        true,
        Some(addr(9)),
        amount,
        0,
        0,
    )
}

fn holding(owner: Address, mint: Address, amount: u64) -> TokenAccountState {
    TokenAccountState { address: addr(20), owner, mint, amount }
}

#[test]
fn token_gate_threshold() {
    let t = gated_treasury(50);
    let low = holding(addr(4), addr(9), 49);
    let enough = holding(addr(4), addr(9), 50);
    let r = add_recipient(&t, addr(7), &addr(1), addr(4), String::from("alice"), 0, Some(addr(9)), Some(&low), 3);
    assert!(matches!(r, Err(ErrorCode::MissingTokenGate)));
    let rc = add_recipient(&t, addr(7), &addr(1), addr(4), String::from("alice"), 0, Some(addr(9)), Some(&enough), 3).unwrap();
    assert_eq!(rc.treasury, addr(7));
    assert_eq!(rc.recipient_address, addr(4));
    assert_eq!(rc.name, "alice");
    assert_eq!(rc.role, 0);
    assert!(rc.is_active);
    assert_eq!(rc.total_received, 0);
    assert_eq!(rc.last_payout_time, 0);
    assert_eq!(rc.bump, 3);
}

#[test]
fn token_gate_requires_matching_proof() {
    let t = gated_treasury(50);
    let other_owner = holding(addr(5), addr(9), 100);
    let other_mint = holding(addr(4), addr(8), 100);
    let good = holding(addr(4), addr(9), 100);
    assert_eq!(validate_token_gate(&t, None, &addr(4)), Err(ErrorCode::MissingTokenGate));
    assert_eq!(validate_token_gate(&t, Some(&other_owner), &addr(4)), Err(ErrorCode::MissingTokenGate));
    assert_eq!(validate_token_gate(&t, Some(&other_mint), &addr(4)), Err(ErrorCode::MissingTokenGate));
    assert_eq!(validate_token_gate(&t, Some(&good), &addr(4)), Ok(()));
    assert_eq!(validate_token_gate_for_recipient_creation(&t, Some(&other_mint), &addr(4)), Err(ErrorCode::MissingTokenGate));
    assert_eq!(validate_token_gate_for_recipient_creation(&t, Some(&good), &addr(4)), Ok(()));
    assert!(!verify_recipient_token_gate_status(&t, Some(&other_owner), &addr(4)));
    assert!(verify_recipient_token_gate_status(&t, Some(&good), &addr(4)));
    let mut no_mint = gated_treasury(50);
    no_mint.token_gate_mint = None;
    assert_eq!(validate_token_gate(&no_mint, Some(&good), &addr(4)), Err(ErrorCode::MissingTokenGate));
    assert!(!verify_recipient_token_gate_status(&no_mint, Some(&good), &addr(4)));
}

#[test]
fn registration_must_present_gate_mint() {
    let t = gated_treasury(50);
    let good = holding(addr(4), addr(9), 100);
    let r = add_recipient(&t, addr(7), &addr(2), addr(4), String::from("a"), 1, None, Some(&good), 0);
    assert!(matches!(r, Err(ErrorCode::MissingTokenGate)));
    let r = add_recipient(&t, addr(7), &addr(2), addr(4), String::from("a"), 1, Some(addr(8)), Some(&good), 0);
    assert!(matches!(r, Err(ErrorCode::MissingTokenGate)));
    let r = add_recipient(&t, addr(7), &addr(2), addr(4), String::from("a"), 1, Some(addr(9)), Some(&good), 0);
    assert_eq!(r.unwrap().role, 1);
}

#[test]
fn without_gating_everyone_is_eligible() {
    let mut t = gated_treasury(50);
    t.require_token_gate = false;
    assert_eq!(validate_token_gate(&t, None, &addr(4)), Ok(()));
    assert!(verify_recipient_token_gate_status(&t, None, &addr(4)));
    let r = add_recipient(&t, addr(7), &addr(1), addr(4), String::from("bob"), 0, None, None, 0);
    assert!(r.is_ok());
    let r = add_recipient(&t, addr(7), &addr(6), addr(4), String::from("bob"), 0, None, None, 0);
    assert!(matches!(r, Err(ErrorCode::UnauthorizedAccess)));
}

#[test]
fn update_recipient_fields() {
    let mut t = gated_treasury(0);
    t.require_token_gate = false;
    let mut rc = add_recipient(&t, addr(7), &addr(1), addr(4), String::from("bob"), 0, None, None, 0).unwrap();
    assert_eq!(update_recipient(&t, &mut rc, &addr(5), Some(String::from("x")), None, Some(false)), Err(ErrorCode::UnauthorizedAccess));
    assert_eq!(rc.name, "bob");
    assert!(rc.is_active);
    assert_eq!(update_recipient(&t, &mut rc, &addr(2), None, Some(1), Some(false)), Ok(()));
    assert_eq!(rc.name, "bob");
    assert_eq!(rc.role, 1);
    assert!(!rc.is_active);
}

#[test]
fn associated_token_address_is_derived() {
    let wallet = addr(4);
    let mint = addr(9);
    let expected = get_expected_token_account_address(&wallet, &mint, &addr(30));
    assert_ne!(expected, wallet);
    assert_ne!(expected, mint);
    assert_eq!(expected, get_expected_token_account_address(&wallet, &mint, &addr(30)));
    assert_ne!(expected, get_expected_token_account_address(&mint, &wallet, &addr(30)));
    let mut account = holding(wallet, mint, 1);
    assert_eq!(validate_associated_token_account(&account, &wallet, &mint), Err(ErrorCode::InvalidTokenVault));
    account.address = expected;
    assert_eq!(validate_associated_token_account(&account, &wallet, &mint), Ok(()));
    assert_eq!(check_token_account_address(&account, &expected), Ok(()));
    assert_eq!(check_token_account_address(&account, &wallet), Err(ErrorCode::InvalidTokenVault));
}
