use vstd::prelude::*;

use crate::address::Address;
use crate::error::ErrorCode;
use crate::recipient::{admin_or_treasurer, is_admin_or_treasurer};
use crate::treasury::TreasuryConfig;

verus! {

/// The balance that a treasury holds in one token mint.
#[derive(Clone, Copy, Debug, PartialEq, Eq)]
pub struct TokenVault {
    pub treasury: Address,
    pub token_mint: Address,
    /// The custody account that holds the tokens.
    pub token_account: Address,
    pub balance: u64,
    pub bump: u8,
}

/// Opens the vault of a treasury for `token_mint`, empty, with
/// `token_account` as its custody account. Only the admin or the treasurer
/// may (`UnauthorizedAccess`).
pub fn initialize_token_vault(
    treasury: &TreasuryConfig,
    treasury_key: Address,
    authority: &Address,
    token_mint: Address,
    token_account: Address,
    bump: u8,
) -> (r: Result<TokenVault, ErrorCode>)
    ensures
        !admin_or_treasurer(*treasury, *authority) ==> r == Err::<TokenVault, ErrorCode>(
            ErrorCode::UnauthorizedAccess,
        ),
        admin_or_treasurer(*treasury, *authority) ==> r == Ok::<TokenVault, ErrorCode>(
            TokenVault { treasury: treasury_key, token_mint, token_account, balance: 0, bump },
        ),
{
    if !is_admin_or_treasurer(treasury, authority) {
        return Err(ErrorCode::UnauthorizedAccess);
    }
    Ok(TokenVault { treasury: treasury_key, token_mint, token_account, balance: 0, bump })
}

/// Deposits `amount` tokens into the vault from a source account holding
/// `source_balance`, which must cover it (`InsufficientFunds`).
pub fn deposit_token(vault: &mut TokenVault, source_balance: u64, amount: u64) -> (r: Result<
    (),
    ErrorCode,
>)
    requires
        source_balance >= amount ==> old(vault).balance + amount <= u64::MAX,
    ensures
        r is Ok <==> source_balance >= amount,
        r is Err ==> r == Err::<(), ErrorCode>(ErrorCode::InsufficientFunds) && *final(vault)
            == *old(vault),
        r is Ok ==> *final(vault) == (TokenVault {
            balance: (old(vault).balance + amount) as u64,
            ..*old(vault)
        }),
{
    if source_balance < amount {
        return Err(ErrorCode::InsufficientFunds);
    }
    vault.balance = vault.balance + amount;
    Ok(())
}

/// Withdraws `amount` tokens from the vault, outside the spending limits.
/// Only the treasury's admin may (`UnauthorizedAccess`), and the vault must
/// cover it (`InsufficientFunds`).
pub fn emergency_withdraw_token(
    treasury: &TreasuryConfig,
    vault: &mut TokenVault,
    signer: &Address,
    amount: u64,
) -> (r: Result<(), ErrorCode>)
    ensures
        *signer != treasury.admin ==> r == Err::<(), ErrorCode>(ErrorCode::UnauthorizedAccess),
        *signer == treasury.admin && old(vault).balance < amount ==> r == Err::<(), ErrorCode>(
            ErrorCode::InsufficientFunds,
        ),
        r is Ok <==> *signer == treasury.admin && old(vault).balance >= amount,
        r is Err ==> *final(vault) == *old(vault),
        r is Ok ==> *final(vault) == (TokenVault {
            balance: (old(vault).balance - amount) as u64,
            ..*old(vault)
        }),
{
    if *signer != treasury.admin {
        return Err(ErrorCode::UnauthorizedAccess);
    }
    if vault.balance < amount {
        return Err(ErrorCode::InsufficientFunds);
    }
    vault.balance = vault.balance - amount;
    Ok(())
}

} // verus!
