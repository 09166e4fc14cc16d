use vstd::prelude::*;

use crate::address::Address;
use crate::error::ErrorCode;
use crate::treasury::TreasuryConfig;

verus! {

/// A registered payee of a treasury, with what it has received so far.
#[derive(Clone, Debug, PartialEq, Eq)]
pub struct Recipient {
    pub treasury: Address,
    pub recipient_address: Address,
    pub name: String,
    /// 0 for a regular recipient, 1 for a privileged one.
    pub role: u8,
    pub is_active: bool,
    pub total_received: u64,
    pub last_payout_time: i64,
    pub bump: u8,
}

/// What a token account presented as proof of holding shows: its own
/// address, its owner, its mint and its balance.
#[derive(Clone, Copy, Debug, PartialEq, Eq)]
pub struct TokenAccountState {
    pub address: Address,
    pub owner: Address,
    pub mint: Address,
    pub amount: u64,
}

/// The associated token account address of a wallet for a mint, as the
/// associated-token-account program derives it.
pub uninterp spec fn associated_token_address_of(wallet: [u8; 32], mint: [u8; 32]) -> [u8; 32];

/// `signer` may administer the treasury's recipients and schedules.
pub open spec fn admin_or_treasurer(treasury: TreasuryConfig, signer: Address) -> bool {
    signer == treasury.admin || signer == treasury.treasurer
}

/// Under token gating, a recipient is eligible when a gate mint is
/// configured and the presented account belongs to the recipient, holds the
/// gate mint and at least the minimum amount. Without gating everyone is.
pub open spec fn passes_token_gate(
    treasury: TreasuryConfig,
    account: Option<&TokenAccountState>,
    recipient_address: Address,
) -> bool {
    !treasury.require_token_gate || {
        &&& treasury.token_gate_mint is Some
        &&& account is Some
        &&& account->0.owner == recipient_address
        &&& account->0.mint == treasury.token_gate_mint->0
        &&& account->0.amount >= treasury.token_gate_amount
    }
}

/// Under token gating, the mint account that the registration presents must
/// be the configured gate mint.
pub open spec fn presents_gate_mint(treasury: TreasuryConfig, gate_mint: Option<Address>) -> bool {
    !treasury.require_token_gate || (gate_mint is Some && treasury.token_gate_mint == gate_mint)
}

pub fn is_admin_or_treasurer(treasury: &TreasuryConfig, signer: &Address) -> (r: bool)
    ensures
        r == admin_or_treasurer(*treasury, *signer),
{
    *signer == treasury.admin || *signer == treasury.treasurer
}

/// Checks token gating for a recipient: fails `MissingTokenGate` unless the
/// recipient is eligible.
pub fn validate_token_gate(
    treasury: &TreasuryConfig,
    recipient_token_account: Option<&TokenAccountState>,
    recipient_address: &Address,
) -> (r: Result<(), ErrorCode>)
    ensures
        r == if passes_token_gate(*treasury, recipient_token_account, *recipient_address) {
            Ok::<(), ErrorCode>(())
        } else {
            Err(ErrorCode::MissingTokenGate)
        },
{
    if !treasury.require_token_gate {
        return Ok(());
    }
    let token_gate_mint = match treasury.token_gate_mint {
        Some(mint) => mint,
        None => return Err(ErrorCode::MissingTokenGate),
    };
    let token_account = match recipient_token_account {
        Some(account) => account,
        None => return Err(ErrorCode::MissingTokenGate),
    };
    if token_account.owner != *recipient_address {
        return Err(ErrorCode::MissingTokenGate);
    }
    if token_account.mint != token_gate_mint {
        return Err(ErrorCode::MissingTokenGate);
    }
    if token_account.amount < treasury.token_gate_amount {
        return Err(ErrorCode::MissingTokenGate);
    }
    Ok(())
}

/// Token gating as checked when a recipient is created.
pub fn validate_token_gate_for_recipient_creation(
    treasury: &TreasuryConfig,
    recipient_token_account: Option<&TokenAccountState>,
    recipient_address: &Address,
) -> (r: Result<(), ErrorCode>)
    ensures
        r == if passes_token_gate(*treasury, recipient_token_account, *recipient_address) {
            Ok::<(), ErrorCode>(())
        } else {
            Err(ErrorCode::MissingTokenGate)
        },
{
    if treasury.require_token_gate {
        validate_token_gate(treasury, recipient_token_account, recipient_address)?;
    }
    Ok(())
}

/// Whether a recipient still meets the token-gating rule.
pub fn verify_recipient_token_gate_status(
    treasury: &TreasuryConfig,
    recipient_token_account: Option<&TokenAccountState>,
    recipient_address: &Address,
) -> (r: bool)
    ensures
        r == passes_token_gate(*treasury, recipient_token_account, *recipient_address),
{
    if !treasury.require_token_gate {
        return true;
    }
    match (treasury.token_gate_mint, recipient_token_account) {
        (Some(gate_mint), Some(token_account)) => {
            token_account.owner == *recipient_address && token_account.mint == gate_mint
                && token_account.amount >= treasury.token_gate_amount
        },
        _ => false,
    }
}

/// Registers a recipient. Only the admin or the treasurer may do so
/// (`UnauthorizedAccess`). Under token gating, the gating mint and a token
/// account that makes the recipient eligible must both be shown, else
/// `MissingTokenGate`. A new recipient is active and has received nothing.
pub fn add_recipient(
    treasury: &TreasuryConfig,
    treasury_key: Address,
    authority: &Address,
    recipient_address: Address,
    name: String,
    role: u8,
    token_gate_mint: Option<Address>,
    recipient_token_account: Option<&TokenAccountState>,
    bump: u8,
) -> (r: Result<Recipient, ErrorCode>)
    ensures
        !admin_or_treasurer(*treasury, *authority) ==> r == Err::<Recipient, ErrorCode>(
            ErrorCode::UnauthorizedAccess,
        ),
        admin_or_treasurer(*treasury, *authority) && !(presents_gate_mint(*treasury, token_gate_mint)
            && passes_token_gate(*treasury, recipient_token_account, recipient_address))
            ==> r == Err::<Recipient, ErrorCode>(ErrorCode::MissingTokenGate),
        r is Ok <==> admin_or_treasurer(*treasury, *authority) && presents_gate_mint(
            *treasury,
            token_gate_mint,
        ) && passes_token_gate(*treasury, recipient_token_account, recipient_address),
        r matches Ok(rc) ==> ({
            &&& rc.treasury == treasury_key
            &&& rc.recipient_address == recipient_address
            &&& rc.name == name
            &&& rc.role == role
            &&& rc.is_active
            &&& rc.total_received == 0
            &&& rc.last_payout_time == 0
            &&& rc.bump == bump
        }),
{
    if !is_admin_or_treasurer(treasury, authority) {
        return Err(ErrorCode::UnauthorizedAccess);
    }
    if treasury.require_token_gate {
        match token_gate_mint {
            Some(mint) => {
                match treasury.token_gate_mint {
                    Some(gate) => {
                        if mint != gate {
                            return Err(ErrorCode::MissingTokenGate);
                        }
                    },
                    None => return Err(ErrorCode::MissingTokenGate),
                }
            },
            None => return Err(ErrorCode::MissingTokenGate),
        }
    }
    validate_token_gate(treasury, recipient_token_account, &recipient_address)?;
    Ok(
        Recipient {
            treasury: treasury_key,
            recipient_address,
            name,
            role,
            is_active: true,
            total_received: 0,
            last_payout_time: 0,
            bump,
        },
    )
}

/// Changes a recipient's name, role or active flag, each only where a new
/// value is given. Only the admin or the treasurer may do so.
pub fn update_recipient(
    treasury: &TreasuryConfig,
    recipient: &mut Recipient,
    authority: &Address,
    name: Option<String>,
    role: Option<u8>,
    is_active: Option<bool>,
) -> (r: Result<(), ErrorCode>)
    ensures
        r is Ok <==> admin_or_treasurer(*treasury, *authority),
        r is Err ==> r == Err::<(), ErrorCode>(ErrorCode::UnauthorizedAccess) && *final(recipient)
            == *old(recipient),
        r is Ok ==> *final(recipient) == (Recipient {
            name: match name {
                Some(n) => n,
                None => old(recipient).name,
            },
            role: match role {
                Some(x) => x,
                None => old(recipient).role,
            },
            is_active: match is_active {
                Some(a) => a,
                None => old(recipient).is_active,
            },
            ..*old(recipient)
        }),
{
    if !is_admin_or_treasurer(treasury, authority) {
        return Err(ErrorCode::UnauthorizedAccess);
    }
    if let Some(new_name) = name {
        recipient.name = new_name;
    }
    if let Some(new_role) = role {
        recipient.role = new_role;
    }
    if let Some(active) = is_active {
        recipient.is_active = active;
    }
    Ok(())
}

/// Relies on `anchor_spl::associated_token::get_associated_token_address`
/// (spl-associated-token-account): the program-derived address of the
/// associated token account of `wallet` for `mint` under the SPL token
/// program, a function of the two addresses alone.
#[verifier::external_body]
fn associated_token_address(wallet: &Address, mint: &Address) -> (r: Address)
    ensures
        r.bytes == associated_token_address_of(wallet.bytes, mint.bytes),
{
    let wallet_key = anchor_lang::prelude::Pubkey::new_from_array(wallet.bytes);
    let mint_key = anchor_lang::prelude::Pubkey::new_from_array(mint.bytes);
    let derived = anchor_spl::associated_token::get_associated_token_address(&wallet_key, &mint_key);
    Address { bytes: derived.to_bytes() }
}

/// The associated token account address that `recipient_address` holds
/// `token_mint` in. The address is always derived under the SPL token
/// program; `_token_program_id` does not take part.
pub fn get_expected_token_account_address(
    recipient_address: &Address,
    token_mint: &Address,
    _token_program_id: &Address,
) -> (r: Address)
    ensures
        r.bytes == associated_token_address_of(recipient_address.bytes, token_mint.bytes),
{
    associated_token_address(recipient_address, token_mint)
}

/// Accepts a token account only at the expected address (`InvalidTokenVault`
/// otherwise).
pub fn check_token_account_address(token_account: &TokenAccountState, expected: &Address) -> (r:
    Result<(), ErrorCode>)
    ensures
        r == if token_account.address == *expected {
            Ok::<(), ErrorCode>(())
        } else {
            Err(ErrorCode::InvalidTokenVault)
        },
{
    if token_account.address != *expected {
        return Err(ErrorCode::InvalidTokenVault);
    }
    Ok(())
}

/// Accepts a token account only if it is the associated token account of
/// `owner` for `mint` (`InvalidTokenVault` otherwise).
pub fn validate_associated_token_account(
    token_account: &TokenAccountState,
    owner: &Address,
    mint: &Address,
) -> (r: Result<(), ErrorCode>)
    ensures
        r == if token_account.address.bytes == associated_token_address_of(owner.bytes, mint.bytes) {
            Ok::<(), ErrorCode>(())
        } else {
            Err(ErrorCode::InvalidTokenVault)
        },
{
    let expected = associated_token_address(owner, mint);
    check_token_account_address(token_account, &expected)
}

} // verus!
