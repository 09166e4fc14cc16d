pub mod address;
pub mod error;
pub mod payout;
pub mod recipient;
pub mod spend_limit;
pub mod stream;
pub mod treasury;
pub mod vault;

pub use address::Address;
pub use error::ErrorCode;
pub use payout::{
    check_sol_payout, check_token_payout, create_payout_schedule, execute_sol_payout, execute_token_payout, update_payout_schedule,
    PayoutSchedule,
};
pub use recipient::{
    add_recipient, get_expected_token_account_address, update_recipient,
    validate_associated_token_account, validate_token_gate,
    validate_token_gate_for_recipient_creation, verify_recipient_token_gate_status, Recipient,
    TokenAccountState,
};
pub use stream::{cancel_stream, check_withdrawal, create_streaming_schedule, withdraw_from_stream, StreamingSchedule};
pub use treasury::{
    deposit_sol, emergency_withdraw_sol, initialize_treasury, update_treasury_config,
    TreasuryConfig,
};
pub use vault::{deposit_token, emergency_withdraw_token, initialize_token_vault, TokenVault};
