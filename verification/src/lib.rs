//! A custody and distribution controller for one fungible asset.
//!
//! The controller keeps a master record that says who may do what, holds
//! deposited units in a vault that only a derived, keyless authority can
//! move, lets the owner withdraw, and lets the admin split fixed payouts
//! out of the vault to two receivers once a window has opened and the
//! vault holds a threshold. Every operation is a transition on plain
//! values: it either changes them as its contract says and names the
//! transfers to make, or fails and changes nothing.

pub mod amount;
pub mod errors;
pub mod guard;
pub mod laws;
pub mod pda;
pub mod processor;
pub mod pubkey;
pub mod states;
pub mod token;

pub use errors::CustomError;
pub use processor::master::{
    init_master, update_admin, update_end_time, update_foundation_wallet, update_owner,
    update_sale_contract_vault_owner_pda, update_start_time, InitMasterCtx, UpdateMasterCtx,
};
pub use processor::split::{
    plan_split_event_token, plan_split_event_token_with, split_event_token,
    split_event_token_with, SplitEventTokenCtx, SplitTransfers,
};
pub use processor::vault::{
    deposit_event_token, init_vault_event_token, init_vault_event_token_with,
    plan_deposit_event_token, plan_withdraw_event_token, plan_withdraw_event_token_with,
    withdraw_event_token, withdraw_event_token_with, InitVaultEventTokenCtx, TransferTokenCtx,
};
pub use pubkey::Pubkey;
pub use states::Master;
pub use token::{Mint, TokenAccount, Transfer, VaultAuthority};
