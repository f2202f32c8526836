//! The state that the controller keeps of its own.

use vstd::prelude::*;
use crate::pubkey::Pubkey;

verus! {

/// The configuration and access-control record. There is one per deployment.
#[derive(Clone, Copy, Debug, PartialEq, Eq)]
pub struct Master {
    /// May change every field of this record, create the vault and withdraw.
    pub owner: Pubkey,
    /// May trigger the split.
    pub admin: Pubkey,
    /// Earliest time at which the split may run.
    pub start_time: u64,
    /// End of the window. Stored and updatable; no operation reads it.
    pub end_time: u64,
    /// Owner of the account that receives the larger payout of the split.
    pub foundation_address: Pubkey,
    /// Owner of the account that receives the smaller payout of the split.
    pub sale_contract_vault_owner_pda: Pubkey,
}

} // verus!
