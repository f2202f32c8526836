//! The split: the conditions under which the admin may run it and the two
//! fixed payouts that it makes out of the vault.

use vstd::prelude::*;
use vstd::arithmetic::power::pow;
use crate::amount::scale_amount;
use crate::errors::CustomError;
use crate::guard::require_keys_eq;
use crate::pda::{create_vault_authority, key_bytes, program_address, vault_authority_seeds};
use crate::pubkey::{lemma_pubkey_ext, Pubkey};
use crate::states::Master;
use crate::token::{credited, transfer, Mint, TokenAccount, Transfer, VaultAuthority};

verus! {

/// The number of whole tokens that the vault must hold for the split to
/// run.
pub const SPLIT_THRESHOLD_BASE: u64 = 1_000_000_000;

/// The number that, times the asset's decimals, goes to the foundation.
pub const FOUNDATION_SHARE: u64 = 990_000_000;

/// The number that, times the asset's decimals, goes to the sale contract.
pub const SALE_CONTRACT_SHARE: u64 = 10_000_000;

/// What the vault must hold for the split to run, in base units: a
/// thousand million times ten to the asset's decimals.
pub open spec fn split_threshold(decimals: u8) -> int {
    SPLIT_THRESHOLD_BASE * pow(10, decimals as nat)
}

/// What the split pays to the foundation, in base units: 990 million
/// times the asset's decimals.
pub open spec fn foundation_payout(decimals: u8) -> int {
    FOUNDATION_SHARE * decimals
}

/// What the split pays to the sale contract, in base units: 10 million
/// times the asset's decimals.
pub open spec fn sale_contract_payout(decimals: u8) -> int {
    SALE_CONTRACT_SHARE * decimals
}

/// A vault that holds the threshold can make both payouts: the decimals
/// are below ten to the decimals.
pub proof fn lemma_threshold_covers_payouts(decimals: u8)
    ensures
        foundation_payout(decimals) + sale_contract_payout(decimals) <= split_threshold(decimals),
{
    lemma_power_of_ten_exceeds(decimals as nat);
    let factor = pow(10, decimals as nat);
    assert(1_000_000_000 * decimals <= 1_000_000_000 * factor) by (nonlinear_arith)
        requires
            decimals < factor,
    ;
}

proof fn lemma_power_of_ten_exceeds(e: nat)
    ensures
        e < pow(10, e),
    decreases e,
{
    reveal_with_fuel(pow, 1);
    if e > 0 {
        lemma_power_of_ten_exceeds((e - 1) as nat);
    }
}

/// What the split works on: the program, the master record, the asset,
/// the vault with its authority, the two receiving accounts with the
/// identities said to own them, the caller, and the replay guard: whether
/// the split may run once only, and whether it has run.
#[derive(Clone, Copy, Debug, PartialEq, Eq)]
pub struct SplitEventTokenCtx {
    pub program_id: Pubkey,
    pub master: Master,
    pub mint_of_event_token: Mint,
    pub vault_event_token_owner: VaultAuthority,
    pub vault_event_token: TokenAccount,
    pub foundation_event_token: TokenAccount,
    pub sale_contract_vault_event_token: TokenAccount,
    pub foundation_address: Pubkey,
    pub sale_contract_vault_owner_pda: Pubkey,
    pub signer: Pubkey,
    pub one_shot: bool,
    pub split_executed: bool,
}

/// The two transfers of a split.
#[derive(Clone, Copy, Debug, PartialEq, Eq)]
pub struct SplitTransfers {
    pub foundation: Transfer,
    pub sale_contract: Transfer,
}

impl SplitEventTokenCtx {
    /// Whether the identities are those the split requires: the caller is
    /// the admin, the foundation and the owner of the sale contract's
    /// vault are those of the master record and own the receiving
    /// accounts, the derivation proof yields the vault authority
    /// (`derived` is what it yields), and that authority owns the vault.
    pub open spec fn split_authorized(self, derived: Option<Seq<u8>>) -> bool {
        &&& self.signer == self.master.admin
        &&& self.foundation_address == self.master.foundation_address
        &&& self.sale_contract_vault_owner_pda == self.master.sale_contract_vault_owner_pda
        &&& self.foundation_event_token.owner == self.foundation_address
        &&& self.sale_contract_vault_event_token.owner == self.sale_contract_vault_owner_pda
        &&& derived == Some(self.vault_event_token_owner.address@)
        &&& self.vault_event_token.owner == self.vault_event_token_owner.address
    }

    /// Why the controller refuses a split at time `now`, if it does: the
    /// first of its conditions that fails, in this order. The time is
    /// the host's, with its sign, and is compared as a number.
    pub open spec fn split_refusal(self, now: i64, derived: Option<Seq<u8>>) -> Option<
        CustomError,
    > {
        if !self.split_authorized(derived) {
            Some(CustomError::Unauthorized)
        } else if now < self.master.start_time {
            Some(CustomError::StartTimeNotReached)
        } else if self.vault_event_token.amount < split_threshold(
            self.mint_of_event_token.decimals,
        ) {
            Some(CustomError::AmountOfEventTokenIsNotEnough)
        } else if self.one_shot && self.split_executed {
            Some(CustomError::SplitAlreadyExecuted)
        } else {
            None
        }
    }

    /// Whether a receiving account has no room for its payout.
    pub open spec fn payout_overflows(self) -> bool {
        let decimals = self.mint_of_event_token.decimals;
        ||| self.foundation_event_token.amount + foundation_payout(decimals) > u64::MAX
        ||| self.sale_contract_vault_event_token.amount + sale_contract_payout(decimals)
            > u64::MAX
    }

    /// Why a split at time `now` is refused, if it is: by the controller,
    /// or else by the transfer primitive for want of room.
    pub open spec fn split_error(self, now: i64, derived: Option<Seq<u8>>) -> Option<
        CustomError,
    > {
        match self.split_refusal(now, derived) {
            Some(e) => Some(e),
            None => if self.payout_overflows() {
                Some(CustomError::AmountOverflow)
            } else {
                None
            },
        }
    }

    /// The two transfers that a split makes.
    pub open spec fn split_transfers(self) -> SplitTransfers {
        let decimals = self.mint_of_event_token.decimals;
        SplitTransfers {
            foundation: Transfer {
                from: self.vault_event_token.address,
                to: self.foundation_event_token.address,
                authority: self.vault_event_token_owner.address,
                amount: foundation_payout(decimals) as u64,
                signer_bump: Some(self.vault_event_token_owner.bump),
            },
            sale_contract: Transfer {
                from: self.vault_event_token.address,
                to: self.sale_contract_vault_event_token.address,
                authority: self.vault_event_token_owner.address,
                amount: sale_contract_payout(decimals) as u64,
                signer_bump: Some(self.vault_event_token_owner.bump),
            },
        }
    }

    /// What the controller decides on a split at time `now`: its refusal,
    /// or the two transfers to hand to the transfer primitive.
    pub open spec fn split_plan(self, now: i64, derived: Option<Seq<u8>>) -> Result<
        SplitTransfers,
        CustomError,
    > {
        match self.split_refusal(now, derived) {
            Some(e) => Err(e),
            None => Ok(self.split_transfers()),
        }
    }

    /// The accounts and the guard after a split: the vault has paid both
    /// payouts, each receiving account holds its payout more, the split is
    /// marked as run, and nothing else differs.
    pub open spec fn after_split(self) -> Self {
        let decimals = self.mint_of_event_token.decimals;
        SplitEventTokenCtx {
            vault_event_token: credited(
                self.vault_event_token,
                -(foundation_payout(decimals) + sale_contract_payout(decimals)),
            ),
            foundation_event_token: credited(
                self.foundation_event_token,
                foundation_payout(decimals),
            ),
            sale_contract_vault_event_token: credited(
                self.sale_contract_vault_event_token,
                sale_contract_payout(decimals),
            ),
            split_executed: true,
            ..self
        }
    }

    /// The outcome of a split at time `now`, where the derivation proof
    /// yields `derived`.
    pub open spec fn split_outcome(
        self,
        now: i64,
        derived: Option<Seq<u8>>,
        r: Result<SplitTransfers, CustomError>,
        post: Self,
    ) -> bool {
        match self.split_error(now, derived) {
            Some(e) => r == Err::<SplitTransfers, CustomError>(e) && post == self,
            None => r == Ok::<SplitTransfers, CustomError>(self.split_transfers()) && post
                == self.after_split(),
        }
    }
}

/// Whether an identity that may be absent is the given one.
fn is_key(derived: Option<Pubkey>, key: &Pubkey) -> (r: bool)
    ensures
        r == (key_bytes(derived) == Some(key@)),
{
    match derived {
        Some(address) => {
            proof {
                lemma_pubkey_ext(address, *key);
            }
            address == *key
        },
        None => false,
    }
}

/// Decides on a split at time `now`, where the derivation proof of the
/// vault authority yields `derived`: the controller's refusal, or the two
/// transfers to make. Only the admin may split, to the receivers that the
/// master record names, once the window has opened and the vault holds
/// the threshold. Nothing is moved and nothing is marked.
pub fn plan_split_event_token_with(
    ctx: &SplitEventTokenCtx,
    now: i64,
    derived: Option<Pubkey>,
) -> (r: Result<SplitTransfers, CustomError>)
    ensures
        r == ctx.split_plan(now, key_bytes(derived)),
{
    let authority = ctx.vault_event_token_owner.address;
    require_keys_eq(&ctx.master.admin, &ctx.signer)?;
    require_keys_eq(&ctx.master.foundation_address, &ctx.foundation_address)?;
    require_keys_eq(
        &ctx.master.sale_contract_vault_owner_pda,
        &ctx.sale_contract_vault_owner_pda,
    )?;
    require_keys_eq(&ctx.foundation_event_token.owner, &ctx.foundation_address)?;
    require_keys_eq(
        &ctx.sale_contract_vault_event_token.owner,
        &ctx.sale_contract_vault_owner_pda,
    )?;
    if !is_key(derived, &authority) {
        return Err(CustomError::Unauthorized);
    }
    require_keys_eq(&ctx.vault_event_token.owner, &authority)?;
    if now < 0 || (now as u64) < ctx.master.start_time {
        return Err(CustomError::StartTimeNotReached);
    }
    let decimals = ctx.mint_of_event_token.decimals;
    match scale_amount(SPLIT_THRESHOLD_BASE, decimals) {
        Some(threshold) => {
            if ctx.vault_event_token.amount < threshold {
                return Err(CustomError::AmountOfEventTokenIsNotEnough);
            }
        },
        None => {
            return Err(CustomError::AmountOfEventTokenIsNotEnough);
        },
    }
    if ctx.one_shot && ctx.split_executed {
        return Err(CustomError::SplitAlreadyExecuted);
    }
    let to_foundation: u64 = FOUNDATION_SHARE * (decimals as u64);
    let to_sale_contract: u64 = SALE_CONTRACT_SHARE * (decimals as u64);
    Ok(
        SplitTransfers {
            foundation: Transfer {
                from: ctx.vault_event_token.address,
                to: ctx.foundation_event_token.address,
                authority,
                amount: to_foundation,
                signer_bump: Some(ctx.vault_event_token_owner.bump),
            },
            sale_contract: Transfer {
                from: ctx.vault_event_token.address,
                to: ctx.sale_contract_vault_event_token.address,
                authority,
                amount: to_sale_contract,
                signer_bump: Some(ctx.vault_event_token_owner.bump),
            },
        },
    )
}

/// Decides on a split at time `now`, with the derivation proof of the
/// vault authority recomputed from its label and bump: the controller's
/// refusal, or the two transfers to make.
pub fn plan_split_event_token(ctx: &SplitEventTokenCtx, now: i64) -> (r: Result<
    SplitTransfers,
    CustomError,
>)
    ensures
        r == ctx.split_plan(
            now,
            program_address(
                vault_authority_seeds(ctx.vault_event_token_owner.bump),
                ctx.program_id@,
            ),
        ),
{
    let derived = create_vault_authority(&ctx.program_id, ctx.vault_event_token_owner.bump);
    plan_split_event_token_with(ctx, now, derived)
}

/// Splits at time `now`, where the derivation proof of the vault authority
/// yields `derived`: pays the foundation and the sale contract their fixed
/// payouts out of the vault. Only the admin may, to the receivers that the
/// master record names, once the window has opened and the vault holds
/// the threshold.
pub fn split_event_token_with(
    ctx: &mut SplitEventTokenCtx,
    now: i64,
    derived: Option<Pubkey>,
) -> (r: Result<SplitTransfers, CustomError>)
    ensures
        old(ctx).split_outcome(now, key_bytes(derived), r, *final(ctx)),
{
    let made = plan_split_event_token_with(ctx, now, derived)?;
    proof {
        lemma_threshold_covers_payouts(ctx.mint_of_event_token.decimals);
    }
    let authority = ctx.vault_event_token_owner.address;
    let mut vault = ctx.vault_event_token;
    let mut foundation = ctx.foundation_event_token;
    let mut sale_contract = ctx.sale_contract_vault_event_token;
    transfer(&mut vault, &mut foundation, &authority, made.foundation.amount)?;
    transfer(&mut vault, &mut sale_contract, &authority, made.sale_contract.amount)?;
    ctx.vault_event_token = vault;
    ctx.foundation_event_token = foundation;
    ctx.sale_contract_vault_event_token = sale_contract;
    ctx.split_executed = true;
    Ok(made)
}

/// Splits at time `now`: pays the foundation and the sale contract their
/// fixed payouts out of the vault. The derivation proof of the vault
/// authority is recomputed from its label and bump. Only the admin may, to
/// the receivers that the master record names, once the window has opened
/// and the vault holds the threshold.
pub fn split_event_token(ctx: &mut SplitEventTokenCtx, now: i64) -> (r: Result<
    SplitTransfers,
    CustomError,
>)
    ensures
        old(ctx).split_outcome(
            now,
            program_address(
                vault_authority_seeds(old(ctx).vault_event_token_owner.bump),
                old(ctx).program_id@,
            ),
            r,
            *final(ctx),
        ),
{
    let derived = create_vault_authority(&ctx.program_id, ctx.vault_event_token_owner.bump);
    split_event_token_with(ctx, now, derived)
}

} // verus!
