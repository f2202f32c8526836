//! The vault: its creation, deposits into it and withdrawals by the owner.

use vstd::prelude::*;
use crate::amount::{lemma_scaled_bounds, scale_amount, scaled};
use crate::errors::CustomError;
use crate::guard::require_keys_eq;
use crate::pda::{
    create_vault_authority, find_vault_address, find_vault_authority, found_bytes,
    found_program_address, key_bytes, program_address, vault_authority_label,
    vault_authority_seeds, vault_label,
};
use crate::pubkey::{lemma_pubkey_ext, Pubkey};
use crate::states::Master;
use crate::token::{credited, transfer, transfer_error, Mint, TokenAccount, Transfer, VaultAuthority};

verus! {

/// What creating the vault works on: the program, the master record, the
/// asset, the places of the vault authority and of the vault, both empty
/// until they are created, and the caller.
#[derive(Clone, Copy, Debug, PartialEq, Eq)]
pub struct InitVaultEventTokenCtx {
    pub program_id: Pubkey,
    pub master: Master,
    pub mint_of_event_token: Mint,
    pub vault_event_token_owner: Option<VaultAuthority>,
    pub vault_event_token: Option<TokenAccount>,
    pub signer: Pubkey,
}

/// What a deposit or a withdrawal works on: the program, the master
/// record, the asset, the vault with its authority, the caller's own
/// account of the asset, and the caller.
#[derive(Clone, Copy, Debug, PartialEq, Eq)]
pub struct TransferTokenCtx {
    pub program_id: Pubkey,
    pub master: Master,
    pub mint_of_event_token: Mint,
    pub vault_event_token_owner: VaultAuthority,
    pub vault_event_token: TokenAccount,
    pub sender_event_token_account: TokenAccount,
    pub signer: Pubkey,
}

impl InitVaultEventTokenCtx {
    /// Why the vault is not created, if it is not, given what the searches
    /// for the authority's and the vault's address found.
    pub open spec fn init_vault_error(
        self,
        authority: Option<(Seq<u8>, u8)>,
        vault: Option<(Seq<u8>, u8)>,
    ) -> Option<CustomError> {
        if self.signer != self.master.owner {
            Some(CustomError::Unauthorized)
        } else if self.vault_event_token_owner.is_some() || self.vault_event_token.is_some() {
            Some(CustomError::AccountAlreadyInitialized)
        } else if authority.is_none() || vault.is_none() {
            Some(CustomError::InvalidSeeds)
        } else {
            None
        }
    }

    /// The outcome of creating the vault, given what the searches found:
    /// refused without any change, or an empty vault at the address found
    /// for it, owned by the authority found, whose bump is kept.
    pub open spec fn init_vault_outcome(
        self,
        authority: Option<(Seq<u8>, u8)>,
        vault: Option<(Seq<u8>, u8)>,
        r: Result<(), CustomError>,
        post: Self,
    ) -> bool {
        match self.init_vault_error(authority, vault) {
            Some(e) => r == Err::<(), CustomError>(e) && post == self,
            None => {
                &&& r == Ok::<(), CustomError>(())
                &&& post.program_id == self.program_id
                &&& post.master == self.master
                &&& post.mint_of_event_token == self.mint_of_event_token
                &&& post.signer == self.signer
                &&& post.vault_event_token_owner matches Some(owner)
                &&& authority == Some((owner.address@, owner.bump))
                &&& post.vault_event_token matches Some(account)
                &&& vault matches Some((address, _))
                &&& account.address@ == address
                &&& account.owner == owner.address
                &&& account.amount == 0
            },
        }
    }
}

/// Creates the vault of the asset from what the searches for the vault
/// authority and for the vault's address found. Only the owner may, and
/// only once.
pub fn init_vault_event_token_with(
    ctx: &mut InitVaultEventTokenCtx,
    authority: Option<(Pubkey, u8)>,
    vault: Option<(Pubkey, u8)>,
) -> (r: Result<(), CustomError>)
    ensures
        old(ctx).init_vault_outcome(found_bytes(authority), found_bytes(vault), r, *final(ctx)),
        r.is_ok() ==> final(ctx).vault_event_token_owner == Some(
            VaultAuthority { address: authority.unwrap().0, bump: authority.unwrap().1 },
        ),
        r.is_ok() ==> final(ctx).vault_event_token == Some(
            TokenAccount { address: vault.unwrap().0, owner: authority.unwrap().0, amount: 0 },
        ),
{
    require_keys_eq(&ctx.master.owner, &ctx.signer)?;
    if ctx.vault_event_token_owner.is_some() || ctx.vault_event_token.is_some() {
        return Err(CustomError::AccountAlreadyInitialized);
    }
    match (authority, vault) {
        (Some((owner, bump)), Some((address, _))) => {
            ctx.vault_event_token_owner = Some(VaultAuthority { address: owner, bump });
            ctx.vault_event_token = Some(TokenAccount { address, owner, amount: 0 });
            Ok(())
        },
        _ => Err(CustomError::InvalidSeeds),
    }
}

/// Creates the vault of the asset: searches for the vault authority under
/// its label and for the vault's address under the vault label and the
/// asset's identity, and creates the empty vault there. Only the owner
/// may, and only once. The authority that is kept is one that its label
/// and bump derive.
pub fn init_vault_event_token(ctx: &mut InitVaultEventTokenCtx) -> (r: Result<(), CustomError>)
    ensures
        old(ctx).init_vault_outcome(
            found_program_address(vault_authority_label(), old(ctx).program_id@),
            found_program_address(
                vault_label(old(ctx).mint_of_event_token.address),
                old(ctx).program_id@,
            ),
            r,
            *final(ctx),
        ),
        r.is_ok() ==> program_address(
            vault_authority_seeds(final(ctx).vault_event_token_owner.unwrap().bump),
            old(ctx).program_id@,
        ) == Some(final(ctx).vault_event_token_owner.unwrap().address@),
{
    let authority = find_vault_authority(&ctx.program_id);
    let vault = find_vault_address(&ctx.program_id, &ctx.mint_of_event_token.address);
    init_vault_event_token_with(ctx, authority, vault)
}

/// One more deposit, as a step over a sequence of amounts.
pub open spec fn deposit_fold() -> spec_fn(Option<TransferTokenCtx>, u64) -> Option<
    TransferTokenCtx,
> {
    |state: Option<TransferTokenCtx>, amount: u64| TransferTokenCtx::deposit_step(state, amount)
}

/// The sum of the amounts.
pub open spec fn sum_of(amounts: Seq<u64>) -> int {
    amounts.fold_left(0int, |sum: int, amount: u64| sum + amount)
}

impl TransferTokenCtx {
    /// Base units in `amount` whole tokens of the asset.
    pub open spec fn units(self, amount: u64) -> int {
        scaled(amount as int, self.mint_of_event_token.decimals as nat)
    }

    /// Why the controller refuses a deposit of `amount` whole tokens, if it
    /// does: the caller does not own the account, or the amount in base
    /// units does not fit in 64 bits.
    pub open spec fn deposit_refusal(self, amount: u64) -> Option<CustomError> {
        if self.signer != self.sender_event_token_account.owner {
            Some(CustomError::Unauthorized)
        } else if self.units(amount) > u64::MAX {
            Some(CustomError::AmountOverflow)
        } else {
            None
        }
    }

    /// Why a deposit of `amount` whole tokens is refused, if it is: by the
    /// controller, or else by the transfer primitive.
    pub open spec fn deposit_error(self, amount: u64) -> Option<CustomError> {
        match self.deposit_refusal(amount) {
            Some(e) => Some(e),
            None => transfer_error(
                self.sender_event_token_account,
                self.vault_event_token,
                self.signer,
                self.units(amount) as u64,
            ),
        }
    }

    /// The transfer that a deposit of `amount` whole tokens makes.
    pub open spec fn deposit_transfer(self, amount: u64) -> Transfer {
        Transfer {
            from: self.sender_event_token_account.address,
            to: self.vault_event_token.address,
            authority: self.signer,
            amount: self.units(amount) as u64,
            signer_bump: None,
        }
    }

    /// What the controller decides on a deposit of `amount` whole tokens:
    /// its refusal, or the transfer to hand to the transfer primitive.
    pub open spec fn deposit_plan(self, amount: u64) -> Result<Transfer, CustomError> {
        match self.deposit_refusal(amount) {
            Some(e) => Err(e),
            None => Ok(self.deposit_transfer(amount)),
        }
    }

    /// The accounts after `units` base units moved from the caller's
    /// account into the vault (out of it, for negative `units`).
    pub open spec fn vault_credited(self, units: int) -> Self {
        TransferTokenCtx {
            vault_event_token: credited(self.vault_event_token, units),
            sender_event_token_account: credited(self.sender_event_token_account, -units),
            ..self
        }
    }

    /// The outcome of a deposit of `amount` whole tokens.
    pub open spec fn deposit_outcome(
        self,
        amount: u64,
        r: Result<Transfer, CustomError>,
        post: Self,
    ) -> bool {
        match self.deposit_error(amount) {
            Some(e) => r == Err::<Transfer, CustomError>(e) && post == self,
            None => r == Ok::<Transfer, CustomError>(self.deposit_transfer(amount)) && post
                == self.vault_credited(self.units(amount)),
        }
    }

    /// The accounts after one more deposit, of `amount` whole tokens, where
    /// the deposits before it left `state`; `None` once a deposit is
    /// refused.
    pub open spec fn deposit_step(state: Option<Self>, amount: u64) -> Option<Self> {
        match state {
            Some(ctx) => if ctx.deposit_error(amount).is_none() {
                Some(ctx.vault_credited(ctx.units(amount)))
            } else {
                None
            },
            None => None,
        }
    }

    /// The accounts after a deposit of each of `amounts` in turn; `None`
    /// where one of them is refused.
    pub open spec fn after_deposits(self, amounts: Seq<u64>) -> Option<Self> {
        amounts.fold_left(Some(self), deposit_fold())
    }

    /// Whether the caller may take units out of the vault: the caller is
    /// the owner of the master record and of the receiving account, the
    /// derivation proof yields the vault authority (`derived` is what it
    /// yields), and that authority owns the vault.
    pub open spec fn withdraw_authorized(self, derived: Option<Seq<u8>>) -> bool {
        &&& self.signer == self.master.owner
        &&& self.sender_event_token_account.owner == self.signer
        &&& derived == Some(self.vault_event_token_owner.address@)
        &&& self.vault_event_token.owner == self.vault_event_token_owner.address
    }

    /// Base units that a withdrawal takes: the whole balance of the vault,
    /// or `amount` whole tokens.
    pub open spec fn withdraw_units(self, amount: u64, total: bool) -> int {
        if total {
            self.vault_event_token.amount as int
        } else {
            self.units(amount)
        }
    }

    /// Why the controller refuses a withdrawal, if it does: the identities
    /// are not in order, or the amount in base units does not fit in 64
    /// bits.
    pub open spec fn withdraw_refusal(
        self,
        amount: u64,
        total: bool,
        derived: Option<Seq<u8>>,
    ) -> Option<CustomError> {
        if !self.withdraw_authorized(derived) {
            Some(CustomError::Unauthorized)
        } else if self.withdraw_units(amount, total) > u64::MAX {
            Some(CustomError::AmountOverflow)
        } else {
            None
        }
    }

    /// Why a withdrawal is refused, if it is: by the controller, or else
    /// by the transfer primitive.
    pub open spec fn withdraw_error(
        self,
        amount: u64,
        total: bool,
        derived: Option<Seq<u8>>,
    ) -> Option<CustomError> {
        match self.withdraw_refusal(amount, total, derived) {
            Some(e) => Some(e),
            None => transfer_error(
                self.vault_event_token,
                self.sender_event_token_account,
                self.vault_event_token_owner.address,
                self.withdraw_units(amount, total) as u64,
            ),
        }
    }

    /// The transfer that a withdrawal makes.
    pub open spec fn withdraw_transfer(self, amount: u64, total: bool) -> Transfer {
        Transfer {
            from: self.vault_event_token.address,
            to: self.sender_event_token_account.address,
            authority: self.vault_event_token_owner.address,
            amount: self.withdraw_units(amount, total) as u64,
            signer_bump: Some(self.vault_event_token_owner.bump),
        }
    }

    /// What the controller decides on a withdrawal, where the derivation
    /// proof yields `derived`: its refusal, or the transfer to hand to the
    /// transfer primitive.
    pub open spec fn withdraw_plan(
        self,
        amount: u64,
        total: bool,
        derived: Option<Seq<u8>>,
    ) -> Result<Transfer, CustomError> {
        match self.withdraw_refusal(amount, total, derived) {
            Some(e) => Err(e),
            None => Ok(self.withdraw_transfer(amount, total)),
        }
    }

    /// The outcome of a withdrawal, where the derivation proof yields
    /// `derived`.
    pub open spec fn withdraw_outcome(
        self,
        amount: u64,
        total: bool,
        derived: Option<Seq<u8>>,
        r: Result<Transfer, CustomError>,
        post: Self,
    ) -> bool {
        match self.withdraw_error(amount, total, derived) {
            Some(e) => r == Err::<Transfer, CustomError>(e) && post == self,
            None => r == Ok::<Transfer, CustomError>(self.withdraw_transfer(amount, total)) && post
                == self.vault_credited(-self.withdraw_units(amount, total)),
        }
    }
}

/// Decides on a deposit of `amount` whole tokens from the caller's
/// account into the vault: the controller's refusal, or the transfer to
/// make in the caller's own name. Anyone who owns the account may deposit.
/// Nothing is moved.
pub fn plan_deposit_event_token(ctx: &TransferTokenCtx, amount: u64) -> (r: Result<
    Transfer,
    CustomError,
>)
    ensures
        r == ctx.deposit_plan(amount),
{
    require_keys_eq(&ctx.signer, &ctx.sender_event_token_account.owner)?;
    match scale_amount(amount, ctx.mint_of_event_token.decimals) {
        Some(units) => Ok(
            Transfer {
                from: ctx.sender_event_token_account.address,
                to: ctx.vault_event_token.address,
                authority: ctx.signer,
                amount: units,
                signer_bump: None,
            },
        ),
        None => Err(CustomError::AmountOverflow),
    }
}

/// Deposits `amount` whole tokens from the caller's account into the
/// vault, in the caller's own name. Anyone who owns the account may.
pub fn deposit_event_token(ctx: &mut TransferTokenCtx, amount: u64) -> (r: Result<
    Transfer,
    CustomError,
>)
    ensures
        old(ctx).deposit_outcome(amount, r, *final(ctx)),
{
    let made = plan_deposit_event_token(ctx, amount)?;
    proof {
        lemma_scaled_bounds(amount as int, ctx.mint_of_event_token.decimals as nat);
    }
    let signer = ctx.signer;
    transfer(
        &mut ctx.sender_event_token_account,
        &mut ctx.vault_event_token,
        &signer,
        made.amount,
    )?;
    Ok(made)
}

/// Decides on a withdrawal from the vault into the caller's account,
/// where the derivation proof of the vault authority yields `derived`:
/// the controller's refusal, or the transfer to make in the name of the
/// vault authority, of `amount` whole tokens or, where `total` is set, of
/// all that the vault holds. Only the owner may withdraw. Nothing is
/// moved.
pub fn plan_withdraw_event_token_with(
    ctx: &TransferTokenCtx,
    amount: u64,
    total: bool,
    derived: Option<Pubkey>,
) -> (r: Result<Transfer, CustomError>)
    ensures
        r == ctx.withdraw_plan(amount, total, key_bytes(derived)),
{
    require_keys_eq(&ctx.master.owner, &ctx.signer)?;
    require_keys_eq(&ctx.sender_event_token_account.owner, &ctx.signer)?;
    let authority = ctx.vault_event_token_owner.address;
    match derived {
        Some(address) => {
            proof {
                lemma_pubkey_ext(address, authority);
            }
            require_keys_eq(&address, &authority)?;
        },
        None => {
            return Err(CustomError::Unauthorized);
        },
    }
    require_keys_eq(&ctx.vault_event_token.owner, &authority)?;
    let units = if total {
        ctx.vault_event_token.amount
    } else {
        match scale_amount(amount, ctx.mint_of_event_token.decimals) {
            Some(units) => units,
            None => {
                return Err(CustomError::AmountOverflow);
            },
        }
    };
    Ok(
        Transfer {
            from: ctx.vault_event_token.address,
            to: ctx.sender_event_token_account.address,
            authority,
            amount: units,
            signer_bump: Some(ctx.vault_event_token_owner.bump),
        },
    )
}

/// Decides on a withdrawal, with the derivation proof of the vault
/// authority recomputed from its label and bump: the controller's
/// refusal, or the transfer to make.
pub fn plan_withdraw_event_token(ctx: &TransferTokenCtx, amount: u64, total: bool) -> (r: Result<
    Transfer,
    CustomError,
>)
    ensures
        r == ctx.withdraw_plan(
            amount,
            total,
            program_address(
                vault_authority_seeds(ctx.vault_event_token_owner.bump),
                ctx.program_id@,
            ),
        ),
{
    let derived = create_vault_authority(&ctx.program_id, ctx.vault_event_token_owner.bump);
    plan_withdraw_event_token_with(ctx, amount, total, derived)
}

/// Withdraws from the vault into the caller's account, where the
/// derivation proof of the vault authority yields `derived`: `amount`
/// whole tokens, or, where `total` is set, all that the vault holds. Only
/// the owner may.
pub fn withdraw_event_token_with(
    ctx: &mut TransferTokenCtx,
    amount: u64,
    total: bool,
    derived: Option<Pubkey>,
) -> (r: Result<Transfer, CustomError>)
    ensures
        old(ctx).withdraw_outcome(amount, total, key_bytes(derived), r, *final(ctx)),
{
    let made = plan_withdraw_event_token_with(ctx, amount, total, derived)?;
    proof {
        lemma_scaled_bounds(amount as int, ctx.mint_of_event_token.decimals as nat);
    }
    let authority = ctx.vault_event_token_owner.address;
    transfer(
        &mut ctx.vault_event_token,
        &mut ctx.sender_event_token_account,
        &authority,
        made.amount,
    )?;
    Ok(made)
}

/// Withdraws from the vault into the caller's account: `amount` whole
/// tokens, or, where `total` is set, all that the vault holds. The
/// derivation proof of the vault authority is recomputed from its label
/// and bump. Only the owner may.
pub fn withdraw_event_token(ctx: &mut TransferTokenCtx, amount: u64, total: bool) -> (r: Result<
    Transfer,
    CustomError,
>)
    ensures
        old(ctx).withdraw_outcome(
            amount,
            total,
            program_address(
                vault_authority_seeds(old(ctx).vault_event_token_owner.bump),
                old(ctx).program_id@,
            ),
            r,
            *final(ctx),
        ),
{
    let derived = create_vault_authority(&ctx.program_id, ctx.vault_event_token_owner.bump);
    withdraw_event_token_with(ctx, amount, total, derived)
}

} // verus!
