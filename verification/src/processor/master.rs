//! The master record: its creation and the updates that only its owner
//! may make.

use vstd::prelude::*;
use crate::errors::CustomError;
use crate::guard::require_keys_eq;
use crate::pubkey::Pubkey;
use crate::states::Master;

verus! {

/// What creating the master record works on: the place of the record,
/// empty until it is created, and the caller.
#[derive(Clone, Copy, Debug, PartialEq, Eq)]
pub struct InitMasterCtx {
    pub master: Option<Master>,
    pub signer: Pubkey,
}

/// What an update of the master record works on: the record and the caller.
#[derive(Clone, Copy, Debug, PartialEq, Eq)]
pub struct UpdateMasterCtx {
    pub master: Master,
    pub signer: Pubkey,
}

/// The outcome of an update that only the owner may make and that turns
/// the record into `updated`: made for the owner, refused with
/// `Unauthorized` and without any change for everyone else.
pub open spec fn owner_only_update(
    pre: UpdateMasterCtx,
    updated: Master,
    r: Result<(), CustomError>,
    post: UpdateMasterCtx,
) -> bool {
    if pre.signer == pre.master.owner {
        r == Ok::<(), CustomError>(()) && post == (UpdateMasterCtx { master: updated, ..pre })
    } else {
        r == Err::<(), CustomError>(CustomError::Unauthorized) && post == pre
    }
}

/// Creates the master record. The caller becomes its owner and the other
/// fields are the arguments as given. A record that exists is not created
/// again.
pub fn init_master(
    ctx: &mut InitMasterCtx,
    admin: Pubkey,
    start_time: u64,
    end_time: u64,
    foundation_address: Pubkey,
    sale_contract_vault_owner_pda: Pubkey,
) -> (r: Result<(), CustomError>)
    ensures
        old(ctx).master.is_some() ==> r == Err::<(), CustomError>(
            CustomError::AccountAlreadyInitialized,
        ) && *final(ctx) == *old(ctx),
        old(ctx).master.is_none() ==> r == Ok::<(), CustomError>(()) && *final(ctx) == (
        InitMasterCtx {
            master: Some(
                Master {
                    owner: old(ctx).signer,
                    admin,
                    start_time,
                    end_time,
                    foundation_address,
                    sale_contract_vault_owner_pda,
                },
            ),
            signer: old(ctx).signer,
        }),
{
    if ctx.master.is_some() {
        return Err(CustomError::AccountAlreadyInitialized);
    }
    ctx.master = Some(
        Master {
            owner: ctx.signer,
            admin,
            start_time,
            end_time,
            foundation_address,
            sale_contract_vault_owner_pda,
        },
    );
    Ok(())
}

/// Hands the record to a new owner. Only the owner may.
pub fn update_owner(ctx: &mut UpdateMasterCtx, new_owner: Pubkey) -> (r: Result<(), CustomError>)
    ensures
        owner_only_update(
            *old(ctx),
            (Master { owner: new_owner, ..old(ctx).master }),
            r,
            *final(ctx),
        ),
{
    require_keys_eq(&ctx.master.owner, &ctx.signer)?;
    ctx.master.owner = new_owner;
    Ok(())
}

/// Names a new admin. Only the owner may.
pub fn update_admin(ctx: &mut UpdateMasterCtx, new_admin: Pubkey) -> (r: Result<(), CustomError>)
    ensures
        owner_only_update(
            *old(ctx),
            (Master { admin: new_admin, ..old(ctx).master }),
            r,
            *final(ctx),
        ),
{
    require_keys_eq(&ctx.master.owner, &ctx.signer)?;
    ctx.master.admin = new_admin;
    Ok(())
}

/// Names a new foundation. Only the owner may.
pub fn update_foundation_wallet(
    ctx: &mut UpdateMasterCtx,
    new_foundation_wallet: Pubkey,
) -> (r: Result<(), CustomError>)
    ensures
        owner_only_update(
            *old(ctx),
            (Master { foundation_address: new_foundation_wallet, ..old(ctx).master }),
            r,
            *final(ctx),
        ),
{
    require_keys_eq(&ctx.master.owner, &ctx.signer)?;
    ctx.master.foundation_address = new_foundation_wallet;
    Ok(())
}

/// Names a new owner of the sale contract's vault. Only the owner of the
/// record may.
pub fn update_sale_contract_vault_owner_pda(
    ctx: &mut UpdateMasterCtx,
    new_sale_contract_vault_owner_pda: Pubkey,
) -> (r: Result<(), CustomError>)
    ensures
        owner_only_update(
            *old(ctx),
            (Master {
                sale_contract_vault_owner_pda: new_sale_contract_vault_owner_pda,
                ..old(ctx).master
            }),
            r,
            *final(ctx),
        ),
{
    require_keys_eq(&ctx.master.owner, &ctx.signer)?;
    ctx.master.sale_contract_vault_owner_pda = new_sale_contract_vault_owner_pda;
    Ok(())
}

/// Moves the start of the window. Only the owner may.
pub fn update_start_time(ctx: &mut UpdateMasterCtx, new_start_time: u64) -> (r: Result<
    (),
    CustomError,
>)
    ensures
        owner_only_update(
            *old(ctx),
            (Master { start_time: new_start_time, ..old(ctx).master }),
            r,
            *final(ctx),
        ),
{
    require_keys_eq(&ctx.master.owner, &ctx.signer)?;
    ctx.master.start_time = new_start_time;
    Ok(())
}

/// Moves the end of the window. Only the owner may.
pub fn update_end_time(ctx: &mut UpdateMasterCtx, new_end_time: u64) -> (r: Result<
    (),
    CustomError,
>)
    ensures
        owner_only_update(
            *old(ctx),
            (Master { end_time: new_end_time, ..old(ctx).master }),
            r,
            *final(ctx),
        ),
{
    require_keys_eq(&ctx.master.owner, &ctx.signer)?;
    ctx.master.end_time = new_end_time;
    Ok(())
}

} // verus!
