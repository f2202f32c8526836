use event_protocol_token::{
    init_master, update_admin, update_end_time, update_foundation_wallet, update_owner,
    update_sale_contract_vault_owner_pda, update_start_time, CustomError, InitMasterCtx, Master,
    Pubkey, UpdateMasterCtx,
};

fn key(n: u8) -> Pubkey {
    Pubkey([n; 32])
}

fn record() -> Master {
    Master {
        owner: key(1),
        admin: key(2),
        start_time: 1_700_000_000,
        end_time: 1_800_000_000,
        foundation_address: key(3),
        sale_contract_vault_owner_pda: key(4),
    }
}

fn by(signer: Pubkey) -> UpdateMasterCtx {
    UpdateMasterCtx { master: record(), signer }
}

#[test]
fn init_master_makes_the_caller_owner_and_keeps_the_arguments() {
    let mut ctx = InitMasterCtx { master: None, signer: key(1) };
    let r = init_master(&mut ctx, key(2), 1_700_000_000, 1_800_000_000, key(3), key(4));
    assert_eq!(r, Ok(()));
    assert_eq!(ctx.master, Some(record()));
    assert_eq!(ctx.signer, key(1));
}

#[test]
fn init_master_does_not_compare_the_two_times() {
    let mut ctx = InitMasterCtx { master: None, signer: key(1) };
    let r = init_master(&mut ctx, key(1), 50, 10, key(1), key(1));
    assert_eq!(r, Ok(()));
    let made = ctx.master.unwrap();
    assert_eq!(made.start_time, 50);
    assert_eq!(made.end_time, 10);
    assert_eq!(made.admin, made.owner);
}

#[test]
fn init_master_a_second_time_fails_and_keeps_the_record() {
    let mut ctx = InitMasterCtx { master: None, signer: key(1) };
    assert_eq!(init_master(&mut ctx, key(2), 1_700_000_000, 1_800_000_000, key(3), key(4)), Ok(()));
    ctx.signer = key(9);
    let r = init_master(&mut ctx, key(9), 0, 0, key(9), key(9));
    assert_eq!(r, Err(CustomError::AccountAlreadyInitialized));
    assert_eq!(ctx.master, Some(record()));
    let again = init_master(&mut ctx, key(2), 1_700_000_000, 1_800_000_000, key(3), key(4));
    assert_eq!(again, Err(CustomError::AccountAlreadyInitialized));
}

#[test]
fn update_owner_replaces_the_owner_only() {
    let mut ctx = by(key(1));
    assert_eq!(update_owner(&mut ctx, key(7)), Ok(()));
    assert_eq!(ctx.master, Master { owner: key(7), ..record() });
    assert_eq!(ctx.master.admin, key(2));
    assert_eq!(ctx.signer, key(1));
}

#[test]
fn update_owner_hands_the_record_over() {
    let mut ctx = by(key(1));
    assert_eq!(update_owner(&mut ctx, key(7)), Ok(()));
    assert_eq!(update_admin(&mut ctx, key(8)), Err(CustomError::Unauthorized));
    ctx.signer = key(7);
    assert_eq!(update_admin(&mut ctx, key(8)), Ok(()));
    assert_eq!(ctx.master.admin, key(8));
}

#[test]
fn update_admin_replaces_the_admin_only() {
    let mut ctx = by(key(1));
    assert_eq!(update_admin(&mut ctx, key(7)), Ok(()));
    assert_eq!(ctx.master, Master { admin: key(7), ..record() });
}

#[test]
fn update_foundation_wallet_replaces_the_foundation_only() {
    let mut ctx = by(key(1));
    assert_eq!(update_foundation_wallet(&mut ctx, key(7)), Ok(()));
    assert_eq!(ctx.master, Master { foundation_address: key(7), ..record() });
}

#[test]
fn update_sale_contract_vault_owner_pda_replaces_that_field_only() {
    let mut ctx = by(key(1));
    assert_eq!(update_sale_contract_vault_owner_pda(&mut ctx, key(7)), Ok(()));
    assert_eq!(ctx.master, Master { sale_contract_vault_owner_pda: key(7), ..record() });
}

#[test]
fn update_start_time_replaces_the_start_only() {
    let mut ctx = by(key(1));
    assert_eq!(update_start_time(&mut ctx, 1_900_000_000), Ok(()));
    assert_eq!(ctx.master, Master { start_time: 1_900_000_000, ..record() });
    assert!(ctx.master.start_time > ctx.master.end_time);
}

#[test]
fn update_end_time_replaces_the_end_only() {
    let mut ctx = by(key(1));
    assert_eq!(update_end_time(&mut ctx, 5), Ok(()));
    assert_eq!(ctx.master, Master { end_time: 5, ..record() });
}

#[test]
fn updates_by_a_stranger_are_unauthorized_and_change_nothing() {
    let stranger = key(9);
    let mut ctx = by(stranger);
    assert_eq!(update_owner(&mut ctx, stranger), Err(CustomError::Unauthorized));
    assert_eq!(update_admin(&mut ctx, stranger), Err(CustomError::Unauthorized));
    assert_eq!(update_foundation_wallet(&mut ctx, stranger), Err(CustomError::Unauthorized));
    assert_eq!(
        update_sale_contract_vault_owner_pda(&mut ctx, stranger),
        Err(CustomError::Unauthorized)
    );
    assert_eq!(update_start_time(&mut ctx, 0), Err(CustomError::Unauthorized));
    assert_eq!(update_end_time(&mut ctx, 0), Err(CustomError::Unauthorized));
    assert_eq!(ctx, by(stranger));
}

#[test]
fn updates_by_the_admin_are_unauthorized() {
    let mut ctx = by(key(2));
    assert_eq!(update_owner(&mut ctx, key(2)), Err(CustomError::Unauthorized));
    assert_eq!(update_start_time(&mut ctx, 0), Err(CustomError::Unauthorized));
    assert_eq!(ctx.master, record());
}

#[test]
fn an_owner_that_differs_in_one_byte_is_a_stranger() {
    let mut bytes = [1u8; 32];
    bytes[31] = 0;
    let mut ctx = by(Pubkey(bytes));
    assert_eq!(update_end_time(&mut ctx, 0), Err(CustomError::Unauthorized));
    assert_eq!(ctx.master, record());
}
