use event_protocol_token::amount::{checked_pow, scale_amount};
use event_protocol_token::guard::require_keys_eq;
use event_protocol_token::token::transfer;
use event_protocol_token::{CustomError, Pubkey, TokenAccount, Transfer};

fn key(n: u8) -> Pubkey {
    Pubkey([n; 32])
}

fn account(address: u8, owner: u8, amount: u64) -> TokenAccount {
    TokenAccount { address: key(address), owner: key(owner), amount }
}

#[test]
fn identities_are_equal_when_all_bytes_are() {
    assert_eq!(key(5), key(5));
    assert_ne!(key(5), key(6));
    let mut first = [5u8; 32];
    first[0] = 4;
    assert_ne!(Pubkey(first), key(5));
    let mut last = [5u8; 32];
    last[31] = 4;
    assert_ne!(Pubkey(last), key(5));
    assert!(key(5) == Pubkey::new_from_array([5u8; 32]));
}

#[test]
fn identity_bytes_come_back_in_order() {
    let mut bytes = [0u8; 32];
    for (i, b) in bytes.iter_mut().enumerate() {
        *b = i as u8;
    }
    let k = Pubkey::new_from_array(bytes);
    assert_eq!(k.to_bytes(), bytes);
    assert_eq!(k.to_vec(), bytes.to_vec());
    assert_eq!(k.to_vec().len(), 32);
}

#[test]
fn the_guard_passes_equal_identities_only() {
    assert_eq!(require_keys_eq(&key(1), &key(1)), Ok(()));
    assert_eq!(require_keys_eq(&key(1), &key(2)), Err(CustomError::Unauthorized));
    assert_eq!(require_keys_eq(&key(2), &key(1)), Err(CustomError::Unauthorized));
}

#[test]
fn powers_that_fit_are_exact() {
    assert_eq!(checked_pow(10, 0), Some(1));
    assert_eq!(checked_pow(10, 9), Some(1_000_000_000));
    assert_eq!(checked_pow(10, 19), Some(10_000_000_000_000_000_000));
    assert_eq!(checked_pow(1_000_000_000, 2), Some(1_000_000_000_000_000_000));
    assert_eq!(checked_pow(2, 63), Some(1u64 << 63));
    assert_eq!(checked_pow(0, 0), Some(1));
    assert_eq!(checked_pow(0, 7), Some(0));
    assert_eq!(checked_pow(1, u32::MAX / 1_000_000), Some(1));
    assert_eq!(checked_pow(u64::MAX, 1), Some(u64::MAX));
}

#[test]
fn powers_that_do_not_fit_are_none() {
    assert_eq!(checked_pow(10, 20), None);
    assert_eq!(checked_pow(1_000_000_000, 3), None);
    assert_eq!(checked_pow(2, 64), None);
    assert_eq!(checked_pow(u64::MAX, 2), None);
    assert_eq!(checked_pow(10, 255), None);
}

#[test]
fn amounts_scale_by_ten_to_the_decimals() {
    assert_eq!(scale_amount(5, 9), Some(5_000_000_000));
    assert_eq!(scale_amount(7, 0), Some(7));
    assert_eq!(scale_amount(0, 6), Some(0));
    assert_eq!(scale_amount(1, 19), Some(10_000_000_000_000_000_000));
    assert_eq!(scale_amount(18_446_744_073, 9), Some(18_446_744_073_000_000_000));
    assert_eq!(scale_amount(u64::MAX, 0), Some(u64::MAX));
}

#[test]
fn amounts_that_do_not_fit_are_none() {
    assert_eq!(scale_amount(2, 19), None);
    assert_eq!(scale_amount(1, 20), None);
    assert_eq!(scale_amount(18_446_744_074, 9), None);
    assert_eq!(scale_amount(u64::MAX, 1), None);
    assert_eq!(scale_amount(1, 255), None);
}

#[test]
fn nothing_scales_to_nothing_whatever_the_decimals() {
    assert_eq!(scale_amount(0, 20), Some(0));
    assert_eq!(scale_amount(0, 255), Some(0));
}

#[test]
fn transfer_moves_the_units() {
    let mut from = account(1, 10, 500);
    let mut to = account(2, 20, 7);
    assert_eq!(transfer(&mut from, &mut to, &key(10), 120), Ok(()));
    assert_eq!(from, account(1, 10, 380));
    assert_eq!(to, account(2, 20, 127));
    assert_eq!(transfer(&mut from, &mut to, &key(10), 380), Ok(()));
    assert_eq!(from.amount, 0);
    assert_eq!(to.amount, 507);
    assert_eq!(transfer(&mut from, &mut to, &key(10), 0), Ok(()));
    assert_eq!(from.amount + to.amount, 507);
}

#[test]
fn transfer_needs_the_owner_of_the_source() {
    let mut from = account(1, 10, 500);
    let mut to = account(2, 20, 7);
    assert_eq!(transfer(&mut from, &mut to, &key(20), 1), Err(CustomError::Unauthorized));
    assert_eq!(from, account(1, 10, 500));
    assert_eq!(to, account(2, 20, 7));
}

#[test]
fn transfer_needs_the_units() {
    let mut from = account(1, 10, 500);
    let mut to = account(2, 20, 7);
    assert_eq!(transfer(&mut from, &mut to, &key(10), 501), Err(CustomError::InsufficientFunds));
    assert_eq!(from.amount, 500);
    assert_eq!(to.amount, 7);
}

#[test]
fn transfer_needs_room() {
    let mut from = account(1, 10, 500);
    let mut to = account(2, 20, u64::MAX - 5);
    assert_eq!(transfer(&mut from, &mut to, &key(10), 6), Err(CustomError::AmountOverflow));
    assert_eq!(from.amount, 500);
    assert_eq!(to.amount, u64::MAX - 5);
    assert_eq!(transfer(&mut from, &mut to, &key(10), 5), Ok(()));
    assert_eq!(to.amount, u64::MAX);
}

#[test]
fn transfer_refuses_a_stranger_before_it_looks_at_the_amount() {
    let mut from = account(1, 10, 0);
    let mut to = account(2, 20, u64::MAX);
    assert_eq!(transfer(&mut from, &mut to, &key(11), 9), Err(CustomError::Unauthorized));
    assert_eq!(transfer(&mut from, &mut to, &key(10), 9), Err(CustomError::InsufficientFunds));
}

#[test]
fn a_transfer_carries_the_seeds_that_sign_it() {
    let by_owner =
        Transfer { from: key(1), to: key(2), authority: key(3), amount: 4, signer_bump: None };
    assert!(by_owner.signer_seeds().is_empty());
    let by_vault = Transfer { signer_bump: Some(251), ..by_owner };
    assert_eq!(by_vault.signer_seeds(), vec![b"vault_event_token_owner".to_vec(), vec![251u8]]);
}

#[test]
fn every_condition_has_its_text() {
    assert_eq!(CustomError::StartTimeNotReached.message(), "The start time is not reached yet");
    assert_eq!(
        CustomError::AmountOfEventTokenIsNotEnough.message(),
        "The amount of event token is not enough"
    );
    let all = [
        CustomError::StartTimeNotReached,
        CustomError::AmountOfEventTokenIsNotEnough,
        CustomError::Unauthorized,
        CustomError::AccountAlreadyInitialized,
        CustomError::AmountOverflow,
        CustomError::InsufficientFunds,
        CustomError::InvalidSeeds,
        CustomError::SplitAlreadyExecuted,
    ];
    for (i, a) in all.iter().enumerate() {
        assert!(!a.message().is_empty());
        for b in all.iter().skip(i + 1) {
            assert_ne!(a.message(), b.message());
        }
    }
}
