//! The controller's books of the asset: accounts, the transfers it hands
//! to the transfer primitive, and what a transfer does to two accounts.
//!
//! The units themselves are moved by the transfer primitive, outside this
//! library. What is kept here is what the controller has to know of that
//! to decide: who owns an account, what it holds, and that a transfer
//! needs the owner's name, the units and room for them.

use vstd::prelude::*;
use crate::errors::CustomError;
use crate::pda::{vault_authority_seeds, vault_authority_signer_seeds};
use crate::pubkey::Pubkey;

verus! {

/// The asset: its identity and the number of decimal places of a whole
/// token.
#[derive(Clone, Copy, Debug, PartialEq, Eq)]
pub struct Mint {
    pub address: Pubkey,
    pub decimals: u8,
}

/// An account of the asset: where it lives, who may move units out of it,
/// and how many base units it holds.
#[derive(Clone, Copy, Debug, PartialEq, Eq)]
pub struct TokenAccount {
    pub address: Pubkey,
    pub owner: Pubkey,
    pub amount: u64,
}

/// The vault authority: a derived identity without a private key, and the
/// bump that, with the authority's label, derives it.
#[derive(Clone, Copy, Debug, PartialEq, Eq)]
pub struct VaultAuthority {
    pub address: Pubkey,
    pub bump: u8,
}

/// One movement of units, as the controller hands it to the transfer
/// primitive.
#[derive(Clone, Copy, Debug, PartialEq, Eq)]
pub struct Transfer {
    /// Address of the account that is debited.
    pub from: Pubkey,
    /// Address of the account that is credited.
    pub to: Pubkey,
    /// The identity in whose name the units move: the owner of `from`.
    pub authority: Pubkey,
    /// Base units moved.
    pub amount: u64,
    /// `None` where the authority signs for itself; the bump of the vault
    /// authority where the controller signs as that derived identity.
    pub signer_bump: Option<u8>,
}

impl Transfer {
    /// The seeds that sign the transfer: none where the authority signs
    /// for itself, those of the vault authority where the controller signs
    /// as that derived identity.
    pub open spec fn signer_seeds_of(self) -> Seq<Seq<u8>> {
        match self.signer_bump {
            Some(bump) => vault_authority_seeds(bump),
            None => Seq::empty(),
        }
    }

    /// The seeds that sign the transfer, as owned bytes.
    pub fn signer_seeds(&self) -> (r: Vec<Vec<u8>>)
        ensures
            r.deep_view() == self.signer_seeds_of(),
    {
        match self.signer_bump {
            Some(bump) => vault_authority_signer_seeds(bump),
            None => {
                let none: Vec<Vec<u8>> = Vec::new();
                assert(none.deep_view() =~~= Seq::<Seq<u8>>::empty());
                none
            },
        }
    }
}

/// Why the transfer primitive refuses to move `amount` units from `from`
/// to `to` in the name of `authority`, if it does.
pub open spec fn transfer_error(
    from: TokenAccount,
    to: TokenAccount,
    authority: Pubkey,
    amount: u64,
) -> Option<CustomError> {
    if authority != from.owner {
        Some(CustomError::Unauthorized)
    } else if from.amount < amount {
        Some(CustomError::InsufficientFunds)
    } else if to.amount + amount > u64::MAX {
        Some(CustomError::AmountOverflow)
    } else {
        None
    }
}

/// `account` holding `amount` units more (or, for a negative `amount`,
/// fewer).
pub open spec fn credited(account: TokenAccount, amount: int) -> TokenAccount
    recommends
        0 <= account.amount + amount <= u64::MAX,
{
    TokenAccount { amount: (account.amount + amount) as u64, ..account }
}

/// Books one transfer: moves `amount` units from `from` to `to` where
/// `authority` owns `from`, `from` holds that much and `to` has room for
/// it, and changes nothing otherwise.
pub fn transfer(
    from: &mut TokenAccount,
    to: &mut TokenAccount,
    authority: &Pubkey,
    amount: u64,
) -> (r: Result<(), CustomError>)
    ensures
        match transfer_error(*old(from), *old(to), *authority, amount) {
            Some(e) => r == Err::<(), CustomError>(e) && *final(from) == *old(from) && *final(to)
                == *old(to),
            None => r == Ok::<(), CustomError>(()) && *final(from) == credited(
                *old(from),
                -(amount as int),
            ) && *final(to) == credited(*old(to), amount as int),
        },
{
    if *authority != from.owner {
        return Err(CustomError::Unauthorized);
    }
    if from.amount < amount {
        return Err(CustomError::InsufficientFunds);
    }
    match to.amount.checked_add(amount) {
        None => Err(CustomError::AmountOverflow),
        Some(sum) => {
            from.amount = from.amount - amount;
            to.amount = sum;
            Ok(())
        },
    }
}

} // verus!
