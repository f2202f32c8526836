//! The conditions under which an operation is refused.

use vstd::prelude::*;

verus! {

/// Every way an operation of the controller can be refused.
///
/// The first three are the controller's own conditions. The rest are
/// failures of what it stands on: the record store, the amount
/// arithmetic, the transfer of units and the derivation of addresses.
#[derive(Clone, Copy, Debug, PartialEq, Eq, Structural)]
pub enum CustomError {
    /// The split was asked for before the window opened.
    StartTimeNotReached,
    /// The vault holds less than the split requires.
    AmountOfEventTokenIsNotEnough,
    /// An identity does not match the one the operation requires.
    Unauthorized,
    /// A record that exists once was created a second time.
    AccountAlreadyInitialized,
    /// An amount does not fit in 64 bits.
    AmountOverflow,
    /// The source account holds less than the transfer moves.
    InsufficientFunds,
    /// No address can be derived from the seeds.
    InvalidSeeds,
    /// The split already ran and is configured to run once.
    SplitAlreadyExecuted,
}

impl CustomError {
    /// The text that describes the condition.
    pub open spec fn message_text(self) -> Seq<char> {
        match self {
            CustomError::StartTimeNotReached => "The start time is not reached yet"@,
            CustomError::AmountOfEventTokenIsNotEnough => "The amount of event token is not enough"@,
            CustomError::Unauthorized => "The signer is not authorized"@,
            CustomError::AccountAlreadyInitialized => "The account is already initialized"@,
            CustomError::AmountOverflow => "The amount does not fit in 64 bits"@,
            CustomError::InsufficientFunds => "The source account holds too little"@,
            CustomError::InvalidSeeds => "The seeds derive no address"@,
            CustomError::SplitAlreadyExecuted => "The split has already been executed"@,
        }
    }

    /// The text that describes the condition, as a string.
    pub fn message(&self) -> (r: String)
        ensures
            r@ == self.message_text(),
    {
        match self {
            CustomError::StartTimeNotReached => "The start time is not reached yet".to_owned(),
            CustomError::AmountOfEventTokenIsNotEnough => {
                "The amount of event token is not enough".to_owned()
            },
            CustomError::Unauthorized => "The signer is not authorized".to_owned(),
            CustomError::AccountAlreadyInitialized => {
                "The account is already initialized".to_owned()
            },
            CustomError::AmountOverflow => "The amount does not fit in 64 bits".to_owned(),
            CustomError::InsufficientFunds => "The source account holds too little".to_owned(),
            CustomError::InvalidSeeds => "The seeds derive no address".to_owned(),
            CustomError::SplitAlreadyExecuted => "The split has already been executed".to_owned(),
        }
    }
}

} // verus!
