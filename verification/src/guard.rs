//! The authorization guard that every privileged operation starts with.

use vstd::prelude::*;
use crate::errors::CustomError;
use crate::pubkey::Pubkey;

verus! {

/// The authorization guard: succeeds exactly when the two identities are
/// the same 32 bytes, and fails with `Unauthorized` otherwise.
pub fn require_keys_eq(actual: &Pubkey, expected: &Pubkey) -> (r: Result<(), CustomError>)
    ensures
        *actual == *expected ==> r == Ok::<(), CustomError>(()),
        *actual != *expected ==> r == Err::<(), CustomError>(CustomError::Unauthorized),
{
    if *actual == *expected {
        Ok(())
    } else {
        Err(CustomError::Unauthorized)
    }
}

} // verus!
