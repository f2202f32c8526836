//! What holds of the operations, whatever their inputs: who may call them,
//! what they move, and how calls in a row relate. Each law is stated over
//! the outcome that the contract of an operation promises, so it holds of
//! every call of that operation.

use vstd::prelude::*;
use vstd::arithmetic::power::pow;
use crate::amount::{lemma_scaled_bounds, scaled};
use crate::errors::CustomError;
use crate::processor::master::{owner_only_update, UpdateMasterCtx};
use crate::processor::split::{
    lemma_threshold_covers_payouts, split_threshold, SplitEventTokenCtx, SplitTransfers,
};
use crate::processor::vault::{deposit_fold, sum_of, InitVaultEventTokenCtx, TransferTokenCtx};
use crate::states::Master;
use crate::token::Transfer;

verus! {

/// An update of the master record by anyone but its owner fails with
/// `Unauthorized` and changes nothing, whatever the update would have
/// been.
pub proof fn law_update_needs_owner(
    pre: UpdateMasterCtx,
    updated: Master,
    r: Result<(), CustomError>,
    post: UpdateMasterCtx,
)
    requires
        pre.signer != pre.master.owner,
        owner_only_update(pre, updated, r, post),
    ensures
        r == Err::<(), CustomError>(CustomError::Unauthorized),
        post == pre,
{
}

/// An update by the owner replaces the record by the updated one and
/// leaves the caller as it was.
pub proof fn law_update_by_owner(
    pre: UpdateMasterCtx,
    updated: Master,
    r: Result<(), CustomError>,
    post: UpdateMasterCtx,
)
    requires
        pre.signer == pre.master.owner,
        owner_only_update(pre, updated, r, post),
    ensures
        r.is_ok(),
        post.master == updated,
        post.signer == pre.signer,
{
}

/// Creating the vault by anyone but the owner fails with `Unauthorized`
/// and changes nothing, whatever the searches for the addresses found and
/// whether or not the vault exists.
pub proof fn law_init_vault_needs_owner(
    pre: InitVaultEventTokenCtx,
    authority: Option<(Seq<u8>, u8)>,
    vault: Option<(Seq<u8>, u8)>,
    r: Result<(), CustomError>,
    post: InitVaultEventTokenCtx,
)
    requires
        pre.signer != pre.master.owner,
        pre.init_vault_outcome(authority, vault, r, post),
    ensures
        r == Err::<(), CustomError>(CustomError::Unauthorized),
        post == pre,
{
}

/// A vault that exists is not created again: the owner's second call
/// fails with `AccountAlreadyInitialized` and changes nothing.
pub proof fn law_init_vault_once(
    pre: InitVaultEventTokenCtx,
    authority: Option<(Seq<u8>, u8)>,
    vault: Option<(Seq<u8>, u8)>,
    r: Result<(), CustomError>,
    post: InitVaultEventTokenCtx,
)
    requires
        pre.signer == pre.master.owner,
        pre.vault_event_token.is_some() || pre.vault_event_token_owner.is_some(),
        pre.init_vault_outcome(authority, vault, r, post),
    ensures
        r == Err::<(), CustomError>(CustomError::AccountAlreadyInitialized),
        post == pre,
{
}

/// A withdrawal by anyone but the owner fails with `Unauthorized` and
/// leaves the master record and every balance as they were, whatever the
/// amount, the mode and the derivation proof.
pub proof fn law_withdraw_needs_owner(
    pre: TransferTokenCtx,
    amount: u64,
    total: bool,
    derived: Option<Seq<u8>>,
    r: Result<Transfer, CustomError>,
    post: TransferTokenCtx,
)
    requires
        pre.signer != pre.master.owner,
        pre.withdraw_outcome(amount, total, derived, r, post),
    ensures
        r == Err::<Transfer, CustomError>(CustomError::Unauthorized),
        post == pre,
{
}

/// A deposit that succeeds moves exactly `amount` times ten to the
/// decimals base units: the vault holds that much more, the caller's
/// account that much less, and nothing else differs.
pub proof fn law_deposit_is_exact(
    pre: TransferTokenCtx,
    amount: u64,
    r: Result<Transfer, CustomError>,
    post: TransferTokenCtx,
)
    requires
        pre.deposit_outcome(amount, r, post),
        r.is_ok(),
    ensures
        post.vault_event_token.amount == pre.vault_event_token.amount + amount * pow(
            10,
            pre.mint_of_event_token.decimals as nat,
        ),
        post.sender_event_token_account.amount == pre.sender_event_token_account.amount - amount
            * pow(10, pre.mint_of_event_token.decimals as nat),
        r.unwrap().amount == amount * pow(10, pre.mint_of_event_token.decimals as nat),
        post == (TransferTokenCtx {
            vault_event_token: post.vault_event_token,
            sender_event_token_account: post.sender_event_token_account,
            ..pre
        }),
        post.vault_event_token.address == pre.vault_event_token.address,
        post.vault_event_token.owner == pre.vault_event_token.owner,
        post.sender_event_token_account.address == pre.sender_event_token_account.address,
        post.sender_event_token_account.owner == pre.sender_event_token_account.owner,
{
    lemma_scaled_bounds(amount as int, pre.mint_of_event_token.decimals as nat);
}

/// Deposits add up, in either order: where a deposit of `a` and then one
/// of `b` succeed, so do one of `b` and then one of `a`; both orders end
/// in the same state, and in it the vault holds `a + b` whole tokens more
/// than at the start.
pub proof fn law_deposits_add_up(
    pre: TransferTokenCtx,
    a: u64,
    b: u64,
    r_a: Result<Transfer, CustomError>,
    mid_a: TransferTokenCtx,
    r_ab: Result<Transfer, CustomError>,
    post_ab: TransferTokenCtx,
    r_b: Result<Transfer, CustomError>,
    mid_b: TransferTokenCtx,
    r_ba: Result<Transfer, CustomError>,
    post_ba: TransferTokenCtx,
)
    requires
        pre.deposit_outcome(a, r_a, mid_a),
        mid_a.deposit_outcome(b, r_ab, post_ab),
        r_a.is_ok(),
        r_ab.is_ok(),
        pre.deposit_outcome(b, r_b, mid_b),
        mid_b.deposit_outcome(a, r_ba, post_ba),
    ensures
        r_b.is_ok(),
        r_ba.is_ok(),
        post_ba == post_ab,
        post_ab.vault_event_token.amount == pre.vault_event_token.amount + scaled(
            a + b,
            pre.mint_of_event_token.decimals as nat,
        ),
{
    let factor = pow(10, pre.mint_of_event_token.decimals as nat);
    assert((a + b) * factor == a * factor + b * factor) by (nonlinear_arith);
    lemma_scaled_bounds(a as int, pre.mint_of_event_token.decimals as nat);
    lemma_scaled_bounds(b as int, pre.mint_of_event_token.decimals as nat);
}

/// One deposit after another is a step of the sequence of deposits: a
/// deposit that succeeds takes the state it found to the state it left,
/// and one that fails ends the sequence.
pub proof fn law_deposit_is_a_step(
    pre: TransferTokenCtx,
    amount: u64,
    r: Result<Transfer, CustomError>,
    post: TransferTokenCtx,
)
    requires
        pre.deposit_outcome(amount, r, post),
    ensures
        TransferTokenCtx::deposit_step(Some(pre), amount) == (if r.is_ok() {
            Some(post)
        } else {
            None
        }),
        pre.after_deposits(seq![amount]) == TransferTokenCtx::deposit_step(Some(pre), amount),
{
    let one = seq![amount];
    assert(one.drop_last() =~= Seq::<u64>::empty());
    assert(one.last() == amount);
    reveal_with_fuel(Seq::fold_left, 2);
}

/// Repeated deposits add up: where every deposit of a sequence succeeds,
/// the vault ends up holding the sum of the amounts, times ten to the
/// decimals, more than at the start, the caller's account as much less,
/// and nothing else differs.
pub proof fn law_repeated_deposits_add_up(pre: TransferTokenCtx, amounts: Seq<u64>)
    requires
        pre.after_deposits(amounts).is_some(),
    ensures
        pre.after_deposits(amounts).unwrap() == pre.vault_credited(
            scaled(sum_of(amounts), pre.mint_of_event_token.decimals as nat),
        ),
        pre.after_deposits(amounts).unwrap().vault_event_token.amount
            == pre.vault_event_token.amount + sum_of(amounts) * pow(
            10,
            pre.mint_of_event_token.decimals as nat,
        ),
        0 <= sum_of(amounts) * pow(10, pre.mint_of_event_token.decimals as nat)
            <= pre.sender_event_token_account.amount,
    decreases amounts.len(),
{
    let decimals = pre.mint_of_event_token.decimals as nat;
    let factor = pow(10, decimals);
    if amounts.len() == 0 {
        assert(sum_of(amounts) == 0);
        assert(0 * factor == 0) by (nonlinear_arith);
        assert(pre.vault_credited(0) == pre);
    } else {
        let before = amounts.drop_last();
        let last = amounts.last();
        assert(pre.after_deposits(amounts) == TransferTokenCtx::deposit_step(
            pre.after_deposits(before),
            last,
        ));
        law_repeated_deposits_add_up(pre, before);
        assert(sum_of(amounts) == sum_of(before) + last);
        assert((sum_of(before) + last) * factor == sum_of(before) * factor + last * factor)
            by (nonlinear_arith);
        lemma_scaled_bounds(last as int, decimals);
    }
}

/// Repeated deposits are order-independent: the same amounts deposited in
/// another order are all accepted or not all accepted alike, and where
/// they are, they end in the same state.
pub proof fn law_repeated_deposits_commute(
    pre: TransferTokenCtx,
    amounts: Seq<u64>,
    shuffled: Seq<u64>,
)
    requires
        amounts.to_multiset() == shuffled.to_multiset(),
    ensures
        pre.after_deposits(amounts) == pre.after_deposits(shuffled),
{
    assert forall|x: u64, y: u64, v: Option<TransferTokenCtx>|
        #[trigger] deposit_fold()(deposit_fold()(v, x), y) == deposit_fold()(
            deposit_fold()(v, y),
            x,
        ) by {
        if let Some(ctx) = v {
            lemma_scaled_bounds(x as int, ctx.mint_of_event_token.decimals as nat);
            lemma_scaled_bounds(y as int, ctx.mint_of_event_token.decimals as nat);
        }
    }
    vstd::seq_lib::lemma_fold_left_permutation(amounts, shuffled, deposit_fold(), Some(pre));
}

/// A withdrawal of an amount that succeeds takes exactly `amount` times
/// ten to the decimals base units out of the vault and puts them into the
/// caller's account.
pub proof fn law_withdraw_is_exact(
    pre: TransferTokenCtx,
    amount: u64,
    derived: Option<Seq<u8>>,
    r: Result<Transfer, CustomError>,
    post: TransferTokenCtx,
)
    requires
        pre.withdraw_outcome(amount, false, derived, r, post),
        r.is_ok(),
    ensures
        post.vault_event_token.amount == pre.vault_event_token.amount - amount * pow(
            10,
            pre.mint_of_event_token.decimals as nat,
        ),
        post.sender_event_token_account.amount == pre.sender_event_token_account.amount + amount
            * pow(10, pre.mint_of_event_token.decimals as nat),
        r.unwrap().amount == amount * pow(10, pre.mint_of_event_token.decimals as nat),
{
    lemma_scaled_bounds(amount as int, pre.mint_of_event_token.decimals as nat);
}

/// A withdrawal of an amount that the vault holds is owed to the owner:
/// where the identities and the derivation proof are in order and the
/// caller's account has room, it succeeds.
pub proof fn law_withdraw_within_balance_succeeds(
    pre: TransferTokenCtx,
    amount: u64,
    derived: Option<Seq<u8>>,
    r: Result<Transfer, CustomError>,
    post: TransferTokenCtx,
)
    requires
        pre.withdraw_outcome(amount, false, derived, r, post),
        pre.withdraw_authorized(derived),
        amount * pow(10, pre.mint_of_event_token.decimals as nat) <= pre.vault_event_token.amount,
        pre.sender_event_token_account.amount + amount * pow(
            10,
            pre.mint_of_event_token.decimals as nat,
        ) <= u64::MAX,
    ensures
        r == Ok::<Transfer, CustomError>(pre.withdraw_transfer(amount, false)),
        post.vault_event_token.amount == pre.vault_event_token.amount - amount * pow(
            10,
            pre.mint_of_event_token.decimals as nat,
        ),
{
    lemma_scaled_bounds(amount as int, pre.mint_of_event_token.decimals as nat);
}

/// A withdrawal of more than the vault holds fails and changes nothing.
/// For the owner with a standing derivation proof it fails with
/// `InsufficientFunds` where the amount fits in 64 bits and with
/// `AmountOverflow` where it does not.
pub proof fn law_withdraw_over_balance_fails(
    pre: TransferTokenCtx,
    amount: u64,
    derived: Option<Seq<u8>>,
    r: Result<Transfer, CustomError>,
    post: TransferTokenCtx,
)
    requires
        pre.withdraw_outcome(amount, false, derived, r, post),
        amount * pow(10, pre.mint_of_event_token.decimals as nat) > pre.vault_event_token.amount,
    ensures
        r.is_err(),
        post == pre,
        pre.withdraw_authorized(derived) ==> r == Err::<Transfer, CustomError>(
            if pre.units(amount) > u64::MAX {
                CustomError::AmountOverflow
            } else {
                CustomError::InsufficientFunds
            },
        ),
{
}

/// A withdrawal of everything that succeeds leaves the vault empty and
/// the caller's account richer by what the vault held; and the amount
/// that is passed along has no say in the outcome.
pub proof fn law_total_withdraw_empties_vault(
    pre: TransferTokenCtx,
    amount: u64,
    other_amount: u64,
    derived: Option<Seq<u8>>,
    r: Result<Transfer, CustomError>,
    post: TransferTokenCtx,
)
    requires
        pre.withdraw_outcome(amount, true, derived, r, post),
    ensures
        pre.withdraw_outcome(other_amount, true, derived, r, post),
        r.is_ok() ==> post.vault_event_token.amount == 0,
        r.is_ok() ==> post.sender_event_token_account.amount
            == pre.sender_event_token_account.amount + pre.vault_event_token.amount,
        r.is_ok() <==> pre.withdraw_authorized(derived) && pre.sender_event_token_account.amount
            + pre.vault_event_token.amount <= u64::MAX,
{
}

/// Units leave the vault only in the name of its authority: a withdrawal
/// that succeeds debits the vault, is signed with the bump of the vault
/// authority, and that authority, which the derivation proof yields, owns
/// the vault.
pub proof fn law_withdraw_is_signed_by_the_vault_authority(
    pre: TransferTokenCtx,
    amount: u64,
    total: bool,
    derived: Option<Seq<u8>>,
    r: Result<Transfer, CustomError>,
    post: TransferTokenCtx,
)
    requires
        pre.withdraw_outcome(amount, total, derived, r, post),
        r.is_ok(),
    ensures
        r.unwrap().from == pre.vault_event_token.address,
        r.unwrap().to == pre.sender_event_token_account.address,
        r.unwrap().authority == pre.vault_event_token.owner,
        r.unwrap().signer_bump == Some(pre.vault_event_token_owner.bump),
        derived == Some(pre.vault_event_token.owner@),
{
}

/// What the controller decides is what its books carry out: a deposit
/// that the books accept makes the transfer that was decided on, and a
/// deposit that the controller refuses is refused by the books for the
/// same reason. The books refuse more only for the transfer primitive:
/// for want of units or of room.
pub proof fn law_deposit_follows_its_plan(
    pre: TransferTokenCtx,
    amount: u64,
    r: Result<Transfer, CustomError>,
    post: TransferTokenCtx,
)
    requires
        pre.deposit_outcome(amount, r, post),
    ensures
        r.is_ok() ==> pre.deposit_plan(amount) == r,
        pre.deposit_plan(amount).is_err() ==> r == pre.deposit_plan(amount),
        pre.deposit_plan(amount).is_ok() && r.is_err() ==> r == Err::<Transfer, CustomError>(
            CustomError::InsufficientFunds,
        ) || r == Err::<Transfer, CustomError>(CustomError::AmountOverflow),
{
}

/// A withdrawal follows what the controller decided on in the same way.
pub proof fn law_withdraw_follows_its_plan(
    pre: TransferTokenCtx,
    amount: u64,
    total: bool,
    derived: Option<Seq<u8>>,
    r: Result<Transfer, CustomError>,
    post: TransferTokenCtx,
)
    requires
        pre.withdraw_outcome(amount, total, derived, r, post),
    ensures
        r.is_ok() ==> pre.withdraw_plan(amount, total, derived) == r,
        pre.withdraw_plan(amount, total, derived).is_err() ==> r == pre.withdraw_plan(
            amount,
            total,
            derived,
        ),
        pre.withdraw_plan(amount, total, derived).is_ok() && r.is_err() ==> r == Err::<
            Transfer,
            CustomError,
        >(CustomError::InsufficientFunds) || r == Err::<Transfer, CustomError>(
            CustomError::AmountOverflow,
        ),
{
}

/// A split follows what the controller decided on in the same way, and
/// the vault never lacks the units for it: the books refuse a split that
/// was decided on only where a receiving account has no room.
pub proof fn law_split_follows_its_plan(
    pre: SplitEventTokenCtx,
    now: i64,
    derived: Option<Seq<u8>>,
    r: Result<SplitTransfers, CustomError>,
    post: SplitEventTokenCtx,
)
    requires
        pre.split_outcome(now, derived, r, post),
    ensures
        r.is_ok() ==> pre.split_plan(now, derived) == r,
        pre.split_plan(now, derived).is_err() ==> r == pre.split_plan(now, derived),
        pre.split_plan(now, derived).is_ok() && r.is_err() ==> r == Err::<
            SplitTransfers,
            CustomError,
        >(CustomError::AmountOverflow) && pre.payout_overflows(),
{
}

/// A split by anyone but the admin fails with `Unauthorized` and leaves
/// every balance as it was, whatever the time and the derivation proof.
pub proof fn law_split_needs_admin(
    pre: SplitEventTokenCtx,
    now: i64,
    derived: Option<Seq<u8>>,
    r: Result<SplitTransfers, CustomError>,
    post: SplitEventTokenCtx,
)
    requires
        pre.signer != pre.master.admin,
        pre.split_outcome(now, derived, r, post),
    ensures
        r == Err::<SplitTransfers, CustomError>(CustomError::Unauthorized),
        post == pre,
{
}

/// A split towards a foundation, or towards an owner of the sale
/// contract's vault, other than the one in the master record fails with
/// `Unauthorized` and changes nothing, also for the admin.
pub proof fn law_split_needs_named_receivers(
    pre: SplitEventTokenCtx,
    now: i64,
    derived: Option<Seq<u8>>,
    r: Result<SplitTransfers, CustomError>,
    post: SplitEventTokenCtx,
)
    requires
        pre.foundation_address != pre.master.foundation_address
            || pre.sale_contract_vault_owner_pda != pre.master.sale_contract_vault_owner_pda,
        pre.split_outcome(now, derived, r, post),
    ensures
        r == Err::<SplitTransfers, CustomError>(CustomError::Unauthorized),
        post == pre,
{
}

/// A split before the start of the window, by identities that are in
/// order, fails with `StartTimeNotReached` and changes nothing, whatever
/// the vault holds.
pub proof fn law_split_waits_for_start(
    pre: SplitEventTokenCtx,
    now: i64,
    derived: Option<Seq<u8>>,
    r: Result<SplitTransfers, CustomError>,
    post: SplitEventTokenCtx,
)
    requires
        pre.split_authorized(derived),
        now < pre.master.start_time,
        pre.split_outcome(now, derived, r, post),
    ensures
        r == Err::<SplitTransfers, CustomError>(CustomError::StartTimeNotReached),
        post == pre,
{
}

/// A split of a vault that holds less than the threshold, by identities
/// that are in order and once the window has opened, fails with
/// `AmountOfEventTokenIsNotEnough` and changes nothing.
pub proof fn law_split_needs_threshold(
    pre: SplitEventTokenCtx,
    now: i64,
    derived: Option<Seq<u8>>,
    r: Result<SplitTransfers, CustomError>,
    post: SplitEventTokenCtx,
)
    requires
        pre.split_authorized(derived),
        now >= pre.master.start_time,
        pre.vault_event_token.amount < split_threshold(pre.mint_of_event_token.decimals),
        pre.split_outcome(now, derived, r, post),
    ensures
        r == Err::<SplitTransfers, CustomError>(CustomError::AmountOfEventTokenIsNotEnough),
        post == pre,
{
}

/// The controller decides for a split exactly when its conditions hold:
/// the identities are in order, the time has reached the start, the vault
/// holds a thousand million times ten to the decimals, and the one-shot
/// guard, where it is set, has not seen a split. Neither the owner nor
/// the end of the window has a say. The split then succeeds unless a
/// receiving account has no room.
pub proof fn law_split_is_owed(
    pre: SplitEventTokenCtx,
    now: i64,
    derived: Option<Seq<u8>>,
    r: Result<SplitTransfers, CustomError>,
    post: SplitEventTokenCtx,
)
    requires
        pre.split_outcome(now, derived, r, post),
    ensures
        pre.split_plan(now, derived).is_ok() <==> (pre.split_authorized(derived) && now
            >= pre.master.start_time && pre.vault_event_token.amount >= 1_000_000_000 * pow(
            10,
            pre.mint_of_event_token.decimals as nat,
        ) && !(pre.one_shot && pre.split_executed)),
        r.is_ok() <==> pre.split_plan(now, derived).is_ok() && !pre.payout_overflows(),
{
}

/// A split that succeeds makes two transfers out of the vault and no
/// other change of a balance: 990 million times the decimals to the
/// foundation's account and 10 million times the decimals to the sale
/// contract's, both in the name of the vault authority. The vault holds
/// the sum less, which it had, and each receiver its payout more.
pub proof fn law_split_pays_fixed_amounts(
    pre: SplitEventTokenCtx,
    now: i64,
    derived: Option<Seq<u8>>,
    r: Result<SplitTransfers, CustomError>,
    post: SplitEventTokenCtx,
)
    requires
        pre.split_outcome(now, derived, r, post),
        r.is_ok(),
    ensures
        r.unwrap().foundation.amount == 990_000_000 * pre.mint_of_event_token.decimals,
        r.unwrap().sale_contract.amount == 10_000_000 * pre.mint_of_event_token.decimals,
        r.unwrap().foundation.from == pre.vault_event_token.address,
        r.unwrap().sale_contract.from == pre.vault_event_token.address,
        r.unwrap().foundation.to == pre.foundation_event_token.address,
        r.unwrap().sale_contract.to == pre.sale_contract_vault_event_token.address,
        r.unwrap().foundation.authority == pre.vault_event_token.owner,
        r.unwrap().sale_contract.authority == pre.vault_event_token.owner,
        post.vault_event_token.amount == pre.vault_event_token.amount - 1_000_000_000
            * pre.mint_of_event_token.decimals,
        post.foundation_event_token.amount == pre.foundation_event_token.amount + 990_000_000
            * pre.mint_of_event_token.decimals,
        post.sale_contract_vault_event_token.amount == pre.sale_contract_vault_event_token.amount
            + 10_000_000 * pre.mint_of_event_token.decimals,
        post == (SplitEventTokenCtx {
            vault_event_token: post.vault_event_token,
            foundation_event_token: post.foundation_event_token,
            sale_contract_vault_event_token: post.sale_contract_vault_event_token,
            split_executed: true,
            ..pre
        }),
{
    lemma_threshold_covers_payouts(pre.mint_of_event_token.decimals);
}

/// The payouts of a split do not depend on what the vault holds: two
/// splits of the same asset that succeed move the same amounts.
pub proof fn law_split_payouts_ignore_balance(
    one: SplitEventTokenCtx,
    now_one: i64,
    derived_one: Option<Seq<u8>>,
    r_one: Result<SplitTransfers, CustomError>,
    post_one: SplitEventTokenCtx,
    other: SplitEventTokenCtx,
    now_other: i64,
    derived_other: Option<Seq<u8>>,
    r_other: Result<SplitTransfers, CustomError>,
    post_other: SplitEventTokenCtx,
)
    requires
        one.split_outcome(now_one, derived_one, r_one, post_one),
        other.split_outcome(now_other, derived_other, r_other, post_other),
        one.mint_of_event_token.decimals == other.mint_of_event_token.decimals,
        r_one.is_ok(),
        r_other.is_ok(),
    ensures
        r_one.unwrap().foundation.amount == r_other.unwrap().foundation.amount,
        r_one.unwrap().sale_contract.amount == r_other.unwrap().sale_contract.amount,
{
}

/// Without the one-shot guard a split can be repeated: after a split
/// that succeeded, a second one at a later time succeeds too and pays
/// the same amounts again, where the vault still holds the threshold and
/// the receivers have room.
pub proof fn law_split_repeats_without_guard(
    pre: SplitEventTokenCtx,
    now: i64,
    later: i64,
    derived: Option<Seq<u8>>,
    r: Result<SplitTransfers, CustomError>,
    mid: SplitEventTokenCtx,
    r_again: Result<SplitTransfers, CustomError>,
    post: SplitEventTokenCtx,
)
    requires
        !pre.one_shot,
        pre.split_outcome(now, derived, r, mid),
        r.is_ok(),
        later >= now,
        mid.split_outcome(later, derived, r_again, post),
        mid.vault_event_token.amount >= split_threshold(pre.mint_of_event_token.decimals),
        !mid.payout_overflows(),
    ensures
        r_again.is_ok(),
        r_again.unwrap().foundation.amount == r.unwrap().foundation.amount,
        r_again.unwrap().sale_contract.amount == r.unwrap().sale_contract.amount,
        post.vault_event_token.amount == pre.vault_event_token.amount - 2 * (1_000_000_000
            * pre.mint_of_event_token.decimals),
{
    lemma_threshold_covers_payouts(pre.mint_of_event_token.decimals);
}

/// With the one-shot guard a split runs once: after a split that
/// succeeded, every further one fails and changes nothing, whenever it is
/// asked for and whatever the vault holds by then; where the window is
/// still open and the vault holds the threshold again, it fails with
/// `SplitAlreadyExecuted`.
pub proof fn law_one_shot_split_runs_once(
    pre: SplitEventTokenCtx,
    now: i64,
    later: i64,
    derived: Option<Seq<u8>>,
    r: Result<SplitTransfers, CustomError>,
    mid: SplitEventTokenCtx,
    r_again: Result<SplitTransfers, CustomError>,
    post: SplitEventTokenCtx,
)
    requires
        pre.one_shot,
        pre.split_outcome(now, derived, r, mid),
        r.is_ok(),
        mid.split_outcome(later, derived, r_again, post),
    ensures
        r_again.is_err(),
        post == mid,
        later >= now && mid.vault_event_token.amount >= split_threshold(
            pre.mint_of_event_token.decimals,
        ) ==> r_again == Err::<SplitTransfers, CustomError>(CustomError::SplitAlreadyExecuted),
{
}

} // verus!
