//! Derived addresses: the labels under which the records of the controller
//! live, and the vault authority, an identity that exists only as what its
//! label, a bump and the program derive.
//!
//! The derivation itself is the chain's and is called, not computed here.
//! Contracts speak of what it returns by two names, `program_address` and
//! `found_program_address`.

use vstd::prelude::*;
use crate::pubkey::Pubkey;

verus! {

/// Label of the master record: the bytes of `master`.
pub const MASTER_SEED: [u8; 6] = [109, 97, 115, 116, 101, 114];

/// Label of the vault authority: the bytes of `vault_event_token_owner`.
pub const VAULT_EVENT_TOKEN_OWNER_SEED: [u8; 23] = [
    118, 97, 117, 108, 116, 95, 101, 118, 101, 110, 116, 95, 116, 111, 107, 101, 110, 95, 111,
    119, 110, 101, 114,
];

/// Label of the vault: the bytes of `vault_event_token`.
pub const VAULT_EVENT_TOKEN_SEED: [u8; 17] = [
    118, 97, 117, 108, 116, 95, 101, 118, 101, 110, 116, 95, 116, 111, 107, 101, 110,
];

/// The address that the seeds and the program derive, if they derive one.
///
/// This names the result of `Pubkey::create_program_address` of
/// solana-program, which anchor-lang re-exports: `Some` of the 32 bytes for
/// `Ok`, `None` for an error. The address is a hash of the seeds, the
/// program identity and a marker, refused where it is a point of the curve;
/// nothing in this library depends on more than its being a function of the
/// seeds and the program.
pub uninterp spec fn program_address(seeds: Seq<Seq<u8>>, program_id: Seq<u8>) -> Option<Seq<u8>>;

/// The address and bump that a search over bumps finds for the seeds and
/// the program, if it finds one.
///
/// This names the result of `Pubkey::try_find_program_address` of
/// solana-program, which anchor-lang re-exports.
pub uninterp spec fn found_program_address(seeds: Seq<Seq<u8>>, program_id: Seq<u8>) -> Option<
    (Seq<u8>, u8),
>;

/// The bytes of an identity that may be absent.
pub open spec fn key_bytes(key: Option<Pubkey>) -> Option<Seq<u8>> {
    match key {
        Some(k) => Some(k@),
        None => None,
    }
}

/// The bytes and bump of a found address that may be absent.
pub open spec fn found_bytes(found: Option<(Pubkey, u8)>) -> Option<(Seq<u8>, u8)> {
    match found {
        Some((k, bump)) => Some((k@, bump)),
        None => None,
    }
}

/// Calls `Pubkey::create_program_address` on the seeds and the program.
///
/// Trusted: the result is the named address, `None` standing for either
/// error of the outside function (a seed over 32 bytes or more than 16
/// seeds; a hash that lies on the curve).
#[verifier::external_body]
fn create_program_address(seeds: &Vec<Vec<u8>>, program_id: &Pubkey) -> (r: Option<Pubkey>)
    ensures
        key_bytes(r) == program_address(seeds.deep_view(), program_id@),
{
    let parts: Vec<&[u8]> = seeds.iter().map(Vec::as_slice).collect();
    let id = anchor_lang::prelude::Pubkey::new_from_array(program_id.0);
    match anchor_lang::prelude::Pubkey::create_program_address(&parts, &id) {
        Ok(address) => Some(Pubkey(address.to_bytes())),
        Err(_) => None,
    }
}

/// Calls `Pubkey::try_find_program_address` on the seeds and the program.
///
/// Trusted: the result is the named pair, and, as the outside function
/// returns only what `create_program_address` gave it for the seeds with
/// the one-byte bump seed appended, that address is the one so derived.
#[verifier::external_body]
fn try_find_program_address(seeds: &Vec<Vec<u8>>, program_id: &Pubkey) -> (r: Option<(Pubkey, u8)>)
    ensures
        found_bytes(r) == found_program_address(seeds.deep_view(), program_id@),
        r matches Some((address, bump)) ==> program_address(
            seeds.deep_view().push(seq![bump]),
            program_id@,
        ) == Some(address@),
{
    let parts: Vec<&[u8]> = seeds.iter().map(Vec::as_slice).collect();
    let id = anchor_lang::prelude::Pubkey::new_from_array(program_id.0);
    match anchor_lang::prelude::Pubkey::try_find_program_address(&parts, &id) {
        Some((address, bump)) => Some((Pubkey(address.to_bytes()), bump)),
        None => None,
    }
}

/// The seeds that prove the vault authority: its label and the bump.
pub open spec fn vault_authority_seeds(bump: u8) -> Seq<Seq<u8>> {
    seq![VAULT_EVENT_TOKEN_OWNER_SEED@, seq![bump]]
}

/// The seeds under which the vault authority is searched for: its label.
pub open spec fn vault_authority_label() -> Seq<Seq<u8>> {
    seq![VAULT_EVENT_TOKEN_OWNER_SEED@]
}

/// The seeds under which the master record is searched for: its label.
pub open spec fn master_label() -> Seq<Seq<u8>> {
    seq![MASTER_SEED@]
}

/// The seeds under which the vault of an asset is searched for: the vault
/// label and the asset's identity.
pub open spec fn vault_label(mint: Pubkey) -> Seq<Seq<u8>> {
    seq![VAULT_EVENT_TOKEN_SEED@, mint@]
}

/// The bytes of a label as a vector.
fn label_bytes<const N: usize>(label: &[u8; N]) -> (r: Vec<u8>)
    ensures
        r@ == label@,
{
    let mut out: Vec<u8> = Vec::new();
    let mut i: usize = 0;
    while i < N
        invariant
            i <= N,
            out@.len() == i,
            forall|j: int| 0 <= j < i ==> out@[j] == label@[j],
        decreases N - i,
    {
        out.push(label[i]);
        i += 1;
    }
    assert(out@ =~= label@);
    out
}

/// The signer seeds of the vault authority for a bump, as owned bytes.
pub fn vault_authority_signer_seeds(bump: u8) -> (r: Vec<Vec<u8>>)
    ensures
        r.deep_view() == vault_authority_seeds(bump),
{
    let mut seeds: Vec<Vec<u8>> = Vec::new();
    seeds.push(label_bytes(&VAULT_EVENT_TOKEN_OWNER_SEED));
    let mut salt: Vec<u8> = Vec::new();
    salt.push(bump);
    seeds.push(salt);
    assert(seeds.deep_view() =~~= vault_authority_seeds(bump));
    seeds
}

/// The vault authority that the label and `bump` derive under the program:
/// the derivation proof, recomputed.
pub fn create_vault_authority(program_id: &Pubkey, bump: u8) -> (r: Option<Pubkey>)
    ensures
        key_bytes(r) == program_address(vault_authority_seeds(bump), program_id@),
{
    let seeds = vault_authority_signer_seeds(bump);
    create_program_address(&seeds, program_id)
}

/// Searches for the vault authority of the program: its address and bump.
pub fn find_vault_authority(program_id: &Pubkey) -> (r: Option<(Pubkey, u8)>)
    ensures
        found_bytes(r) == found_program_address(vault_authority_label(), program_id@),
        r matches Some((address, bump)) ==> program_address(
            vault_authority_seeds(bump),
            program_id@,
        ) == Some(address@),
{
    let mut seeds: Vec<Vec<u8>> = Vec::new();
    seeds.push(label_bytes(&VAULT_EVENT_TOKEN_OWNER_SEED));
    assert(seeds.deep_view() =~~= vault_authority_label());
    let r = try_find_program_address(&seeds, program_id);
    proof {
        if let Some((address, bump)) = r {
            assert(seeds.deep_view().push(seq![bump]) =~~= vault_authority_seeds(bump));
        }
    }
    r
}

/// Searches for the place of the master record of the program: its
/// address and bump.
pub fn find_master_address(program_id: &Pubkey) -> (r: Option<(Pubkey, u8)>)
    ensures
        found_bytes(r) == found_program_address(master_label(), program_id@),
        r matches Some((address, bump)) ==> program_address(
            master_label().push(seq![bump]),
            program_id@,
        ) == Some(address@),
{
    let mut seeds: Vec<Vec<u8>> = Vec::new();
    seeds.push(label_bytes(&MASTER_SEED));
    assert(seeds.deep_view() =~~= master_label());
    try_find_program_address(&seeds, program_id)
}

/// Searches for the vault of the asset `mint`: its address and bump.
pub fn find_vault_address(program_id: &Pubkey, mint: &Pubkey) -> (r: Option<(Pubkey, u8)>)
    ensures
        found_bytes(r) == found_program_address(vault_label(*mint), program_id@),
        r matches Some((address, bump)) ==> program_address(
            vault_label(*mint).push(seq![bump]),
            program_id@,
        ) == Some(address@),
{
    let mut seeds: Vec<Vec<u8>> = Vec::new();
    seeds.push(label_bytes(&VAULT_EVENT_TOKEN_SEED));
    seeds.push(mint.to_vec());
    assert(seeds.deep_view() =~~= vault_label(*mint));
    try_find_program_address(&seeds, program_id)
}

} // verus!
