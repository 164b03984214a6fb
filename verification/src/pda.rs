//! Deterministic address derivation.
//!
//! Every capability of the escrow is an address computed from public seeds:
//! the fund record's own address (from a domain tag, the depositor and a
//! caller-chosen seed label), the custody account's address (from the fund's
//! address) and the vault authority (from a domain tag alone). The derivation
//! itself is the ledger's, reached through one trusted wrapper; everything the
//! escrow concludes from it is stated over the named result [`pda_of`].

use vstd::prelude::*;

use crate::ids::{id_to_vec, AccountId};

verus! {

/// The derived address and disambiguator that the ledger's address-derivation
/// service computes from an ordered list of byte-string seeds and a program
/// identity, or `None` where the search finds no usable disambiguator.
pub uninterp spec fn pda_of(seeds: Seq<Seq<u8>>, program_id: Seq<u8>) -> Option<(Seq<u8>, u8)>;

/// The views of a list of byte strings.
pub open spec fn views_of(s: Seq<Vec<u8>>) -> Seq<Seq<u8>> {
    s.map_values(|v: Vec<u8>| v@)
}

/// A derivation result, as the mathematical value it stands for.
pub open spec fn derivation_view(r: Option<(AccountId, u8)>) -> Option<(Seq<u8>, u8)> {
    match r {
        None => None,
        Some(p) => Some((p.0@, p.1)),
    }
}

/// Relies on `Pubkey::try_find_program_address` of `anchor_lang`: the derived
/// address and bump are a pure function of the seeds and the program id alone,
/// and the search returns `None` rather than panicking where no bump works or
/// a seed is over the ledger's length limits.
#[verifier::external_body]
pub fn try_derive(seeds: &Vec<Vec<u8>>, program_id: &AccountId) -> (r: Option<(AccountId, u8)>)
    ensures
        derivation_view(r) == pda_of(views_of(seeds@), program_id@),
{
    let pid = anchor_lang::prelude::Pubkey::new_from_array(program_id.bytes);
    let refs: Vec<&[u8]> = seeds.iter().map(|s| s.as_slice()).collect();
    anchor_lang::prelude::Pubkey::try_find_program_address(&refs, &pid)
        .map(|(key, bump)| (AccountId { bytes: key.to_bytes() }, bump))
}

/// The domain-separation tag under which fund addresses are derived: `fund`.
pub open spec fn fund_tag() -> Seq<u8> {
    seq![102u8, 117u8, 110u8, 100u8]
}

pub fn fund_tag_bytes() -> (r: Vec<u8>)
    ensures
        r@ == fund_tag(),
{
    let mut r: Vec<u8> = Vec::new();
    r.push(102);
    r.push(117);
    r.push(110);
    r.push(100);
    proof {
        assert(r@ =~= fund_tag());
    }
    r
}

/// The domain-separation tag under which the vault authority is derived:
/// `token-vault-authority`.
pub open spec fn vault_authority_tag() -> Seq<u8> {
    seq![
        116u8, 111u8, 107u8, 101u8, 110u8, 45u8, 118u8, 97u8, 117u8, 108u8, 116u8, 45u8, 97u8,
        117u8, 116u8, 104u8, 111u8, 114u8, 105u8, 116u8, 121u8,
    ]
}

pub fn vault_authority_tag_bytes() -> (r: Vec<u8>)
    ensures
        r@ == vault_authority_tag(),
{
    let mut r: Vec<u8> = Vec::new();
    r.push(116);
    r.push(111);
    r.push(107);
    r.push(101);
    r.push(110);
    r.push(45);
    r.push(118);
    r.push(97);
    r.push(117);
    r.push(108);
    r.push(116);
    r.push(45);
    r.push(97);
    r.push(117);
    r.push(116);
    r.push(104);
    r.push(111);
    r.push(114);
    r.push(105);
    r.push(116);
    r.push(121);
    proof {
        assert(r@ =~= vault_authority_tag());
    }
    r
}

/// Where a fund record created by `depositor` under `seed` lives.
pub open spec fn fund_addr_of(program_id: Seq<u8>, depositor: Seq<u8>, seed: Seq<u8>) -> Option<
    (Seq<u8>, u8),
> {
    pda_of(seq![fund_tag(), depositor, seed], program_id)
}

/// Where the custody account of the fund at `fund_addr` lives.
pub open spec fn custody_addr_of(program_id: Seq<u8>, fund_addr: Seq<u8>) -> Option<(Seq<u8>, u8)> {
    pda_of(seq![fund_addr], program_id)
}

/// The identity that authorizes outbound transfers from every custody
/// account. It is derived from a fixed tag alone, so no participant holds a
/// signing key for it.
pub open spec fn vault_authority_of(program_id: Seq<u8>) -> Option<(Seq<u8>, u8)> {
    pda_of(seq![vault_authority_tag()], program_id)
}

/// Derive the fund address for `depositor` and `seed`.
pub fn derive_fund_addr(program_id: &AccountId, depositor: &AccountId, seed: Vec<u8>) -> (r:
    Option<(AccountId, u8)>)
    ensures
        derivation_view(r) == fund_addr_of(program_id@, depositor@, seed@),
{
    let ghost seed_view = seed@;
    let mut seeds: Vec<Vec<u8>> = Vec::new();
    seeds.push(fund_tag_bytes());
    seeds.push(id_to_vec(depositor));
    seeds.push(seed);
    proof {
        assert(views_of(seeds@) =~= seq![fund_tag(), depositor@, seed_view]);
    }
    try_derive(&seeds, program_id)
}

/// Derive the custody address for the fund at `fund_addr`.
pub fn derive_custody_addr(program_id: &AccountId, fund_addr: &AccountId) -> (r: Option<
    (AccountId, u8),
>)
    ensures
        derivation_view(r) == custody_addr_of(program_id@, fund_addr@),
{
    let mut seeds: Vec<Vec<u8>> = Vec::new();
    seeds.push(id_to_vec(fund_addr));
    proof {
        assert(views_of(seeds@) =~= seq![fund_addr@]);
    }
    try_derive(&seeds, program_id)
}

/// Derive the vault authority.
pub fn derive_vault_authority(program_id: &AccountId) -> (r: Option<(AccountId, u8)>)
    ensures
        derivation_view(r) == vault_authority_of(program_id@),
{
    let mut seeds: Vec<Vec<u8>> = Vec::new();
    seeds.push(vault_authority_tag_bytes());
    proof {
        assert(views_of(seeds@) =~= seq![vault_authority_tag()]);
    }
    try_derive(&seeds, program_id)
}

} // verus!
