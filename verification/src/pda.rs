//! Derivation and validation of program-owned addresses.
//!
//! Every record lives at an address derived deterministically from a
//! namespace tag, the record's seed values and the program identity.  A
//! handler recomputes the derivation and refuses any supplied address that
//! does not match: this is the sole defense against a caller smuggling in an
//! attacker-controlled account where a derived one is expected.

use vstd::prelude::*;
use vstd::slice::slice_to_vec;

verus! {

/// What address derivation yields for a seed tuple under a program
/// identity, `None` in the statistically improbable event that no bump
/// byte produces a valid derived address.
pub uninterp spec fn pda_of(seeds: Seq<Seq<u8>>, program_id: Seq<u8>) -> Option<(Seq<u8>, u8)>;

/// True when `key` is exactly the address derived from `seeds` under
/// `program_id`.
pub open spec fn spec_pda_matches(key: Seq<u8>, seeds: Seq<Seq<u8>>, program_id: Seq<u8>) -> bool {
    match pda_of(seeds, program_id) {
        Some(p) => p.0 == key,
        None => false,
    }
}

/// Relies on `solana_address::Address::try_find_program_address`, the
/// derivation that `pinocchio` re-exports for its addresses: the result is
/// a pure function of the seed tuple and the program identity.
#[verifier::external_body]
pub fn find_program_address(seeds: &Vec<Vec<u8>>, program_id: &[u8; 32]) -> (r: Option<
    ([u8; 32], u8),
>)
    ensures
        (r is Some) == (pda_of(seeds.deep_view(), program_id@) is Some),
        r matches Some(p) ==> pda_of(seeds.deep_view(), program_id@) == Some((p.0@, p.1)),
{
    let refs: Vec<&[u8]> = seeds.iter().map(|s| s.as_slice()).collect();
    let pid = pinocchio::Address::new_from_array(*program_id);
    pinocchio::Address::try_find_program_address(&refs, &pid)
        .map(|(addr, bump)| (addr.to_bytes(), bump))
}

/// Checks a supplied address against the derivation of a seed tuple.
pub fn pda_matches(key: &[u8; 32], seeds: &Vec<Vec<u8>>, program_id: &[u8; 32]) -> (r: bool)
    ensures
        r == spec_pda_matches(key@, seeds.deep_view(), program_id@),
{
    match find_program_address(seeds, program_id) {
        Some((derived, _bump)) => crate::codec::keys_equal(&derived, key),
        None => false,
    }
}

/// Namespace tag of lending market records (`lending_market` in ASCII).
pub open spec fn spec_lending_market_seed() -> Seq<u8> {
    seq![
        108u8, 101u8, 110u8, 100u8, 105u8, 110u8, 103u8, 95u8, 109u8, 97u8, 114u8, 107u8, 101u8,
        116u8,
    ]
}

/// Namespace tag of reserve records (`reserve` in ASCII).
pub open spec fn spec_reserve_seed() -> Seq<u8> {
    seq![114u8, 101u8, 115u8, 101u8, 114u8, 118u8, 101u8]
}

/// Namespace tag of reserve custody vaults (`reserve_vault` in ASCII).
pub open spec fn spec_reserve_vault_seed() -> Seq<u8> {
    seq![114u8, 101u8, 115u8, 101u8, 114u8, 118u8, 101u8, 95u8, 118u8, 97u8, 117u8, 108u8, 116u8]
}

/// Namespace tag of obligation records (`obligation` in ASCII).
pub open spec fn spec_obligation_seed() -> Seq<u8> {
    seq![111u8, 98u8, 108u8, 105u8, 103u8, 97u8, 116u8, 105u8, 111u8, 110u8]
}

/// The namespace tag of lending market records, as bytes.
pub fn lending_market_seed() -> (r: Vec<u8>)
    ensures
        r@ == spec_lending_market_seed(),
{
    let a: [u8; 14] = [108, 101, 110, 100, 105, 110, 103, 95, 109, 97, 114, 107, 101, 116];
    let r = slice_to_vec(a.as_slice());
    proof {
        assert(r@ =~= spec_lending_market_seed());
    }
    r
}

/// The namespace tag of reserve records, as bytes.
pub fn reserve_seed() -> (r: Vec<u8>)
    ensures
        r@ == spec_reserve_seed(),
{
    let a: [u8; 7] = [114, 101, 115, 101, 114, 118, 101];
    let r = slice_to_vec(a.as_slice());
    proof {
        assert(r@ =~= spec_reserve_seed());
    }
    r
}

/// The namespace tag of reserve custody vaults, as bytes.
pub fn reserve_vault_seed() -> (r: Vec<u8>)
    ensures
        r@ == spec_reserve_vault_seed(),
{
    let a: [u8; 13] = [114, 101, 115, 101, 114, 118, 101, 95, 118, 97, 117, 108, 116];
    let r = slice_to_vec(a.as_slice());
    proof {
        assert(r@ =~= spec_reserve_vault_seed());
    }
    r
}

/// The namespace tag of obligation records, as bytes.
pub fn obligation_seed() -> (r: Vec<u8>)
    ensures
        r@ == spec_obligation_seed(),
{
    let a: [u8; 10] = [111, 98, 108, 105, 103, 97, 116, 105, 111, 110];
    let r = slice_to_vec(a.as_slice());
    proof {
        assert(r@ =~= spec_obligation_seed());
    }
    r
}

/// Seed tuple of the lending market owned by `owner`.
pub open spec fn spec_market_seeds(owner: Seq<u8>) -> Seq<Seq<u8>> {
    seq![spec_lending_market_seed(), owner]
}

/// Seed tuple of the reserve binding `market` to `mint`.
pub open spec fn spec_reserve_seeds(market: Seq<u8>, mint: Seq<u8>) -> Seq<Seq<u8>> {
    seq![spec_reserve_seed(), market, mint]
}

/// Seed tuple of the custody vault of `reserve`.
pub open spec fn spec_vault_seeds(reserve: Seq<u8>) -> Seq<Seq<u8>> {
    seq![spec_reserve_vault_seed(), reserve]
}

/// Seed tuple of the obligation `id` of `owner` in `market`.
pub open spec fn spec_obligation_seeds(id: u8, owner: Seq<u8>, market: Seq<u8>) -> Seq<Seq<u8>> {
    seq![spec_obligation_seed(), seq![id], owner, market]
}

/// Builds the seed tuple of the lending market owned by `owner`.
pub fn market_seeds(owner: &[u8; 32]) -> (r: Vec<Vec<u8>>)
    ensures
        r.deep_view() == spec_market_seeds(owner@),
{
    let mut r: Vec<Vec<u8>> = Vec::new();
    r.push(lending_market_seed());
    r.push(slice_to_vec(owner.as_slice()));
    proof {
        assert(r.deep_view() =~~= spec_market_seeds(owner@));
    }
    r
}

/// Builds the seed tuple of the reserve binding `market` to `mint`.
pub fn reserve_seeds(market: &[u8; 32], mint: &[u8; 32]) -> (r: Vec<Vec<u8>>)
    ensures
        r.deep_view() == spec_reserve_seeds(market@, mint@),
{
    let mut r: Vec<Vec<u8>> = Vec::new();
    r.push(reserve_seed());
    r.push(slice_to_vec(market.as_slice()));
    r.push(slice_to_vec(mint.as_slice()));
    proof {
        assert(r.deep_view() =~~= spec_reserve_seeds(market@, mint@));
    }
    r
}

/// Builds the seed tuple of the custody vault of `reserve`.
pub fn vault_seeds(reserve: &[u8; 32]) -> (r: Vec<Vec<u8>>)
    ensures
        r.deep_view() == spec_vault_seeds(reserve@),
{
    let mut r: Vec<Vec<u8>> = Vec::new();
    r.push(reserve_vault_seed());
    r.push(slice_to_vec(reserve.as_slice()));
    proof {
        assert(r.deep_view() =~~= spec_vault_seeds(reserve@));
    }
    r
}

/// Builds the seed tuple of the obligation `id` of `owner` in `market`.
pub fn obligation_seeds(id: u8, owner: &[u8; 32], market: &[u8; 32]) -> (r: Vec<Vec<u8>>)
    ensures
        r.deep_view() == spec_obligation_seeds(id, owner@, market@),
{
    let mut r: Vec<Vec<u8>> = Vec::new();
    r.push(obligation_seed());
    let mut id_bytes: Vec<u8> = Vec::new();
    id_bytes.push(id);
    r.push(id_bytes);
    r.push(slice_to_vec(owner.as_slice()));
    r.push(slice_to_vec(market.as_slice()));
    proof {
        assert(r.deep_view() =~~= spec_obligation_seeds(id, owner@, market@));
    }
    r
}

} // verus!
