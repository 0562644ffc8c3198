//! Deterministic, keyless custodial addresses.
//!
//! A vault and the escrow record itself live at addresses derived from an
//! ordered sequence of 32-byte seeds and the program's identity, together
//! with a one-byte nonce chosen (scanning downward from 255) so that the
//! candidate address is off-curve and so has no corresponding private key.
//! The same seeds always yield the same address and nonce, which is what lets
//! the deposit and withdraw paths reconstruct delegated authority offline.

use vstd::prelude::*;
use crate::addr::Addr;
use crate::codec::push_addr;

verus! {

/// What the derivation of the outside crate returns for the given seeds and
/// program identity: the address and its nonce, or nothing when no nonce in
/// range yields an off-curve address. A pure function of its arguments.
pub uninterp spec fn pda_of(seeds: Seq<Seq<u8>>, program_id: Seq<u8>) -> Option<(Seq<u8>, u8)>;

/// The byte strings of a seed list.
pub open spec fn seeds_view(seeds: Seq<Vec<u8>>) -> Seq<Seq<u8>> {
    Seq::new(seeds.len(), |i: int| seeds[i]@)
}

/// Relies on `solana_program::pubkey::Pubkey::try_find_program_address`: an
/// inline search, from nonce 255 downward, for the first hash of
/// `seeds ++ [nonce]` and the program id that falls off-curve — a
/// deterministic function of the seeds and program id alone, `None` when no
/// nonce works.
#[verifier::external_body]
pub(crate) fn try_derive_address(seeds: &Vec<Vec<u8>>, program_id: &Addr) -> (r: Option<
    (Addr, u8),
>)
    ensures
        match r {
            Some(p) => pda_of(seeds_view(seeds@), program_id@) == Some((p.0@, p.1)),
            None => pda_of(seeds_view(seeds@), program_id@) is None,
        },
{
    let slices: Vec<&[u8]> = seeds.iter().map(|s| s.as_slice()).collect();
    let pid = solana_program::pubkey::Pubkey::new_from_array(program_id.bytes);
    solana_program::pubkey::Pubkey::try_find_program_address(&slices, &pid).map(
        |p: (solana_program::pubkey::Pubkey, u8)| (Addr { bytes: p.0.to_bytes() }, p.1),
    )
}

/// The raw bytes of an address, as one derivation seed.
pub fn addr_bytes(a: &Addr) -> (r: Vec<u8>)
    ensures
        r@ == a@,
{
    let mut r: Vec<u8> = Vec::new();
    push_addr(&mut r, a);
    r
}

/// The seeds a vault's address is derived from: its mint and the two parties.
pub open spec fn spec_vault_seeds(mint: Addr, party_a: Addr, party_b: Addr) -> Seq<Seq<u8>> {
    seq![mint@, party_a@, party_b@]
}

pub fn vault_seeds(mint: &Addr, party_a: &Addr, party_b: &Addr) -> (r: Vec<Vec<u8>>)
    ensures
        seeds_view(r@) == spec_vault_seeds(*mint, *party_a, *party_b),
{
    let mut r: Vec<Vec<u8>> = Vec::new();
    r.push(addr_bytes(mint));
    r.push(addr_bytes(party_a));
    r.push(addr_bytes(party_b));
    proof {
        assert(seeds_view(r@) =~= spec_vault_seeds(*mint, *party_a, *party_b));
    }
    r
}

/// The seeds the escrow record's address is derived from: the two vaults and
/// the two parties.
pub open spec fn spec_escrow_seeds(vault_x: Seq<u8>, vault_y: Seq<u8>, party_a: Addr, party_b: Addr) -> Seq<
    Seq<u8>,
> {
    seq![vault_x, vault_y, party_a@, party_b@]
}

pub fn escrow_seeds(vault_x: &Addr, vault_y: &Addr, party_a: &Addr, party_b: &Addr) -> (r: Vec<
    Vec<u8>,
>)
    ensures
        seeds_view(r@) == spec_escrow_seeds(vault_x@, vault_y@, *party_a, *party_b),
{
    let mut r: Vec<Vec<u8>> = Vec::new();
    r.push(addr_bytes(vault_x));
    r.push(addr_bytes(vault_y));
    r.push(addr_bytes(party_a));
    r.push(addr_bytes(party_b));
    proof {
        assert(seeds_view(r@) =~= spec_escrow_seeds(vault_x@, vault_y@, *party_a, *party_b));
    }
    r
}

} // verus!
