use vstd::prelude::*;

use anchor_lang::solana_program::pubkey::Pubkey;

use crate::key::Key;

verus! {

/// The program address that the ledger derives from `seeds` under `program`,
/// or `None` where the seeds admit none.
pub uninterp spec fn program_address(seeds: Seq<Seq<u8>>, program: Seq<u8>) -> Option<Seq<u8>>;

/// The role tag that opens every vault seed: the ASCII bytes of `vault`.
pub open spec fn vault_tag() -> Seq<u8> {
    seq![118u8, 97u8, 117u8, 108u8, 116u8]
}

/// The seed tuple of the vault that holds `asset` for `owner`.
pub open spec fn vault_seed_tuple(asset: Seq<u8>, owner: Seq<u8>, bump: u8) -> Seq<Seq<u8>> {
    seq![vault_tag(), asset, owner, seq![bump]]
}

/// The byte strings of a list of seeds.
pub open spec fn seeds_view(seeds: Seq<Vec<u8>>) -> Seq<Seq<u8>> {
    seeds.map_values(|s: Vec<u8>| s@)
}

/// Relies on `Pubkey::create_program_address` (anchor_lang's re-export of the
/// Solana address type): the address depends on the seeds and the program id
/// alone; each of its errors (too many or too long seeds, a hash that lies on
/// the curve) is taken as `None`.
#[verifier::external_body]
fn create_program_address(seeds: &Vec<Vec<u8>>, program_id: &Key) -> (r: Option<Key>)
    ensures
        match r {
            Some(k) => program_address(seeds_view(seeds@), program_id@) == Some(k@),
            None => program_address(seeds_view(seeds@), program_id@) is None,
        },
{
    let slices: Vec<&[u8]> = seeds.iter().map(|s| s.as_slice()).collect();
    match Pubkey::create_program_address(&slices, &Pubkey::new_from_array(program_id.bytes)) {
        Ok(address) => Some(Key { bytes: address.to_bytes() }),
        Err(_) => None,
    }
}

/// The seeds with which the vault of `asset` held for `owner` signs.
pub fn vault_seeds(asset: &Key, owner: &Key, bump: u8) -> (r: Vec<Vec<u8>>)
    ensures
        seeds_view(r@) == vault_seed_tuple(asset@, owner@, bump),
{
    let tag: Vec<u8> = vec![118u8, 97u8, 117u8, 108u8, 116u8];
    let last: Vec<u8> = vec![bump];
    assert(tag@ =~= vault_tag());
    assert(last@ =~= seq![bump]);
    let mut r: Vec<Vec<u8>> = Vec::new();
    r.push(tag);
    r.push(asset.to_vec());
    r.push(owner.to_vec());
    r.push(last);
    assert(seeds_view(r@) =~= vault_seed_tuple(asset@, owner@, bump));
    r
}

/// The derived authority of the vault that holds `asset` for `owner`: an
/// identity computed from the seed tuple, with no secret behind it.
pub fn vault_authority(asset: &Key, owner: &Key, bump: u8, program_id: &Key) -> (r: Option<Key>)
    ensures
        match r {
            Some(k) => program_address(vault_seed_tuple(asset@, owner@, bump), program_id@) == Some(k@),
            None => program_address(vault_seed_tuple(asset@, owner@, bump), program_id@) is None,
        },
{
    let seeds = vault_seeds(asset, owner, bump);
    create_program_address(&seeds, program_id)
}

} // verus!
