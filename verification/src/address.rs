//! Where records live. Every record sits at an address derived from a fixed
//! tag and the fields that identify it, under the program that owns it; no
//! identifier is ever allocated.

use vstd::prelude::*;
use crate::program_ids::{ID, MPL_TOKEN_METADATA_ID};
use crate::pubkey::Pubkey;

verus! {

/// Tag of the collection registry: `arena_config`.
pub const ARENA_CONFIG_SEED: [u8; 12] = [97, 114, 101, 110, 97, 95, 99, 111, 110, 102, 105, 103];

/// Tag of the vault: `arena_vault`.
pub const ARENA_VAULT_SEED: [u8; 11] = [97, 114, 101, 110, 97, 95, 118, 97, 117, 108, 116];

/// Tag of a player record: `player`.
pub const PLAYER_SEED: [u8; 6] = [112, 108, 97, 121, 101, 114];

/// Tag of an entity: `enemy_asset`.
pub const ENEMY_ASSET_SEED: [u8; 11] = [101, 110, 101, 109, 121, 95, 97, 115, 115, 101, 116];

/// Tag of a metadata record in the token metadata registry: `metadata`.
pub const METADATA_SEED: [u8; 8] = [109, 101, 116, 97, 100, 97, 116, 97];

/// The address, and the bump that completes it, which the ledger derives from
/// `seeds` under the program `program_id`; `None` where it derives none.
pub uninterp spec fn program_address(seeds: Seq<Seq<u8>>, program_id: Seq<u8>) -> Option<(Pubkey, u8)>;

/// What a list of seeds holds.
pub open spec fn seeds_view(seeds: Seq<Vec<u8>>) -> Seq<Seq<u8>> {
    Seq::new(seeds.len(), |i: int| seeds[i]@)
}

/// Seeds of the collection registry.
pub open spec fn arena_config_seeds() -> Seq<Seq<u8>> {
    seq![ARENA_CONFIG_SEED@]
}

/// Seeds of the vault.
pub open spec fn arena_vault_seeds() -> Seq<Seq<u8>> {
    seq![ARENA_VAULT_SEED@]
}

/// Seeds of the player record of `wallet`.
pub open spec fn player_seeds(wallet: Pubkey) -> Seq<Seq<u8>> {
    seq![PLAYER_SEED@, wallet@]
}

/// Seeds of the entity bound to the asset `mint`.
pub open spec fn enemy_asset_seeds(mint: Pubkey) -> Seq<Seq<u8>> {
    seq![ENEMY_ASSET_SEED@, mint@]
}

/// Seeds of the metadata record of the asset `mint`.
pub open spec fn metadata_seeds(mint: Pubkey) -> Seq<Seq<u8>> {
    seq![METADATA_SEED@, MPL_TOKEN_METADATA_ID@, mint@]
}

/// Calls `Pubkey::try_find_program_address` of the ledger's SDK. It appends a
/// one-byte bump to the seeds, counting down from 255, hashes seeds, program
/// key and a fixed marker, and returns the first hash that is no point of the
/// curve together with its bump; it returns `None` where no bump gives one,
/// or where the seeds are too many or too long. Trusted: the result is the
/// one the SDK computes for these seeds and this program, and depends on
/// nothing else.
#[verifier::external_body]
fn find_program_address(seeds: &Vec<Vec<u8>>, program_id: &Pubkey) -> (found: Option<(Pubkey, u8)>)
    ensures
        found == program_address(seeds_view(seeds@), program_id@),
{
    let parts: Vec<&[u8]> = seeds.iter().map(|seed| seed.as_slice()).collect();
    let program = anchor_lang::prelude::Pubkey::new_from_array(program_id.bytes);
    anchor_lang::prelude::Pubkey::try_find_program_address(&parts, &program)
        .map(|(address, bump)| (Pubkey { bytes: address.to_bytes() }, bump))
}

fn copy_bytes(bytes: &[u8]) -> (out: Vec<u8>)
    ensures
        out@ == bytes@,
{
    let mut out: Vec<u8> = Vec::new();
    let mut i: usize = 0;
    while i < bytes.len()
        invariant
            i <= bytes@.len(),
            out@ == bytes@.subrange(0, i as int),
        decreases bytes@.len() - i,
    {
        out.push(bytes[i]);
        i += 1;
    }
    assert(bytes@.subrange(0, bytes@.len() as int) == bytes@);
    out
}

/// Address and bump of the collection registry.
pub fn find_arena_config_address() -> (found: Option<(Pubkey, u8)>)
    ensures
        found == program_address(arena_config_seeds(), ID@),
{
    let mut seeds: Vec<Vec<u8>> = Vec::new();
    seeds.push(copy_bytes(&ARENA_CONFIG_SEED));
    assert(seeds_view(seeds@) =~= arena_config_seeds());
    find_program_address(&seeds, &Pubkey::new_from_array(ID))
}

/// Address and bump of the vault.
pub fn find_arena_vault_address() -> (found: Option<(Pubkey, u8)>)
    ensures
        found == program_address(arena_vault_seeds(), ID@),
{
    let mut seeds: Vec<Vec<u8>> = Vec::new();
    seeds.push(copy_bytes(&ARENA_VAULT_SEED));
    assert(seeds_view(seeds@) =~= arena_vault_seeds());
    find_program_address(&seeds, &Pubkey::new_from_array(ID))
}

/// Address and bump of the player record of `wallet`.
pub fn find_player_address(wallet: &Pubkey) -> (found: Option<(Pubkey, u8)>)
    ensures
        found == program_address(player_seeds(*wallet), ID@),
{
    let mut seeds: Vec<Vec<u8>> = Vec::new();
    seeds.push(copy_bytes(&PLAYER_SEED));
    seeds.push(wallet.to_vec());
    assert(seeds_view(seeds@) =~= player_seeds(*wallet));
    find_program_address(&seeds, &Pubkey::new_from_array(ID))
}

/// The seeds of the entity bound to the asset `mint`.
pub fn enemy_asset_seed_list(mint: &Pubkey) -> (seeds: Vec<Vec<u8>>)
    ensures
        seeds_view(seeds@) == enemy_asset_seeds(*mint),
{
    let mut seeds: Vec<Vec<u8>> = Vec::new();
    seeds.push(copy_bytes(&ENEMY_ASSET_SEED));
    seeds.push(mint.to_vec());
    assert(seeds_view(seeds@) =~= enemy_asset_seeds(*mint));
    seeds
}

/// Address and bump of the entity bound to the asset `mint`.
pub fn find_enemy_asset_address(mint: &Pubkey) -> (found: Option<(Pubkey, u8)>)
    ensures
        found == program_address(enemy_asset_seeds(*mint), ID@),
{
    let seeds = enemy_asset_seed_list(mint);
    find_program_address(&seeds, &Pubkey::new_from_array(ID))
}

/// Address and bump of the metadata record that the token metadata registry
/// keeps for the asset `mint`.
pub fn find_metadata_address(mint: &Pubkey) -> (found: Option<(Pubkey, u8)>)
    ensures
        found == program_address(metadata_seeds(*mint), MPL_TOKEN_METADATA_ID@),
{
    let registry = Pubkey::new_from_array(MPL_TOKEN_METADATA_ID);
    let mut seeds: Vec<Vec<u8>> = Vec::new();
    seeds.push(copy_bytes(&METADATA_SEED));
    seeds.push(registry.to_vec());
    seeds.push(mint.to_vec());
    assert(seeds_view(seeds@) =~= metadata_seeds(*mint));
    find_program_address(&seeds, &registry)
}

} // verus!
