//! Hand-off of an entity to the external execution domain.
//!
//! The hand-off is a call into the domain's delegation program, signed for
//! the entity's own address: the seeds from which that address is derived
//! go with the call, and the ledger lets it pass only if they derive it.

use vstd::prelude::*;
use crate::address::{enemy_asset_seed_list, enemy_asset_seeds, seeds_view};
use crate::ledger::{AccountMeta, Instruction, SignedInvocation};
use crate::program_ids::{DELEGATION_PROGRAM_ID, ID, SYSTEM_PROGRAM_ID};
use crate::pubkey::Pubkey;
use crate::state::EnemyAssetAccount;

verus! {

/// The first byte of the delegation program's input that asks it to
/// delegate.
pub const DELEGATE_DISCRIMINATOR: u8 = 0;

/// What a hand-off works on.
#[derive(Clone, Copy, Debug, PartialEq, Eq)]
pub struct DelegateEnemyAsset {
    /// Where the entity lives.
    pub enemy_asset_key: Pubkey,
    /// The entity.
    pub enemy_asset: EnemyAssetAccount,
    /// Who pays for the hand-off, and signs.
    pub payer: Pubkey,
}

impl DelegateEnemyAsset {
    /// The accounts the delegation program is given: the entity, writable;
    /// the program that owns it; the payer, writable and signing; the system
    /// program.
    pub open spec fn accounts(self) -> Seq<AccountMeta> {
        seq![
            AccountMeta { pubkey: self.enemy_asset_key, is_signer: false, is_writable: true },
            AccountMeta { pubkey: Pubkey { bytes: ID }, is_signer: false, is_writable: false },
            AccountMeta { pubkey: self.payer, is_signer: true, is_writable: true },
            AccountMeta {
                pubkey: Pubkey { bytes: SYSTEM_PROGRAM_ID },
                is_signer: false,
                is_writable: false,
            },
        ]
    }

    /// The seeds that sign for the entity's address: its tag, its asset, and
    /// the bump stored with it.
    pub open spec fn signer_seeds(self) -> Seq<Seq<u8>> {
        enemy_asset_seeds(self.enemy_asset.mint).push(seq![self.enemy_asset.bump])
    }
}

/// Prepares the hand-off of an entity: the call that asks the delegation
/// program to take over the entity's account, signed for the entity's
/// address.
pub fn delegate_enemy_asset(ctx: &DelegateEnemyAsset) -> (call: SignedInvocation)
    ensures
        call.instruction.program_id == (Pubkey { bytes: DELEGATION_PROGRAM_ID }),
        call.instruction.accounts@ == ctx.accounts(),
        call.instruction.data@ == seq![DELEGATE_DISCRIMINATOR],
        seeds_view(call.signer_seeds@) == ctx.signer_seeds(),
{
    let mut accounts: Vec<AccountMeta> = Vec::new();
    accounts.push(AccountMeta::new(ctx.enemy_asset_key, false));
    accounts.push(AccountMeta::new_readonly(Pubkey::new_from_array(ID), false));
    accounts.push(AccountMeta::new(ctx.payer, true));
    accounts.push(AccountMeta::new_readonly(Pubkey::new_from_array(SYSTEM_PROGRAM_ID), false));
    assert(accounts@ =~= ctx.accounts());

    let mut data: Vec<u8> = Vec::new();
    data.push(DELEGATE_DISCRIMINATOR);
    assert(data@ =~= seq![DELEGATE_DISCRIMINATOR]);

    let mut signer_seeds = enemy_asset_seed_list(&ctx.enemy_asset.mint);
    let mut bump: Vec<u8> = Vec::new();
    bump.push(ctx.enemy_asset.bump);
    assert(bump@ =~= seq![ctx.enemy_asset.bump]);
    signer_seeds.push(bump);
    assert(seeds_view(signer_seeds@) =~= ctx.signer_seeds());

    SignedInvocation {
        instruction: Instruction {
            program_id: Pubkey::new_from_array(DELEGATION_PROGRAM_ID),
            accounts,
            data,
        },
        signer_seeds,
    }
}

} // verus!
