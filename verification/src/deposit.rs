//! Admission of an asset into custody.
//!
//! A deposit is verified in full before anything is changed: the asset must
//! be one of a kind, its metadata record must be the registry's own record
//! for it, and the policy must admit it. Only then is the entity created and
//! the transfer into the vault's holding asked for.

use vstd::prelude::*;
use crate::address::{find_metadata_address, metadata_seeds, program_address};
use crate::error::ArenaError;
use crate::ledger::{Clock, MetadataAccount, Mint, TokenAccount, TransferChecked};
use crate::metadata::{check_policy, decode_metadata, decoded_metadata, AssetMetadata};
use crate::program_ids::MPL_TOKEN_METADATA_ID;
use crate::pubkey::Pubkey;
use crate::state::{ArenaConfig, EnemyAssetAccount};

verus! {

/// What a deposit works on.
#[derive(Clone, Debug, PartialEq, Eq)]
pub struct DepositNft {
    /// The depositor, who signs.
    pub user: Pubkey,
    /// The asset.
    pub mint: Mint,
    /// The depositor's holding of the asset.
    pub user_ata: TokenAccount,
    /// The vault's holding of the asset.
    pub vault_ata: Pubkey,
    /// The record offered as the asset's metadata.
    pub metadata: MetadataAccount,
    /// The collection registry.
    pub arena_config: ArenaConfig,
    /// The place of the entity bound to the asset: empty until the asset is
    /// deposited.
    pub enemy_asset: Option<EnemyAssetAccount>,
    /// The bump of that place.
    pub enemy_asset_bump: u8,
    /// The time of the deposit.
    pub clock: Clock,
}

impl DepositNft {
    /// Whether the asset is one of a kind and the depositor holds it: one
    /// unit held, no decimal places, one unit in existence. Otherwise the
    /// first of these that fails.
    pub open spec fn shape(self) -> Result<(), ArenaError> {
        if self.user_ata.amount != 1 {
            Err(ArenaError::InvalidNftAmount)
        } else if self.mint.decimals != 0 {
            Err(ArenaError::InvalidNftDecimals)
        } else if self.mint.supply != 1 {
            Err(ArenaError::InvalidNftSupply)
        } else {
            Ok(())
        }
    }

    /// Whether the record offered lives at `canonical`, the address the
    /// registry derives for the asset.
    pub open spec fn metadata_is_canonical(self, canonical: Option<(Pubkey, u8)>) -> bool {
        match canonical {
            Some((address, _)) => address == self.metadata.key,
            None => false,
        }
    }

    /// The collection under which the deposit is admitted, or the reason it
    /// is refused, given the canonical address of the asset's metadata and
    /// what the record offered decodes to. In order: the place of the entity
    /// must be empty; the asset must have the right shape; the record must
    /// be at the canonical address; it must decode; the policy must admit it.
    pub open spec fn verdict(
        self,
        canonical: Option<(Pubkey, u8)>,
        decoded: Option<AssetMetadata>,
    ) -> Result<Pubkey, ArenaError> {
        if self.enemy_asset is Some {
            Err(ArenaError::AccountAlreadyInUse)
        } else if self.shape() is Err {
            Err(self.shape()->Err_0)
        } else if !self.metadata_is_canonical(canonical) {
            Err(ArenaError::InvalidMetadata)
        } else {
            match decoded {
                None => Err(ArenaError::InvalidMetadata),
                Some(metadata) => metadata.admitted_collection(
                    self.arena_config.whitelisted_collections@,
                ),
            }
        }
    }

    /// The entity that an admitted deposit creates.
    pub open spec fn new_entity(self, collection: Pubkey) -> EnemyAssetAccount {
        EnemyAssetAccount {
            mint: self.mint.key,
            depositor: self.user,
            deposited_at: self.clock.unix_timestamp,
            collection,
            kill_counter: 0,
            is_active: true,
            bump: self.enemy_asset_bump,
        }
    }

    /// The transfer that an admitted deposit asks for: exactly one unit of
    /// the asset, from the depositor's holding to the vault's, signed by the
    /// depositor.
    pub open spec fn transfer(self) -> TransferChecked {
        TransferChecked {
            from: self.user_ata.key,
            mint: self.mint.key,
            to: self.vault_ata,
            authority: self.user,
            amount: 1,
            decimals: 0,
        }
    }

    /// What a deposit returns.
    pub open spec fn outcome(
        self,
        canonical: Option<(Pubkey, u8)>,
        decoded: Option<AssetMetadata>,
    ) -> Result<TransferChecked, ArenaError> {
        match self.verdict(canonical, decoded) {
            Ok(_) => Ok(self.transfer()),
            Err(reason) => Err(reason),
        }
    }

    /// What a deposit leaves behind: the new entity in its place where the
    /// deposit is admitted, and nothing changed where it is refused.
    pub open spec fn after(
        self,
        canonical: Option<(Pubkey, u8)>,
        decoded: Option<AssetMetadata>,
    ) -> DepositNft {
        match self.verdict(canonical, decoded) {
            Ok(collection) => DepositNft { enemy_asset: Some(self.new_entity(collection)), ..self },
            Err(_) => self,
        }
    }
}

/// Checks that the asset has the shape of a one-of-a-kind asset held by the
/// depositor, and names the first thing that is wrong with it.
pub fn check_shape(ctx: &DepositNft) -> (checked: Result<(), ArenaError>)
    ensures
        checked == ctx.shape(),
{
    if ctx.user_ata.amount != 1 {
        return Err(ArenaError::InvalidNftAmount);
    }
    if ctx.mint.decimals != 0 {
        return Err(ArenaError::InvalidNftDecimals);
    }
    if ctx.mint.supply != 1 {
        return Err(ArenaError::InvalidNftSupply);
    }
    Ok(())
}

/// Decides a deposit from the canonical address of the asset's metadata and
/// from what the record offered decodes to, and carries it out: where the
/// deposit is admitted, the entity is created with no kills, active, and the
/// transfer of the one unit into the vault's holding is returned for the
/// token ledger to perform; where it is refused, nothing is changed.
pub fn admit_deposit(
    ctx: &mut DepositNft,
    canonical: Option<(Pubkey, u8)>,
    decoded: Option<AssetMetadata>,
) -> (asked: Result<TransferChecked, ArenaError>)
    ensures
        asked == old(ctx).outcome(canonical, decoded),
        *final(ctx) == old(ctx).after(canonical, decoded),
{
    if ctx.enemy_asset.is_some() {
        return Err(ArenaError::AccountAlreadyInUse);
    }
    match check_shape(ctx) {
        Err(reason) => {
            return Err(reason);
        },
        Ok(_) => {},
    }
    let at_canonical = match canonical {
        Some((address, _)) => address == ctx.metadata.key,
        None => false,
    };
    if !at_canonical {
        return Err(ArenaError::InvalidMetadata);
    }
    let metadata = match decoded {
        Some(metadata) => metadata,
        None => {
            return Err(ArenaError::InvalidMetadata);
        },
    };
    let collection = match check_policy(&metadata, &ctx.arena_config) {
        Ok(collection) => collection,
        Err(reason) => {
            return Err(reason);
        },
    };
    let transfer = TransferChecked {
        from: ctx.user_ata.key,
        mint: ctx.mint.key,
        to: ctx.vault_ata,
        authority: ctx.user,
        amount: 1,
        decimals: 0,
    };
    ctx.enemy_asset = Some(
        EnemyAssetAccount {
            mint: ctx.mint.key,
            depositor: ctx.user,
            deposited_at: ctx.clock.unix_timestamp,
            collection,
            kill_counter: 0,
            is_active: true,
            bump: ctx.enemy_asset_bump,
        },
    );
    Ok(transfer)
}

/// Deposits an asset: derives the canonical address of its metadata, decodes
/// the record offered, and decides and carries out the deposit as
/// `admit_deposit` does.
pub fn deposit_nft(ctx: &mut DepositNft) -> (asked: Result<TransferChecked, ArenaError>)
    ensures
        asked == old(ctx).outcome(
            program_address(metadata_seeds(old(ctx).mint.key), MPL_TOKEN_METADATA_ID@),
            decoded_metadata(old(ctx).metadata.data@),
        ),
        *final(ctx) == old(ctx).after(
            program_address(metadata_seeds(old(ctx).mint.key), MPL_TOKEN_METADATA_ID@),
            decoded_metadata(old(ctx).metadata.data@),
        ),
{
    if ctx.enemy_asset.is_some() {
        return Err(ArenaError::AccountAlreadyInUse);
    }
    match check_shape(ctx) {
        Err(reason) => {
            return Err(reason);
        },
        Ok(_) => {},
    }
    let canonical = find_metadata_address(&ctx.mint.key);
    let decoded = decode_metadata(ctx.metadata.data.as_slice());
    admit_deposit(ctx, canonical, decoded)
}

} // verus!
