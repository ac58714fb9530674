//! Bootstrap of the arena and the admin's control of the whitelist.

use vstd::prelude::*;
use crate::error::ArenaError;
use crate::pubkey::Pubkey;
use crate::state::{ArenaConfig, ArenaVault, MAX_COLLECTIONS};

verus! {

/// What the bootstrap works on.
#[derive(Clone, Debug, PartialEq, Eq)]
pub struct InitArena {
    /// The caller, who becomes the admin.
    pub admin: Pubkey,
    /// The place of the collection registry: empty until the arena is set up.
    pub arena_config: Option<ArenaConfig>,
    /// The place of the vault: empty until the arena is set up.
    pub arena_vault: Option<ArenaVault>,
    /// The bump of the registry's place.
    pub arena_config_bump: u8,
    /// The bump of the vault's place.
    pub arena_vault_bump: u8,
}

impl InitArena {
    /// Whether the arena can be set up: neither place is taken.
    pub open spec fn fresh(self) -> bool {
        self.arena_config is None && self.arena_vault is None
    }

    /// What the bootstrap returns.
    pub open spec fn outcome(self) -> Result<(), ArenaError> {
        if self.fresh() {
            Ok(())
        } else {
            Err(ArenaError::AccountAlreadyInUse)
        }
    }
}

/// Sets the arena up: creates the collection registry, with the caller as
/// admin and nothing whitelisted, and the vault, both or neither. Fails only
/// where one of them exists already.
pub fn init_arena(ctx: &mut InitArena) -> (done: Result<(), ArenaError>)
    ensures
        done == old(ctx).outcome(),
        done is Ok <==> old(ctx).fresh(),
        done is Err ==> *final(ctx) == *old(ctx),
        done is Ok ==> {
            &&& final(ctx).arena_config matches Some(config)
            &&& config.admin == old(ctx).admin
            &&& config.whitelisted_collections@ == Seq::<Pubkey>::empty()
            &&& config.bump == old(ctx).arena_config_bump
            &&& config.wf()
            &&& final(ctx).arena_vault == Some(ArenaVault { bump: old(ctx).arena_vault_bump })
            &&& final(ctx).admin == old(ctx).admin
            &&& final(ctx).arena_config_bump == old(ctx).arena_config_bump
            &&& final(ctx).arena_vault_bump == old(ctx).arena_vault_bump
        },
{
    if ctx.arena_config.is_some() || ctx.arena_vault.is_some() {
        return Err(ArenaError::AccountAlreadyInUse);
    }
    ctx.arena_config = Some(
        ArenaConfig {
            admin: ctx.admin,
            whitelisted_collections: Vec::new(),
            bump: ctx.arena_config_bump,
        },
    );
    ctx.arena_vault = Some(ArenaVault { bump: ctx.arena_vault_bump });
    Ok(())
}

/// What a replacement of the whitelist works on.
#[derive(Clone, Debug, PartialEq, Eq)]
pub struct SetWhitelist {
    /// The caller, who signs.
    pub admin: Pubkey,
    /// The collection registry.
    pub arena_config: ArenaConfig,
}

impl SetWhitelist {
    /// What replacing the whitelist by `collections` returns. The caller is
    /// judged before the list is.
    pub open spec fn outcome(self, collections: Seq<Pubkey>) -> Result<(), ArenaError> {
        if self.arena_config.admin != self.admin {
            Err(ArenaError::Unauthorized)
        } else if collections.len() > MAX_COLLECTIONS {
            Err(ArenaError::TooManyCollections)
        } else {
            Ok(())
        }
    }
}

/// Replaces the whitelist wholesale. Succeeds exactly where the caller is
/// the admin and `collections` has at most `MAX_COLLECTIONS` members; on
/// failure the registry is as it was.
pub fn set_whitelist(ctx: &mut SetWhitelist, collections: Vec<Pubkey>) -> (done: Result<(), ArenaError>)
    ensures
        done == old(ctx).outcome(collections@),
        done is Ok <==> old(ctx).arena_config.admin == old(ctx).admin && collections@.len()
            <= MAX_COLLECTIONS,
        done is Ok ==> *final(ctx) == (SetWhitelist {
            arena_config: ArenaConfig {
                whitelisted_collections: collections,
                ..old(ctx).arena_config
            },
            ..*old(ctx)
        }),
        done is Ok ==> final(ctx).arena_config.wf(),
        done is Err ==> *final(ctx) == *old(ctx),
        final(ctx).arena_config.admin == old(ctx).arena_config.admin,
        old(ctx).arena_config.wf() ==> final(ctx).arena_config.wf(),
{
    if !(ctx.arena_config.admin == ctx.admin) {
        return Err(ArenaError::Unauthorized);
    }
    if collections.len() > MAX_COLLECTIONS {
        return Err(ArenaError::TooManyCollections);
    }
    ctx.arena_config.whitelisted_collections = collections;
    Ok(())
}

} // verus!
