//! The records the arena keeps.

use vstd::prelude::*;
use crate::pubkey::Pubkey;

verus! {

/// Greatest number of collections the whitelist may hold.
pub const MAX_COLLECTIONS: usize = 5;

/// The admin-controlled registry of accepted collections.
#[derive(Clone, Debug, PartialEq, Eq)]
pub struct ArenaConfig {
    /// Who may replace the whitelist. Set once, at creation.
    pub admin: Pubkey,
    /// The accepted collections; replaced whole, never edited in place.
    pub whitelisted_collections: Vec<Pubkey>,
    pub bump: u8,
}

impl ArenaConfig {
    /// Bytes a stored registry takes: tag, admin, a counted list of at most
    /// `MAX_COLLECTIONS` keys, bump.
    pub const SPACE: usize = 8 + 32 + (4 + MAX_COLLECTIONS * 32) + 1;

    /// The registry never holds more than `MAX_COLLECTIONS` collections.
    pub open spec fn wf(&self) -> bool {
        self.whitelisted_collections@.len() <= MAX_COLLECTIONS
    }

    /// Bytes this registry takes when stored.
    pub open spec fn stored_len(&self) -> nat {
        (8 + 32 + (4 + self.whitelisted_collections@.len() * 32) + 1) as nat
    }

    /// The accepted collections as a set.
    pub open spec fn whitelist(&self) -> Set<Pubkey> {
        self.whitelisted_collections@.to_set()
    }

    /// Whether `collection` is on the whitelist.
    pub fn is_whitelisted(&self, collection: &Pubkey) -> (found: bool)
        ensures
            found == self.whitelisted_collections@.contains(*collection),
            found == self.whitelist().contains(*collection),
    {
        let mut i: usize = 0;
        while i < self.whitelisted_collections.len()
            invariant
                i <= self.whitelisted_collections@.len(),
                forall|j: int| 0 <= j < i ==> self.whitelisted_collections@[j] != *collection,
            decreases self.whitelisted_collections@.len() - i,
        {
            if self.whitelisted_collections[i] == *collection {
                return true;
            }
            i += 1;
        }
        false
    }
}

/// The custodial authority under which deposited assets are held. It carries
/// no balance: holdings live in the token ledger.
#[derive(Clone, Copy, Debug, PartialEq, Eq)]
pub struct ArenaVault {
    pub bump: u8,
}

impl ArenaVault {
    /// Bytes a stored vault takes.
    pub const SPACE: usize = 8 + 1;
}

/// The identity record of one wallet.
#[derive(Clone, Copy, Debug, PartialEq, Eq)]
pub struct PlayerAccount {
    /// The wallet this record belongs to.
    pub authority: Pubkey,
    pub bump: u8,
}

impl PlayerAccount {
    /// Bytes a stored player record takes.
    pub const SPACE: usize = 8 + 32 + 1;
}

/// The game entity bound to one deposited asset.
#[derive(Clone, Copy, Debug, PartialEq, Eq)]
pub struct EnemyAssetAccount {
    /// The asset.
    pub mint: Pubkey,
    /// Who deposited it.
    pub depositor: Pubkey,
    /// When, in seconds since the epoch.
    pub deposited_at: i64,
    /// The collection the asset was admitted under.
    pub collection: Pubkey,
    /// Kills recorded for this entity; never decreases.
    pub kill_counter: u64,
    /// Set at creation; only an active entity records kills.
    pub is_active: bool,
    pub bump: u8,
}

impl EnemyAssetAccount {
    /// Bytes a stored entity takes.
    pub const SPACE: usize = 8 + 32 + 32 + 8 + 32 + 8 + 1 + 1;
}

} // verus!
