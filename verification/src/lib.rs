//! Custody and authorization rules of the arena: which assets may be
//! deposited, who may record a kill, and how an entity is handed off.

pub mod address;
pub mod combat;
pub mod config;
pub mod delegation;
pub mod deposit;
pub mod error;
pub mod laws;
pub mod ledger;
pub mod metadata;
pub mod player;
pub mod program_ids;
pub mod pubkey;
pub mod state;

pub use combat::{authorize, record_player_death, RecordPlayerDeath, SessionToken};
pub use config::{init_arena, set_whitelist, InitArena, SetWhitelist};
pub use delegation::{delegate_enemy_asset, DelegateEnemyAsset};
pub use deposit::{admit_deposit, deposit_nft, DepositNft};
pub use error::{ArenaError, ErrorKind};
pub use player::{init_player, InitPlayer};
pub use program_ids::{DELEGATION_PROGRAM_ID, ID, MPL_TOKEN_METADATA_ID, SYSTEM_PROGRAM_ID};
pub use pubkey::Pubkey;
pub use state::{ArenaConfig, ArenaVault, EnemyAssetAccount, PlayerAccount, MAX_COLLECTIONS};
