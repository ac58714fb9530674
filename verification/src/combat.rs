//! Who may record a kill, and what recording one does.
//!
//! A kill is recorded for an entity on behalf of a player. The caller must
//! either be the player's wallet, or hold a session token that the wallet
//! issued to the caller and that has not run out.

use vstd::prelude::*;
use crate::error::ArenaError;
use crate::ledger::Clock;
use crate::pubkey::Pubkey;
use crate::state::{EnemyAssetAccount, PlayerAccount};

verus! {

/// A short-lived credential by which a wallet lets another key act for it.
/// Issued elsewhere; only read here.
#[derive(Clone, Copy, Debug, PartialEq, Eq)]
pub struct SessionToken {
    /// The wallet that issued the token.
    pub authority: Pubkey,
    /// The program the token is scoped to.
    pub target_program: Pubkey,
    /// The key that may act for the wallet.
    pub session_signer: Pubkey,
    /// The moment, in seconds since the epoch, from which the token no
    /// longer counts.
    pub valid_until: i64,
}

impl SessionToken {
    /// Whether the token, at time `now`, lets `signer` act for `authority`:
    /// it was issued by `authority`, to `signer`, and has not run out.
    pub open spec fn grants(self, authority: Pubkey, signer: Pubkey, now: i64) -> bool {
        &&& self.authority == authority
        &&& self.session_signer == signer
        &&& now < self.valid_until
    }
}

/// Whether `signer` may act for `authority` at time `now`: as the wallet
/// itself, or through the session token presented, if any.
pub open spec fn authorized(
    authority: Pubkey,
    signer: Pubkey,
    token: Option<SessionToken>,
    now: i64,
) -> bool {
    signer == authority || match token {
        Some(token) => token.grants(authority, signer, now),
        None => false,
    }
}

/// Decides whether `signer` may act for `authority` at time `now`, given the
/// session token presented, if any.
pub fn authorize(authority: &Pubkey, signer: &Pubkey, token: &Option<SessionToken>, now: i64) -> (allowed: bool)
    ensures
        allowed == authorized(*authority, *signer, *token, now),
{
    if *signer == *authority {
        return true;
    }
    match token {
        Some(token) => token.authority == *authority && token.session_signer == *signer && now
            < token.valid_until,
        None => false,
    }
}

/// What the recording of a kill works on.
#[derive(Clone, Copy, Debug, PartialEq, Eq)]
pub struct RecordPlayerDeath {
    /// The entity that made the kill.
    pub enemy_asset: EnemyAssetAccount,
    /// The record of the player on whose behalf the kill is recorded.
    pub player_account: PlayerAccount,
    /// The key that signs the call.
    pub signer: Pubkey,
    /// The session token presented, if any.
    pub session_token: Option<SessionToken>,
    /// The time of the call.
    pub clock: Clock,
}

impl RecordPlayerDeath {
    /// Whether the caller may act for the player.
    pub open spec fn caller_authorized(self) -> bool {
        authorized(
            self.player_account.authority,
            self.signer,
            self.session_token,
            self.clock.unix_timestamp,
        )
    }

    /// What recording a kill returns. The caller is judged first, then the
    /// entity's state, then the counter's room.
    pub open spec fn outcome(self) -> Result<(), ArenaError> {
        if !self.caller_authorized() {
            Err(ArenaError::Unauthorized)
        } else if !self.enemy_asset.is_active {
            Err(ArenaError::EnemyNotActive)
        } else if self.enemy_asset.kill_counter == u64::MAX {
            Err(ArenaError::KillCounterOverflow)
        } else {
            Ok(())
        }
    }

    /// What recording a kill leaves behind: the entity's counter one higher
    /// and nothing else touched, or, on failure, everything as it was.
    pub open spec fn after(self) -> RecordPlayerDeath {
        if self.outcome() is Ok {
            RecordPlayerDeath {
                enemy_asset: EnemyAssetAccount {
                    kill_counter: (self.enemy_asset.kill_counter + 1) as u64,
                    ..self.enemy_asset
                },
                ..self
            }
        } else {
            self
        }
    }
}

/// Records that the entity killed a player. The caller must be authorized to
/// act for the player and the entity must be active; the counter then goes
/// up by exactly one, and never wraps around.
pub fn record_player_death(ctx: &mut RecordPlayerDeath, _run_id: u64) -> (done: Result<(), ArenaError>)
    ensures
        done == old(ctx).outcome(),
        *final(ctx) == old(ctx).after(),
        done is Ok ==> final(ctx).enemy_asset.kill_counter == old(ctx).enemy_asset.kill_counter + 1,
        final(ctx).enemy_asset.kill_counter >= old(ctx).enemy_asset.kill_counter,
{
    if !authorize(&ctx.player_account.authority, &ctx.signer, &ctx.session_token, ctx.clock.unix_timestamp) {
        return Err(ArenaError::Unauthorized);
    }
    if !ctx.enemy_asset.is_active {
        return Err(ArenaError::EnemyNotActive);
    }
    match ctx.enemy_asset.kill_counter.checked_add(1) {
        Some(kills) => {
            ctx.enemy_asset.kill_counter = kills;
            Ok(())
        },
        None => Err(ArenaError::KillCounterOverflow),
    }
}

} // verus!
