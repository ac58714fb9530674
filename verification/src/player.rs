//! The registry of players: one identity record per wallet.

use vstd::prelude::*;
use crate::error::ArenaError;
use crate::pubkey::Pubkey;
use crate::state::PlayerAccount;

verus! {

/// What the registration of a player works on.
#[derive(Clone, Copy, Debug, PartialEq, Eq)]
pub struct InitPlayer {
    /// The wallet, which signs.
    pub signer: Pubkey,
    /// The place of the wallet's record: empty until the wallet registers.
    pub player_account: Option<PlayerAccount>,
    /// The bump of that place.
    pub player_account_bump: u8,
}

impl InitPlayer {
    /// What a registration returns: it fails exactly where the wallet has a
    /// record already.
    pub open spec fn outcome(self) -> Result<(), ArenaError> {
        if self.player_account is None {
            Ok(())
        } else {
            Err(ArenaError::AccountAlreadyInUse)
        }
    }

    /// What a registration leaves behind: the wallet's new record in its
    /// place, or, where one was there, everything as it was.
    pub open spec fn after(self) -> InitPlayer {
        if self.player_account is None {
            InitPlayer {
                player_account: Some(
                    PlayerAccount { authority: self.signer, bump: self.player_account_bump },
                ),
                ..self
            }
        } else {
            self
        }
    }
}

/// Registers the calling wallet: creates its record, with the wallet as the
/// record's authority. A wallet that is registered already is refused, and
/// its record stays as it is.
pub fn init_player(ctx: &mut InitPlayer) -> (done: Result<(), ArenaError>)
    ensures
        done == old(ctx).outcome(),
        *final(ctx) == old(ctx).after(),
{
    if ctx.player_account.is_some() {
        return Err(ArenaError::AccountAlreadyInUse);
    }
    ctx.player_account = Some(
        PlayerAccount { authority: ctx.signer, bump: ctx.player_account_bump },
    );
    Ok(())
}

} // verus!
