//! What holds of the operations taken together.

use vstd::prelude::*;
use crate::combat::{authorized, RecordPlayerDeath};
use crate::config::SetWhitelist;
use crate::deposit::DepositNft;
use crate::error::ArenaError;
use crate::metadata::AssetMetadata;
use crate::player::InitPlayer;
use crate::pubkey::Pubkey;
use crate::state::{ArenaConfig, MAX_COLLECTIONS};

verus! {

/// A registry fits the space set aside for it exactly where it holds no more
/// than `MAX_COLLECTIONS` collections.
pub proof fn lemma_registry_fits_its_space(config: ArenaConfig)
    ensures
        config.wf() <==> config.stored_len() <= ArenaConfig::SPACE,
{
}

/// Replacing the whitelist succeeds exactly where the caller is the admin
/// and the list has at most `MAX_COLLECTIONS` members. A caller who is not
/// the admin is told so, whatever the list; the admin with too long a list is
/// told that.
pub proof fn lemma_set_whitelist_decided(ctx: SetWhitelist, collections: Seq<Pubkey>)
    ensures
        ctx.outcome(collections) is Ok <==> ctx.admin == ctx.arena_config.admin
            && collections.len() <= MAX_COLLECTIONS,
        ctx.admin != ctx.arena_config.admin ==> ctx.outcome(collections) == Err::<(), ArenaError>(
            ArenaError::Unauthorized,
        ),
        ctx.admin == ctx.arena_config.admin && collections.len() > MAX_COLLECTIONS
            ==> ctx.outcome(collections) == Err::<(), ArenaError>(ArenaError::TooManyCollections),
{
}

/// A deposit into an empty place is admitted exactly where the depositor
/// holds one unit, the asset has no decimal places and a supply of one, the
/// record offered is at the canonical address and decodes, its token
/// standard is absent or the plain non-fungible one, and it names a
/// collection that is verified and whitelisted.
pub proof fn lemma_deposit_admitted_iff(
    ctx: DepositNft,
    canonical: Option<(Pubkey, u8)>,
    decoded: Option<AssetMetadata>,
)
    requires
        ctx.enemy_asset is None,
    ensures
        ctx.outcome(canonical, decoded) is Ok <==> {
            &&& ctx.user_ata.amount == 1
            &&& ctx.mint.decimals == 0
            &&& ctx.mint.supply == 1
            &&& canonical matches Some((address, _))
            &&& address == ctx.metadata.key
            &&& decoded matches Some(metadata)
            &&& metadata.standard_accepted()
            &&& metadata.collection matches Some(collection)
            &&& collection.verified
            &&& ctx.arena_config.whitelisted_collections@.contains(collection.key)
        },
{
}

/// An admitted deposit asks for exactly one unit to be moved from the
/// depositor's holding to the vault's, and creates exactly the entity of the
/// asset: owned by the depositor, under the collection the metadata names,
/// with no kills, active. Nothing else of what the deposit works on changes.
pub proof fn lemma_deposit_effect(
    ctx: DepositNft,
    canonical: Option<(Pubkey, u8)>,
    decoded: Option<AssetMetadata>,
)
    requires
        ctx.outcome(canonical, decoded) is Ok,
    ensures
        ctx.outcome(canonical, decoded) == Ok::<_, ArenaError>(ctx.transfer()),
        ctx.transfer().amount == 1,
        ctx.transfer().from == ctx.user_ata.key,
        ctx.transfer().to == ctx.vault_ata,
        ctx.enemy_asset is None,
        decoded matches Some(metadata) && metadata.collection matches Some(collection) && {
            let created = ctx.after(canonical, decoded);
            &&& created == (DepositNft { enemy_asset: created.enemy_asset, ..ctx })
            &&& created.enemy_asset matches Some(entity)
            &&& entity.mint == ctx.mint.key
            &&& entity.depositor == ctx.user
            &&& entity.deposited_at == ctx.clock.unix_timestamp
            &&& entity.collection == collection.key
            &&& entity.kill_counter == 0
            &&& entity.is_active
            &&& entity.bump == ctx.enemy_asset_bump
        },
{
}

/// A refused deposit changes nothing, and creates no entity where none was.
pub proof fn lemma_deposit_refused_changes_nothing(
    ctx: DepositNft,
    canonical: Option<(Pubkey, u8)>,
    decoded: Option<AssetMetadata>,
)
    requires
        ctx.outcome(canonical, decoded) is Err,
    ensures
        ctx.after(canonical, decoded) == ctx,
{
}

/// A second deposit of an asset, after one that was admitted, is refused
/// and leaves the entity as the first created it.
pub proof fn lemma_second_deposit_fails(
    first: DepositNft,
    canonical: Option<(Pubkey, u8)>,
    decoded: Option<AssetMetadata>,
    second: DepositNft,
    second_canonical: Option<(Pubkey, u8)>,
    second_decoded: Option<AssetMetadata>,
)
    requires
        first.outcome(canonical, decoded) is Ok,
        second.enemy_asset == first.after(canonical, decoded).enemy_asset,
    ensures
        second.outcome(second_canonical, second_decoded) == Err::<crate::ledger::TransferChecked, _>(
            ArenaError::AccountAlreadyInUse,
        ),
        second.after(second_canonical, second_decoded) == second,
{
}

/// Recording a kill for an active entity with `k` kills, where it succeeds,
/// leaves the entity with `k + 1` kills and every other field as it was; for
/// an entity that is not active it fails, for an authorized caller with the
/// reason that the entity is not active, and the entity stays as it was.
pub proof fn lemma_record_death_counts(ctx: RecordPlayerDeath)
    ensures
        ctx.outcome() is Ok ==> {
            &&& ctx.enemy_asset.is_active
            &&& ctx.after().enemy_asset.kill_counter == ctx.enemy_asset.kill_counter + 1
            &&& ctx.after().enemy_asset == (crate::state::EnemyAssetAccount {
                kill_counter: ctx.after().enemy_asset.kill_counter,
                ..ctx.enemy_asset
            })
            &&& ctx.after() == (RecordPlayerDeath { enemy_asset: ctx.after().enemy_asset, ..ctx })
        },
        !ctx.enemy_asset.is_active ==> ctx.outcome() is Err && ctx.after() == ctx,
        !ctx.enemy_asset.is_active && ctx.caller_authorized() ==> ctx.outcome() == Err::<(), _>(
            ArenaError::EnemyNotActive,
        ),
        ctx.outcome() is Err ==> ctx.after() == ctx,
{
}

/// The kill counter never decreases.
pub proof fn lemma_kill_counter_monotonic(ctx: RecordPlayerDeath)
    ensures
        ctx.after().enemy_asset.kill_counter >= ctx.enemy_asset.kill_counter,
{
}

/// A caller is refused as unauthorized exactly where it is neither the
/// player's wallet nor the holder of a session token that the wallet issued
/// to it and that has not run out. For an active entity whose counter has
/// room, recording a kill succeeds exactly where the caller is authorized.
pub proof fn lemma_record_death_authorization(ctx: RecordPlayerDeath)
    ensures
        ctx.outcome() == Err::<(), _>(ArenaError::Unauthorized) <==> !authorized(
            ctx.player_account.authority,
            ctx.signer,
            ctx.session_token,
            ctx.clock.unix_timestamp,
        ),
        ctx.enemy_asset.is_active && ctx.enemy_asset.kill_counter < u64::MAX ==> (ctx.outcome() is Ok
            <==> ctx.signer == ctx.player_account.authority || (ctx.session_token matches Some(token)
            && token.authority == ctx.player_account.authority && token.session_signer == ctx.signer
            && ctx.clock.unix_timestamp < token.valid_until)),
{
}

/// A kill counts the same whichever credential brought it: two authorized
/// calls for the same entity, one signed by the wallet and one by a session
/// key, end alike and leave the same entity behind.
pub proof fn lemma_credential_does_not_change_effect(a: RecordPlayerDeath, b: RecordPlayerDeath)
    requires
        a.enemy_asset == b.enemy_asset,
        a.caller_authorized(),
        b.caller_authorized(),
    ensures
        a.outcome() == b.outcome(),
        a.after().enemy_asset == b.after().enemy_asset,
{
}

/// A wallet registers once. The first registration succeeds and stores the
/// wallet as the record's authority; a second one, whatever it brings,
/// fails, and the record is as the first left it.
pub proof fn lemma_second_init_player_fails(first: InitPlayer, second: InitPlayer)
    requires
        first.player_account is None,
        second.player_account == first.after().player_account,
    ensures
        first.outcome() is Ok,
        first.after().player_account == Some(
            crate::state::PlayerAccount { authority: first.signer, bump: first.player_account_bump },
        ),
        second.outcome() == Err::<(), _>(ArenaError::AccountAlreadyInUse),
        second.after() == second,
        second.after().player_account == first.after().player_account,
{
}

} // verus!
