use arena::address::find_metadata_address;
use arena::deposit::check_shape;
use arena::ledger::{Clock, MetadataAccount, Mint, TokenAccount, TransferChecked};
use arena::metadata::{check_policy, AssetMetadata, Collection, TokenStandard};
use arena::{
    admit_deposit, deposit_nft, ArenaConfig, ArenaError, DepositNft, EnemyAssetAccount, ErrorKind,
    Pubkey,
};

const MINT: [u8; 32] = [21; 32];
const LISTED: [u8; 32] = [31; 32];
const UNLISTED: [u8; 32] = [33; 32];

fn pk(bytes: [u8; 32]) -> Pubkey {
    Pubkey::new_from_array(bytes)
}

fn text(out: &mut Vec<u8>, value: &str) {
    out.extend_from_slice(&(value.len() as u32).to_le_bytes());
    out.extend_from_slice(value.as_bytes());
}

/// The bytes of a metadata record as the registry lays them out.
fn record(mint: [u8; 32], standard: Option<u8>, collection: Option<(bool, [u8; 32])>) -> Vec<u8> {
    let mut out = vec![4u8];
    out.extend_from_slice(&[9u8; 32]);
    out.extend_from_slice(&mint);
    text(&mut out, "Goblin #7");
    text(&mut out, "GOB");
    text(&mut out, "https://example.invalid/7.json");
    out.extend_from_slice(&500u16.to_le_bytes());
    out.push(0);
    out.push(1);
    out.push(1);
    out.extend_from_slice(&[1, 255]);
    match standard {
        Some(tag) => out.extend_from_slice(&[1, tag]),
        None => out.push(0),
    }
    match collection {
        Some((verified, key)) => {
            out.push(1);
            out.push(verified as u8);
            out.extend_from_slice(&key);
        }
        None => out.push(0),
    }
    out.extend_from_slice(&[0, 0, 0]);
    out
}

fn canonical(mint: [u8; 32]) -> Pubkey {
    find_metadata_address(&pk(mint)).unwrap().0
}

fn offer(data: Vec<u8>) -> DepositNft {
    DepositNft {
        user: pk([11; 32]),
        mint: Mint { key: pk(MINT), decimals: 0, supply: 1 },
        user_ata: TokenAccount { key: pk([12; 32]), amount: 1 },
        vault_ata: pk([13; 32]),
        metadata: MetadataAccount { key: canonical(MINT), data },
        arena_config: ArenaConfig {
            admin: pk([1; 32]),
            whitelisted_collections: vec![pk([30; 32]), pk(LISTED)],
            bump: 254,
        },
        enemy_asset: None,
        enemy_asset_bump: 248,
        clock: Clock { unix_timestamp: 1_722_000_000 },
    }
}

fn good() -> DepositNft {
    offer(record(MINT, Some(0), Some((true, LISTED))))
}

fn refused(mut ctx: DepositNft, reason: ArenaError) {
    let before = ctx.clone();
    assert_eq!(deposit_nft(&mut ctx), Err(reason));
    assert_eq!(ctx, before);
}

#[test]
fn deposit_creates_the_entity_and_asks_for_one_unit() {
    let mut ctx = good();
    let before = ctx.clone();
    assert_eq!(
        deposit_nft(&mut ctx),
        Ok(TransferChecked {
            from: pk([12; 32]),
            mint: pk(MINT),
            to: pk([13; 32]),
            authority: pk([11; 32]),
            amount: 1,
            decimals: 0,
        })
    );
    assert_eq!(
        ctx.enemy_asset,
        Some(EnemyAssetAccount {
            mint: pk(MINT),
            depositor: pk([11; 32]),
            deposited_at: 1_722_000_000,
            collection: pk(LISTED),
            kill_counter: 0,
            is_active: true,
            bump: 248,
        })
    );
    assert_eq!(ctx, DepositNft { enemy_asset: ctx.enemy_asset, ..before });
}

#[test]
fn deposit_reads_the_record_with_the_registry_decoder() {
    let bytes = record(MINT, Some(0), Some((true, LISTED)));
    let decoded = mpl_token_metadata::accounts::Metadata::safe_deserialize(&bytes).unwrap();
    assert_eq!(decoded.mint.to_bytes(), MINT);
    assert_eq!(decoded.name, "Goblin #7");
    assert_eq!(decoded.token_standard, Some(mpl_token_metadata::types::TokenStandard::NonFungible));
    let collection = decoded.collection.unwrap();
    assert!(collection.verified);
    let mut ctx = offer(bytes);
    assert!(deposit_nft(&mut ctx).is_ok());
    assert_eq!(ctx.enemy_asset.unwrap().collection.to_bytes(), collection.key.to_bytes());
}

#[test]
fn deposit_requires_exactly_one_unit_held() {
    for amount in [0u64, 2, u64::MAX] {
        let mut ctx = good();
        ctx.user_ata.amount = amount;
        refused(ctx, ArenaError::InvalidNftAmount);
    }
}

#[test]
fn deposit_requires_no_decimals() {
    let mut ctx = good();
    ctx.mint.decimals = 6;
    refused(ctx, ArenaError::InvalidNftDecimals);
}

#[test]
fn deposit_requires_a_supply_of_one() {
    for supply in [0u64, 2] {
        let mut ctx = good();
        ctx.mint.supply = supply;
        refused(ctx, ArenaError::InvalidNftSupply);
    }
}

#[test]
fn deposit_names_the_first_shape_fault() {
    let mut ctx = good();
    ctx.user_ata.amount = 0;
    ctx.mint.decimals = 9;
    ctx.mint.supply = 1000;
    assert_eq!(check_shape(&ctx), Err(ArenaError::InvalidNftAmount));
    ctx.user_ata.amount = 1;
    assert_eq!(check_shape(&ctx), Err(ArenaError::InvalidNftDecimals));
    ctx.mint.decimals = 0;
    assert_eq!(check_shape(&ctx), Err(ArenaError::InvalidNftSupply));
    ctx.mint.supply = 1;
    assert_eq!(check_shape(&ctx), Ok(()));
    assert_eq!(ArenaError::InvalidNftSupply.kind(), ErrorKind::AssetShape);
}

#[test]
fn deposit_refuses_a_record_at_another_address() {
    let mut ctx = good();
    ctx.metadata.key = canonical([22; 32]);
    refused(ctx, ArenaError::InvalidMetadata);
    let mut ctx = good();
    ctx.metadata.key = pk(MINT);
    refused(ctx, ArenaError::InvalidMetadata);
}

#[test]
fn deposit_refuses_bytes_that_do_not_decode() {
    refused(offer(vec![]), ArenaError::InvalidMetadata);
    let mut wrong_kind = record(MINT, Some(0), Some((true, LISTED)));
    wrong_kind[0] = 6;
    refused(offer(wrong_kind), ArenaError::InvalidMetadata);
    let mut cut = record(MINT, Some(0), Some((true, LISTED)));
    cut.truncate(40);
    refused(offer(cut), ArenaError::InvalidMetadata);
}

#[test]
fn deposit_refuses_programmable_assets() {
    refused(offer(record(MINT, Some(4), Some((true, LISTED)))), ArenaError::InvalidTokenStandard);
    refused(offer(record(MINT, Some(2), Some((true, LISTED)))), ArenaError::InvalidTokenStandard);
}

#[test]
fn deposit_accepts_a_record_without_token_standard() {
    let mut ctx = offer(record(MINT, None, Some((true, LISTED))));
    assert!(deposit_nft(&mut ctx).is_ok());
    assert_eq!(ctx.enemy_asset.unwrap().collection, pk(LISTED));
}

#[test]
fn deposit_requires_a_collection() {
    refused(offer(record(MINT, Some(0), None)), ArenaError::NoCollection);
}

#[test]
fn deposit_finds_no_collection_in_a_record_that_ends_early() {
    let mut early = record(MINT, Some(0), Some((true, LISTED)));
    let fixed_part = 1 + 32 + 32 + (4 + 9) + (4 + 3) + (4 + 30) + 2 + 1 + 1 + 1 + 2;
    early.truncate(fixed_part);
    let decoded = mpl_token_metadata::accounts::Metadata::safe_deserialize(&early).unwrap();
    assert_eq!(decoded.collection, None);
    refused(offer(early), ArenaError::NoCollection);
}

#[test]
fn deposit_reads_a_record_padded_to_its_account_size() {
    let mut padded = record(MINT, Some(0), Some((true, LISTED)));
    padded.resize(679, 0);
    let mut ctx = offer(padded);
    assert!(deposit_nft(&mut ctx).is_ok());
    assert_eq!(ctx.enemy_asset.unwrap().collection, pk(LISTED));
}

#[test]
fn deposit_requires_a_verified_collection() {
    refused(offer(record(MINT, Some(0), Some((false, LISTED)))), ArenaError::CollectionNotVerified);
}

#[test]
fn deposit_requires_a_whitelisted_collection() {
    refused(
        offer(record(MINT, Some(0), Some((true, UNLISTED)))),
        ArenaError::CollectionNotWhitelisted,
    );
    let mut ctx = good();
    ctx.arena_config.whitelisted_collections = vec![];
    refused(ctx, ArenaError::CollectionNotWhitelisted);
}

#[test]
fn deposit_judges_verification_before_the_whitelist() {
    refused(offer(record(MINT, Some(0), Some((false, UNLISTED)))), ArenaError::CollectionNotVerified);
    refused(offer(record(MINT, Some(4), None)), ArenaError::InvalidTokenStandard);
}

#[test]
fn second_deposit_of_an_asset_fails() {
    let mut ctx = good();
    assert!(deposit_nft(&mut ctx).is_ok());
    let stored = ctx.enemy_asset;
    ctx.clock = Clock { unix_timestamp: 1_722_000_999 };
    let before = ctx.clone();
    assert_eq!(deposit_nft(&mut ctx), Err(ArenaError::AccountAlreadyInUse));
    assert_eq!(ctx, before);
    assert_eq!(ctx.enemy_asset, stored);
}

#[test]
fn admit_deposit_decides_from_what_it_is_given() {
    let plain = AssetMetadata {
        token_standard: Some(TokenStandard::NonFungible),
        collection: Some(Collection { verified: true, key: pk(LISTED) }),
    };
    let mut ctx = offer(vec![]);
    ctx.metadata.key = pk([77; 32]);
    let before = ctx.clone();
    assert_eq!(
        admit_deposit(&mut ctx, Some((pk([78; 32]), 255)), Some(plain)),
        Err(ArenaError::InvalidMetadata)
    );
    assert_eq!(admit_deposit(&mut ctx, None, Some(plain)), Err(ArenaError::InvalidMetadata));
    assert_eq!(
        admit_deposit(&mut ctx, Some((pk([77; 32]), 255)), None),
        Err(ArenaError::InvalidMetadata)
    );
    assert_eq!(ctx, before);
    let asked = admit_deposit(&mut ctx, Some((pk([77; 32]), 255)), Some(plain)).unwrap();
    assert_eq!(asked.amount, 1);
    assert_eq!(asked.decimals, 0);
    assert_eq!(ctx.enemy_asset.unwrap().kill_counter, 0);
    assert!(ctx.enemy_asset.unwrap().is_active);
}

#[test]
fn policy_checks_come_in_order() {
    let config = ArenaConfig { admin: pk([1; 32]), whitelisted_collections: vec![pk(LISTED)], bump: 0 };
    let verdict = |standard, collection| check_policy(&AssetMetadata { token_standard: standard, collection }, &config);
    let listed = |verified| Some(Collection { verified, key: pk(LISTED) });
    assert_eq!(verdict(Some(TokenStandard::NonFungible), listed(true)), Ok(pk(LISTED)));
    assert_eq!(verdict(None, listed(true)), Ok(pk(LISTED)));
    for standard in [
        TokenStandard::FungibleAsset,
        TokenStandard::Fungible,
        TokenStandard::NonFungibleEdition,
        TokenStandard::ProgrammableNonFungible,
        TokenStandard::ProgrammableNonFungibleEdition,
    ] {
        assert_eq!(verdict(Some(standard), listed(true)), Err(ArenaError::InvalidTokenStandard));
    }
    assert_eq!(verdict(None, None), Err(ArenaError::NoCollection));
    assert_eq!(verdict(None, listed(false)), Err(ArenaError::CollectionNotVerified));
    assert_eq!(
        verdict(None, Some(Collection { verified: true, key: pk(UNLISTED) })),
        Err(ArenaError::CollectionNotWhitelisted)
    );
}

#[test]
fn every_token_standard_of_the_registry_is_told_apart() {
    for (tag, accepted) in [(0u8, true), (1, false), (2, false), (3, false), (4, false), (5, false)] {
        let mut ctx = offer(record(MINT, Some(tag), Some((true, LISTED))));
        let asked = deposit_nft(&mut ctx);
        if accepted {
            assert!(asked.is_ok());
        } else {
            assert_eq!(asked, Err(ArenaError::InvalidTokenStandard));
        }
    }
}
