use arena::address::find_metadata_address;
use arena::ledger::{Clock, MetadataAccount, Mint, TokenAccount};
use arena::{
    deposit_nft, init_arena, set_whitelist, ArenaError, DepositNft, EnemyAssetAccount, InitArena,
    Pubkey, SetWhitelist,
};

fn who(tag: u8) -> Pubkey {
    Pubkey::new_from_array([tag; 32])
}

fn counted(out: &mut Vec<u8>, value: &[u8]) {
    out.extend_from_slice(&(value.len() as u32).to_le_bytes());
    out.extend_from_slice(value);
}

fn metadata_of(mint: Pubkey, collection: Pubkey) -> MetadataAccount {
    let mut data = vec![4u8];
    data.extend_from_slice(&[0u8; 32]);
    data.extend_from_slice(&mint.to_bytes());
    counted(&mut data, b"Ogre");
    counted(&mut data, b"OGR");
    counted(&mut data, b"");
    data.extend_from_slice(&[0, 0, 0, 0, 1, 0]);
    data.extend_from_slice(&[1, 0]);
    data.push(1);
    data.push(1);
    data.extend_from_slice(&collection.to_bytes());
    data.extend_from_slice(&[0, 0, 0]);
    MetadataAccount { key: find_metadata_address(&mint).unwrap().0, data }
}

#[test]
fn admin_whitelists_and_users_deposit() {
    let admin = who(1);
    let user = who(2);
    let (c1, c2, c3) = (who(101), who(102), who(103));
    let (m1, m2) = (who(201), who(202));

    let mut setup = InitArena {
        admin,
        arena_config: None,
        arena_vault: None,
        arena_config_bump: 255,
        arena_vault_bump: 254,
    };
    assert_eq!(init_arena(&mut setup), Ok(()));
    let config = setup.arena_config.unwrap();
    assert_eq!(config.admin, admin);
    assert!(config.whitelisted_collections.is_empty());

    let mut listing = SetWhitelist { admin, arena_config: config };
    assert_eq!(set_whitelist(&mut listing, vec![c1, c2]), Ok(()));
    assert_eq!(listing.arena_config.whitelisted_collections, vec![c1, c2]);

    let mut first = DepositNft {
        user,
        mint: Mint { key: m1, decimals: 0, supply: 1 },
        user_ata: TokenAccount { key: who(3), amount: 1 },
        vault_ata: who(4),
        metadata: metadata_of(m1, c1),
        arena_config: listing.arena_config.clone(),
        enemy_asset: None,
        enemy_asset_bump: 253,
        clock: Clock { unix_timestamp: 1_000 },
    };
    let asked = deposit_nft(&mut first).unwrap();
    assert_eq!((asked.from, asked.to, asked.amount), (who(3), who(4), 1));
    assert_eq!(
        first.enemy_asset,
        Some(EnemyAssetAccount {
            mint: m1,
            depositor: user,
            deposited_at: 1_000,
            collection: c1,
            kill_counter: 0,
            is_active: true,
            bump: 253,
        })
    );

    let mut second = DepositNft {
        user,
        mint: Mint { key: m2, decimals: 0, supply: 1 },
        user_ata: TokenAccount { key: who(5), amount: 1 },
        vault_ata: who(6),
        metadata: metadata_of(m2, c3),
        arena_config: listing.arena_config.clone(),
        enemy_asset: None,
        enemy_asset_bump: 252,
        clock: Clock { unix_timestamp: 1_001 },
    };
    assert_eq!(deposit_nft(&mut second), Err(ArenaError::CollectionNotWhitelisted));
    assert_eq!(second.enemy_asset, None);
}
