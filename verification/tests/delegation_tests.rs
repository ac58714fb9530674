use arena::ledger::{AccountMeta, Instruction};
use arena::{
    delegate_enemy_asset, DelegateEnemyAsset, EnemyAssetAccount, Pubkey, DELEGATION_PROGRAM_ID,
    ID, SYSTEM_PROGRAM_ID,
};

fn named(tag: u8) -> Pubkey {
    Pubkey::new_from_array([tag; 32])
}

fn handoff() -> DelegateEnemyAsset {
    DelegateEnemyAsset {
        enemy_asset_key: named(60),
        enemy_asset: EnemyAssetAccount {
            mint: named(61),
            depositor: named(62),
            deposited_at: 12,
            collection: named(63),
            kill_counter: 4,
            is_active: true,
            bump: 252,
        },
        payer: named(64),
    }
}

#[test]
fn delegation_calls_the_delegation_program() {
    let call = delegate_enemy_asset(&handoff());
    assert_eq!(
        call.instruction,
        Instruction {
            program_id: Pubkey::new_from_array(DELEGATION_PROGRAM_ID),
            accounts: vec![
                AccountMeta { pubkey: named(60), is_signer: false, is_writable: true },
                AccountMeta { pubkey: Pubkey::new_from_array(ID), is_signer: false, is_writable: false },
                AccountMeta { pubkey: named(64), is_signer: true, is_writable: true },
                AccountMeta {
                    pubkey: Pubkey::new_from_array(SYSTEM_PROGRAM_ID),
                    is_signer: false,
                    is_writable: false,
                },
            ],
            data: vec![0],
        }
    );
}

#[test]
fn delegation_signs_with_the_entity_seeds_and_bump() {
    let call = delegate_enemy_asset(&handoff());
    assert_eq!(call.signer_seeds, vec![b"enemy_asset".to_vec(), vec![61u8; 32], vec![252u8]]);
}

#[test]
fn delegation_seeds_derive_the_entity_address() {
    let mint = named(61);
    let (address, bump) = arena::address::find_enemy_asset_address(&mint).unwrap();
    let ctx = DelegateEnemyAsset {
        enemy_asset_key: address,
        enemy_asset: EnemyAssetAccount { bump, ..handoff().enemy_asset },
        payer: named(64),
    };
    let call = delegate_enemy_asset(&ctx);
    let seeds: Vec<&[u8]> = call.signer_seeds.iter().map(|seed| seed.as_slice()).collect();
    let program = anchor_lang::prelude::Pubkey::new_from_array(ID);
    let derived = anchor_lang::prelude::Pubkey::create_program_address(&seeds, &program).unwrap();
    assert_eq!(derived.to_bytes(), address.to_bytes());
}

#[test]
fn account_meta_constructors_set_writability() {
    assert_eq!(
        AccountMeta::new(named(1), true),
        AccountMeta { pubkey: named(1), is_signer: true, is_writable: true }
    );
    assert_eq!(
        AccountMeta::new_readonly(named(1), false),
        AccountMeta { pubkey: named(1), is_signer: false, is_writable: false }
    );
}
