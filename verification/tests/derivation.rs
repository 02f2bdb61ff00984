use anchor_lang::prelude::Pubkey as LedgerKey;
use nina_v2::cpi::SignerSeeds;
use nina_v2::pubkey::{try_find_program_address, Pubkey, MAX_SEEDS, MAX_SEED_LEN};
use nina_v2::seeds::{
    find_release_address, find_release_signer, get_associated_token_address_with_program_id, release_seed,
    ASSOCIATED_TOKEN_PROGRAM_ID, RELEASE_SEED,
};

fn key_of(fill: u8) -> Pubkey {
    let mut bytes = [fill; 32];
    bytes[0] = fill.wrapping_mul(7).wrapping_add(3);
    bytes[31] = fill.wrapping_add(101);
    Pubkey::new_from_array(bytes)
}

fn ledger(key: &Pubkey) -> LedgerKey {
    LedgerKey::new_from_array(key.to_bytes())
}

#[test]
fn pubkey_keeps_its_bytes() {
    let bytes = [9u8; 32];
    let key = Pubkey::new_from_array(bytes);
    assert_eq!(key.to_bytes(), bytes);
    assert_eq!(key.to_vec(), bytes.to_vec());
    assert_eq!(key.bytes, bytes);
}

#[test]
fn pubkeys_compare_by_bytes() {
    let mut other = [4u8; 32];
    assert!(Pubkey::new_from_array([4u8; 32]) == Pubkey::new_from_array(other));
    other[31] = 5;
    assert!(Pubkey::new_from_array([4u8; 32]) != Pubkey::new_from_array(other));
    other[31] = 4;
    other[0] = 5;
    assert!(Pubkey::new_from_array([4u8; 32]) != Pubkey::new_from_array(other));
}

#[test]
fn release_seed_is_the_tag() {
    assert_eq!(release_seed(), b"nina-release".to_vec());
    assert_eq!(RELEASE_SEED.to_vec(), b"nina-release".to_vec());
}

#[test]
fn associated_token_program_id_is_the_ledgers() {
    assert_eq!(ASSOCIATED_TOKEN_PROGRAM_ID, anchor_spl::associated_token::ID.to_bytes());
}

#[test]
fn seed_limits_are_the_ledgers() {
    assert_eq!(MAX_SEEDS, anchor_lang::solana_program::pubkey::MAX_SEEDS);
    assert_eq!(MAX_SEED_LEN, anchor_lang::solana_program::pubkey::MAX_SEED_LEN);
}

#[test]
fn derive_agrees_with_the_ledger() {
    let program = key_of(200);
    let mut derived = 0;
    let mut refused = 0;
    for fill in 0u8..6 {
        let release = key_of(fill);
        for bump in [255u8, 254, 253, 200, 1, 0] {
            let seeds = SignerSeeds { release, bump };
            let expected =
                LedgerKey::create_program_address(&[release.bytes.as_ref(), &[bump]], &ledger(&program)).ok();
            let found = seeds.derive(&program);
            assert_eq!(found.map(|k| k.to_bytes()), expected.map(|k| k.to_bytes()));
            match found {
                Some(signer) => {
                    derived += 1;
                    assert!(signer != release);
                    assert!(seeds.verify(&signer, &program));
                    assert!(!seeds.verify(&release, &program));
                }
                None => {
                    refused += 1;
                    assert!(!seeds.verify(&release, &program));
                }
            }
        }
    }
    assert!(derived > 0);
    assert!(refused > 0);
}

#[test]
fn signer_seeds_are_the_record_then_the_bump() {
    let release = key_of(17);
    let seeds = SignerSeeds { release, bump: 250 };
    assert_eq!(seeds.seeds(), vec![release.to_vec(), vec![250u8]]);
}

#[test]
fn derived_signer_depends_on_the_program() {
    let release = key_of(1);
    let (signer, bump) = find_release_signer(&release, &key_of(50)).unwrap();
    let seeds = SignerSeeds { release, bump };
    assert!(seeds.verify(&signer, &key_of(50)));
    assert!(!seeds.verify(&signer, &key_of(51)));
}

#[test]
fn find_agrees_with_the_ledger() {
    let program = key_of(77);
    for fill in 0u8..8 {
        let a = key_of(fill);
        let b = key_of(fill.wrapping_add(100));
        let expected = LedgerKey::try_find_program_address(&[a.bytes.as_ref(), b.bytes.as_ref()], &ledger(&program));
        let found = try_find_program_address(vec![a.to_vec(), b.to_vec()], &program);
        assert_eq!(found.map(|(k, bump)| (k.to_bytes(), bump)), expected.map(|(k, bump)| (k.to_bytes(), bump)));
        assert!(found.is_some());
    }
}

#[test]
fn find_takes_the_greatest_bump_that_derives() {
    let program = key_of(33);
    let mut below_top = 0;
    for fill in 0u8..40 {
        let release = key_of(fill);
        let (signer, bump) = find_release_signer(&release, &program).unwrap();
        assert!(bump >= 1);
        assert_eq!(SignerSeeds { release, bump }.derive(&program), Some(signer));
        let mut higher = bump;
        while higher < 255 {
            higher += 1;
            assert_eq!(SignerSeeds { release, bump: higher }.derive(&program), None);
        }
        if bump < 255 {
            below_top += 1;
        }
    }
    assert!(below_top > 0);
}

#[test]
fn find_without_seeds_agrees_with_the_ledger() {
    let program = key_of(5);
    let expected = LedgerKey::try_find_program_address(&[], &ledger(&program));
    let found = try_find_program_address(Vec::new(), &program);
    assert_eq!(found.map(|(k, bump)| (k.to_bytes(), bump)), expected.map(|(k, bump)| (k.to_bytes(), bump)));
}

#[test]
fn too_long_a_seed_derives_nothing() {
    let program = key_of(5);
    assert_eq!(try_find_program_address(vec![vec![1u8; 33]], &program), None);
    assert!(try_find_program_address(vec![vec![1u8; 32]], &program).is_some());
}

#[test]
fn too_many_seeds_derive_nothing() {
    let program = key_of(5);
    let sixteen: Vec<Vec<u8>> = (0u8..16).map(|i| vec![i]).collect();
    assert_eq!(try_find_program_address(sixteen, &program), None);
    let fifteen: Vec<Vec<u8>> = (0u8..15).map(|i| vec![i]).collect();
    assert!(try_find_program_address(fifteen, &program).is_some());
}

#[test]
fn release_address_agrees_with_the_ledger() {
    let program = key_of(90);
    for fill in 0u8..5 {
        let mint = key_of(fill);
        let (expected, expected_bump) =
            LedgerKey::find_program_address(&[b"nina-release", mint.bytes.as_ref()], &ledger(&program));
        let (found, bump) = find_release_address(&mint, &program).unwrap();
        assert_eq!(found.to_bytes(), expected.to_bytes());
        assert_eq!(bump, expected_bump);
    }
}

#[test]
fn release_signer_agrees_with_the_ledger() {
    let program = key_of(91);
    for fill in 0u8..5 {
        let release = key_of(fill);
        let (expected, expected_bump) = LedgerKey::find_program_address(&[release.bytes.as_ref()], &ledger(&program));
        let (found, bump) = find_release_signer(&release, &program).unwrap();
        assert_eq!(found.to_bytes(), expected.to_bytes());
        assert_eq!(bump, expected_bump);
    }
}

#[test]
fn associated_token_address_agrees_with_the_ledger() {
    for fill in 0u8..5 {
        let wallet = key_of(fill);
        let mint = key_of(fill.wrapping_add(40));
        for token_program in [anchor_spl::token::ID, anchor_spl::token_2022::ID] {
            let expected = anchor_spl::associated_token::get_associated_token_address_with_program_id(
                &ledger(&wallet),
                &ledger(&mint),
                &token_program,
            );
            let found = get_associated_token_address_with_program_id(
                &wallet,
                &mint,
                &Pubkey::new_from_array(token_program.to_bytes()),
            );
            assert_eq!(found.map(|k| k.to_bytes()), Some(expected.to_bytes()));
        }
    }
}
