use nina_v2::errors::{NinaError, ERROR_CODE_OFFSET};
use nina_v2::pubkey::Pubkey;
use nina_v2::state::release::{ReleaseV2, RELEASE_LEN, RELEASE_SPACE};

fn sample() -> ReleaseV2 {
    ReleaseV2 {
        authority: Pubkey::new_from_array([1; 32]),
        release_signer: Pubkey::new_from_array([2; 32]),
        mint: Pubkey::new_from_array([3; 32]),
        royalty_token_account: Pubkey::new_from_array([4; 32]),
        payment_mint: Pubkey::new_from_array([5; 32]),
        total_supply: 0x0102_0304_0506_0708,
        price: 1000,
    }
}

#[test]
fn record_fills_176_bytes() {
    assert_eq!(RELEASE_LEN, 176);
    assert_eq!(5 * 32 + 2 * 8, RELEASE_LEN);
    assert!(RELEASE_LEN as u64 + 8 <= RELEASE_SPACE);
    assert_eq!(sample().to_bytes().len(), 176);
}

#[test]
fn record_bytes_are_the_fields_in_order() {
    let bytes = sample().to_bytes();
    let mut expected: Vec<u8> = Vec::new();
    for fill in 1u8..=5 {
        expected.extend_from_slice(&[fill; 32]);
    }
    expected.extend_from_slice(&[8, 7, 6, 5, 4, 3, 2, 1]);
    expected.extend_from_slice(&[0xe8, 0x03, 0, 0, 0, 0, 0, 0]);
    assert_eq!(bytes, expected);
}

#[test]
fn record_bytes_agree_with_the_ledgers_encoding() {
    let record = sample();
    let mut expected: Vec<u8> = Vec::new();
    for key in [record.authority, record.release_signer, record.mint, record.royalty_token_account, record.payment_mint] {
        let ledger = anchor_lang::prelude::Pubkey::new_from_array(key.to_bytes());
        anchor_lang::AnchorSerialize::serialize(&ledger, &mut expected).unwrap();
    }
    anchor_lang::AnchorSerialize::serialize(&record.total_supply, &mut expected).unwrap();
    anchor_lang::AnchorSerialize::serialize(&record.price, &mut expected).unwrap();
    assert_eq!(record.to_bytes(), expected);
}

#[test]
fn record_round_trip() {
    for (total_supply, price) in [(0u64, 0u64), (10, 1000), (u64::MAX, u64::MAX), (1 << 40, 255)] {
        let record = ReleaseV2 { total_supply, price, ..sample() };
        assert_eq!(ReleaseV2::from_bytes(&record.to_bytes()), Some(record));
    }
}

#[test]
fn record_is_read_from_a_larger_account() {
    let mut bytes = sample().to_bytes();
    bytes.resize(224, 0xAB);
    assert_eq!(ReleaseV2::from_bytes(&bytes), Some(sample()));
}

#[test]
fn record_is_not_read_from_too_few_bytes() {
    let bytes = sample().to_bytes();
    assert_eq!(ReleaseV2::from_bytes(&bytes[..175]), None);
    assert_eq!(ReleaseV2::from_bytes(&[]), None);
    assert_eq!(ReleaseV2::from_bytes(&bytes[..176]), Some(sample()));
}

#[test]
fn error_codes_count_from_the_offset() {
    assert_eq!(ERROR_CODE_OFFSET, anchor_lang::error::ERROR_CODE_OFFSET);
    assert_eq!(NinaError::ReleasePurchaseWrongReceiver.code(), 6000);
    assert_eq!(NinaError::ReleasePurchaseWrongAmount.code(), 6001);
    assert_eq!(NinaError::ReleasePurchaseSoldOut.code(), 6002);
    assert_eq!(NinaError::ArithmeticError.code(), 6003);
    assert_eq!(NinaError::DelegatedPayerMismatch.code(), 6004);
}

#[test]
fn error_messages() {
    assert_eq!(NinaError::ReleasePurchaseWrongReceiver.message(), "Release Purchase wrong receiver");
    assert_eq!(NinaError::ReleasePurchaseWrongAmount.message(), "Release Purchase wrong amount");
    assert_eq!(NinaError::ReleasePurchaseSoldOut.message(), "Release Purchase sold out");
    assert_eq!(NinaError::ArithmeticError.message(), "Arithmetic error");
    assert_eq!(NinaError::DelegatedPayerMismatch.message(), "Delegated Payer Mismatch");
}
