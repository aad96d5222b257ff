//! Tests of the configuration-record byte layout and the schema upgrade.

use doomsday_market::layout::migrate_platform;
use doomsday_market::layout::CONFIG_LEN;
use doomsday_market::layout::LEGACY_CONFIG_LEN;
use doomsday_market::PredictionError;

fn legacy_record(authority: &[u8; 32]) -> Vec<u8> {
    let mut data = vec![0u8; LEGACY_CONFIG_LEN];
    data[0..8].copy_from_slice(&[0xAA; 8]);
    data[8..40].copy_from_slice(authority);
    data[40..72].copy_from_slice(&[2u8; 32]);
    data[72..74].copy_from_slice(&200u16.to_le_bytes());
    data[74] = 1;
    data[75..83].copy_from_slice(&111u64.to_le_bytes());
    data[83..91].copy_from_slice(&222u64.to_le_bytes());
    data[91..99].copy_from_slice(&333u64.to_le_bytes());
    data[99..107].copy_from_slice(&444u64.to_le_bytes());
    data[107] = 0xFE;
    data
}

#[test]
fn migrate_inserts_mints_and_keeps_fields() {
    let authority = [7u8; 32];
    let data = legacy_record(&authority);
    let doom_mint = vec![3u8; 32];
    let life_mint = vec![4u8; 32];
    let out = migrate_platform(&data, &authority.to_vec(), &doom_mint, &life_mint).unwrap();

    assert_eq!(out.len(), CONFIG_LEN);
    // discriminator, authority, and oracle stay in place
    assert_eq!(&out[0..72], &data[0..72]);
    // the two mint keys are inserted
    assert_eq!(&out[72..104], &doom_mint[..]);
    assert_eq!(&out[104..136], &life_mint[..]);
    // everything behind them is carried over byte for byte
    assert_eq!(&out[136..138], &200u16.to_le_bytes());
    assert_eq!(out[138], 1);
    assert_eq!(&out[139..147], &111u64.to_le_bytes());
    assert_eq!(&out[147..155], &222u64.to_le_bytes());
    assert_eq!(&out[155..163], &333u64.to_le_bytes());
    assert_eq!(&out[163..171], &444u64.to_le_bytes());
    assert_eq!(out[171], 0xFE);
}

#[test]
fn migrate_passes_a_current_record_through() {
    let authority = [7u8; 32];
    let mut data = vec![9u8; CONFIG_LEN];
    data[8..40].copy_from_slice(&authority);
    let out =
        migrate_platform(&data, &authority.to_vec(), &vec![3u8; 32], &vec![4u8; 32]).unwrap();
    assert_eq!(out, data);
}

#[test]
fn migrate_rejects_a_wrong_authority() {
    let authority = [7u8; 32];
    let data = legacy_record(&authority);
    let wrong = vec![8u8; 32];
    let r = migrate_platform(&data, &wrong, &vec![3u8; 32], &vec![4u8; 32]);
    assert_eq!(r.unwrap_err(), PredictionError::Unauthorized);
}
