use aes::cipher::{Block, BlockEncrypt, KeyInit};
use aes::Aes128;
use aurisd::aap::codec::BatteryComponent;
use aurisd::address::Address;
use aurisd::ble::{decode, key_bytes, resolves, BleConfig};

fn advert(status: u8, values: [u8; 3]) -> Vec<u8> {
    // Synthetic fixture, not a captured packet.
    let mut out = vec![7, 25, 1, 0x1b, 0x20, status, 0, 0, 0, 0, 0];
    let mut block = Block::<Aes128>::default();
    block[1..4].copy_from_slice(&values);
    Aes128::new(&[0; 16].into()).encrypt_block(&mut block);
    out.extend_from_slice(&block);
    out
}

#[test]
fn bluetooth_spec_ah_vector_and_wrong_identity() {
    // Bluetooth Core ah sample: IRK ec0234...7d9b, prand 708194,
    // hash 0dfbaa. AAP exports the IRK in reverse byte order.
    let irk = key_bytes("9b7d390aa610103405adc857a33402ec").unwrap();
    assert!(resolves(Address::parse("70:81:94:0D:FB:AA").unwrap(), &irk));
    assert!(!resolves(Address::parse("70:81:94:0D:FB:AB").unwrap(), &irk));
    assert!(!resolves(Address::parse("F0:81:94:0D:FB:AA").unwrap(), &irk));
}

#[test]
fn exact_zero_charging_and_primary_side_mapping() {
    let entries = decode(&advert(0x60, [0x80, 99, 0x80 | 45]), &[0; 16]).unwrap();
    assert_eq!(entries.len(), 3);
    assert_eq!(entries[0].component, BatteryComponent::Left);
    assert_eq!(entries[0].level, Some(0));
    assert!(entries[0].charging);
    assert_eq!(entries[2].level, Some(45));
    let reversed = decode(&advert(0x40, [10, 80, 33]), &[0; 16]).unwrap();
    assert_eq!(reversed[0].level, Some(80));
    assert_eq!(reversed[1].level, Some(10));
}

#[test]
fn unknown_is_not_a_fresh_reading_and_case_requires_reporting_bud() {
    let entries = decode(&advert(0x20, [30, 127, 90]), &[0; 16]).unwrap();
    assert_eq!(entries.len(), 1);
    assert_eq!(entries[0].component, BatteryComponent::Left);
    assert!(decode(&advert(0x60, [127, 255, 127]), &[0; 16]).is_none());
}

#[test]
fn malformed_wrong_model_pairing_and_invalid_percent_are_rejected() {
    let valid = advert(0x60, [30, 50, 90]);
    for len in 0..valid.len() {
        assert!(decode(&valid[..len], &[0; 16]).is_none());
    }
    for (index, value) in [(0, 8), (1, 24), (2, 0), (3, 0x14)] {
        let mut bad = valid.clone();
        bad[index] = value;
        assert!(decode(&bad, &[0; 16]).is_none());
    }
    assert!(decode(&advert(0x60, [101, 50, 90]), &[0; 16]).is_none());
}

#[test]
fn configuration_is_opt_in_and_bounded() {
    let mut config = BleConfig::default();
    assert!(!config.enabled);
    assert!(config.validate().is_ok());
    config.enabled = true;
    assert!(config.validate().is_err());
    config.key_file = Some("/private/keys.json".into());
    assert!(config.validate().is_ok());
    config.scan_seconds = 300;
    assert!(config.validate().is_err());
    config.scan_seconds = u64::MAX;
    config.interval_seconds = u64::MAX;
    config.freshness_seconds = u64::MAX;
    assert!(config.validate().is_err());
}

