//! Adverts: keys, addresses that are followed, and what they publish.

use aes::cipher::{Block, BlockEncrypt, KeyInit};
use aes::Aes128;
use aurisd::aap::codec::BatteryComponent;
use aurisd::address::Address;
use aurisd::autoconnect::{model_bytes, qualifies, Scanner, Sighting, WATCHED_CAP as SCANNER_CAP};
use aurisd::ble::{
    cell, decode, follow, hash_matches, key_bytes, key_file_is_private, keys_for, observed,
    readings, BleConfig, KeyFile, Keys, BOUNDS_TEXT, KEY_DIGIT_TEXT, KEY_FILE_LIMIT,
    KEY_IDENTITY_TEXT, KEY_LENGTH_TEXT, KEY_PATH_TEXT, WATCHED_CAP,
};
use aurisd::config::PrimaryBud;
use aurisd::state::Snapshot;
use aurisd::store::{Store, Update};
use aurisd::text::{chars_of, parse_hex};

const IRK: &str = "9b7d390aa610103405adc857a33402ec";
const PINNED: &str = "BC:80:4E:01:02:03";

fn pinned() -> Address {
    Address::parse(PINNED).unwrap()
}

fn advert(key: [u8; 16], status: u8, values: [u8; 3]) -> Vec<u8> {
    let mut out = vec![7, 25, 1, 0x1b, 0x20, status, 0, 0, 0, 0, 0];
    let mut block = Block::<Aes128>::default();
    block[1..4].copy_from_slice(&values);
    Aes128::new(&key.into()).encrypt_block(&mut block);
    out.extend_from_slice(&block);
    out
}

fn host(last: u8) -> Address {
    Address([0x40, 0, 0, 0, 0, last])
}

#[test]
fn a_key_is_thirty_two_hexadecimal_digits() {
    let key = key_bytes(IRK).unwrap();
    assert_eq!(key[0], 0x9b);
    assert_eq!(key[15], 0xec);
    assert_eq!(key_bytes(&IRK.to_uppercase()), Ok(key));
    assert_eq!(key_bytes(&IRK[1..]), Err(KEY_LENGTH_TEXT.to_owned()));
    assert_eq!(key_bytes(&"é".repeat(16)), Err(KEY_LENGTH_TEXT.to_owned()));
    assert_eq!(
        key_bytes(&IRK.replace('9', "g")),
        Err(KEY_DIGIT_TEXT.to_owned())
    );
}

#[test]
fn keys_belong_to_the_pinned_device() {
    let keys = keys_for(pinned(), "bc:80:4e:01:02:03", IRK, &"00".repeat(16));
    assert!(keys.is_ok());
    let fault = |address: &str, irk: &str, key: &str| keys_for(pinned(), address, irk, key).err();
    assert_eq!(
        fault("BC:80:4E:01:02:04", IRK, IRK),
        Some(KEY_IDENTITY_TEXT.to_owned())
    );
    assert_eq!(fault("nobody", IRK, IRK), Some(KEY_IDENTITY_TEXT.to_owned()));
    assert_eq!(fault(PINNED, "", IRK), Some(KEY_LENGTH_TEXT.to_owned()));
    assert_eq!(
        fault(PINNED, IRK, &"zz".repeat(16)),
        Some(KEY_DIGIT_TEXT.to_owned())
    );
}

#[test]
fn a_key_file_is_private_to_its_owner() {
    let file = KeyFile {
        is_file: true,
        uid: 1000,
        mode: 0o100600,
        len: KEY_FILE_LIMIT,
    };
    assert!(key_file_is_private(file, 1000));
    assert!(!key_file_is_private(file, 1001));
    assert!(!key_file_is_private(KeyFile { mode: 0o100640, ..file }, 1000));
    assert!(!key_file_is_private(KeyFile { mode: 0o100601, ..file }, 1000));
    assert!(!key_file_is_private(KeyFile { is_file: false, ..file }, 1000));
    assert!(!key_file_is_private(KeyFile { len: KEY_FILE_LIMIT + 1, ..file }, 1000));
}

#[test]
fn each_configuration_fault_has_its_own_words() {
    let mut config = BleConfig::default();
    config.interval_seconds = config.scan_seconds + 4;
    assert_eq!(config.validate(), Err(BOUNDS_TEXT.to_owned()));
    let mut config = BleConfig::default();
    config.enabled = true;
    config.key_file = Some("keys.json".into());
    assert_eq!(config.validate(), Err(KEY_PATH_TEXT.to_owned()));
}

#[test]
fn only_a_resolvable_address_carries_a_hash() {
    let mut hash = [0u8; 16];
    hash[13..].copy_from_slice(&[1, 2, 3]);
    assert!(hash_matches(Address([0x7f, 9, 9, 1, 2, 3]), hash));
    assert!(!hash_matches(Address([0x80, 9, 9, 1, 2, 3]), hash));
    assert!(!hash_matches(Address([0x3f, 9, 9, 1, 2, 3]), hash));
    assert!(!hash_matches(Address([0x40, 9, 9, 1, 2, 4]), hash));
}

#[test]
fn a_cell_byte_is_seven_bits_of_level_and_one_of_charging() {
    let entry = cell(BatteryComponent::Left, 0x80 | 100).unwrap();
    assert_eq!((entry.level, entry.charging, entry.present), (Some(100), true, true));
    assert!(cell(BatteryComponent::Left, 101).is_none());
    let mut block = [0u8; 16];
    block[1..4].copy_from_slice(&[10, 20, 30]);
    let sides = |status: u8| -> Vec<(BatteryComponent, Option<u8>)> {
        let entries = readings(status, block).unwrap();
        entries.iter().map(|e| (e.component, e.level)).collect()
    };
    assert_eq!(
        sides(0x20),
        [(BatteryComponent::Left, Some(10)), (BatteryComponent::Right, Some(20))]
    );
    assert_eq!(
        sides(0x40),
        [
            (BatteryComponent::Left, Some(20)),
            (BatteryComponent::Right, Some(10)),
            (BatteryComponent::Case, Some(30)),
        ]
    );
}

#[test]
fn an_advert_is_read_under_the_accessorys_key_alone() {
    let key = key_bytes(IRK).unwrap();
    let data = advert(key, 0x60, [10, 20, 30]);
    let entries = decode(&data, &key).unwrap();
    assert_eq!(entries.iter().map(|e| e.level).collect::<Vec<_>>(), [Some(10), Some(20), Some(30)]);
    assert_ne!(decode(&data, &[0; 16]), Some(entries.clone()));

    let keys = Keys { irk: [0; 16], encryption: key };
    assert_eq!(
        observed(pinned(), &keys, Some(&data)),
        Some(Update::BleBattery { address: PINNED.to_owned(), entries })
    );
    assert_eq!(observed(pinned(), &keys, Some(&data[..26])), None);
    assert_eq!(observed(pinned(), &keys, None), None);
}

#[test]
fn a_resolved_address_is_followed_once_and_within_the_cap() {
    let irk = key_bytes(IRK).unwrap();
    let ours = Address::parse("70:81:94:0D:FB:AA").unwrap();
    let mut watched = Vec::new();
    assert!(!follow(&mut watched, Address::parse("70:81:94:0D:FB:AB").unwrap(), &irk));
    assert!(follow(&mut watched, ours, &irk));
    assert!(!follow(&mut watched, ours, &irk));
    assert_eq!(watched, [ours]);
    let mut full: Vec<Address> = (0..WATCHED_CAP).map(|i| host(i as u8)).collect();
    assert!(!follow(&mut full, ours, &irk));
    assert_eq!(full.len(), WATCHED_CAP);
}

#[test]
fn a_model_id_is_read_in_hexadecimal_or_falls_back() {
    assert_eq!(model_bytes("201B"), [0x1b, 0x20]);
    assert_eq!(model_bytes(" 2014 "), [0x14, 0x20]);
    assert_eq!(model_bytes("+2f"), [0x2f, 0]);
    for unreadable in ["", "x", "10000", "-1", "0x2014"] {
        assert_eq!(model_bytes(unreadable), [0x1b, 0x20], "{unreadable:?}");
    }
    assert_eq!(parse_hex(&chars_of("ff"), 256), Some(255));
    assert_eq!(parse_hex(&chars_of("100"), 256), None);
    assert!(qualifies(&[7, 25, 1, 0x1b, 0x20], [0x1b, 0x20]));
    assert!(!qualifies(&[7, 25, 1, 0x1b], [0x1b, 0x20]));
}

#[test]
fn the_scanner_knows_the_latest_strength_of_what_it_follows() {
    let data: &[u8] = &[7, 25, 1, 0x1b, 0x20];
    let model = [0x1b, 0x20];
    let mut scanner = Scanner::new();
    assert!(scanner.added(host(1)));
    assert!(!scanner.added(host(1)));
    let unknown = Sighting { address: host(1), rssi: None };
    assert_eq!(scanner.advert(host(1), Some(data), model, -70), Some(unknown));
    scanner.heard(host(1), -90);
    assert_eq!(scanner.advert(host(1), Some(data), model, -70), None);
    scanner.heard(host(1), -70);
    let near = Sighting { address: host(1), rssi: Some(-70) };
    assert_eq!(scanner.advert(host(1), Some(data), model, -70), Some(near));
    assert_eq!(scanner.advert(host(1), Some(&data[..4]), model, -70), None);
    assert_eq!(scanner.advert(host(1), None, model, -70), None);
    scanner.removed(host(1));
    assert_eq!(scanner.advert(host(1), Some(data), model, -70), Some(unknown));
    assert!(scanner.added(host(1)));
}

#[test]
fn the_scanner_follows_no_more_than_its_cap() {
    let mut scanner = Scanner::new();
    for i in 0..SCANNER_CAP {
        assert!(scanner.added(host(i as u8)));
    }
    assert!(!scanner.added(host(200)));
    scanner.removed(host(3));
    assert!(scanner.added(host(200)));
}

#[test]
fn only_new_manufacturer_events_refresh_cells_not_other_device_properties() {
    const STAMP: &str = "2026-07-11T12:00:00+02:00";
    let address = Address::parse("AC:DE:48:00:11:22").unwrap();
    let mut store = Store::new(Snapshot::initial(&address.to_string()), PrimaryBud::Auto);
    let keys = Keys {
        irk: [0; 16],
        encryption: [0; 16],
    };
    assert_eq!(observed(address, &keys, None), None);
    assert!(store.snapshot().battery.stale);
    let manufacturer = advert([0; 16], 0x60, [60, 127, 0x80 | 80]);
    if let Some(update) = observed(address, &keys, Some(&manufacturer)) {
        store.apply(update, STAMP);
    }
    assert!(store.snapshot().battery.case.fresh);
    assert!(!store.snapshot().battery.right.fresh);
    store.apply(
        Update::ExpireBle {
            before: "2999-01-01T00:00:00Z".into(),
        },
        STAMP,
    );
    assert_eq!(observed(address, &keys, None), None);
    assert!(!store.snapshot().battery.case.fresh);
    assert_eq!(
        store.snapshot().battery.case.last_known_charging,
        Some(true)
    );
}
