//! Opt-in proximity telemetry, never an audio connection policy.
//!
//! Only AirPods 4 (ANC) adverts resolved with the pinned accessory's identity
//! resolving key are used.
use crate::aap::codec::{BatteryComponent, BatteryEntry};
use crate::address::{address_from_text, Address};
use crate::store::Update;
use crate::text::{chars_of, hex_below, parse_hex, starts_with};
use aes::cipher::{BlockDecrypt, BlockEncrypt, KeyInit};
use vstd::prelude::*;
use vstd::string::*;
use vstd::utf8::is_ascii_chars;

verus! {

/// Optional bounded LE discovery. Disabled without explicit configuration.
#[derive(Debug, Clone)]
pub struct BleConfig {
    /// Enable the observer (requires a pinned paired device and keys).
    pub enabled: bool,
    /// Private JSON file with the address and the keys.
    pub key_file: Option<String>,
    /// Seconds of discovery in each interval.
    pub scan_seconds: u64,
    /// Seconds between the beginnings of discovery windows.
    pub interval_seconds: u64,
    /// Age beyond which an observed BLE cell is displayed as historical.
    pub freshness_seconds: u64,
}

impl Default for BleConfig {
    fn default() -> (r: Self)
        ensures
            !r.enabled,
            r.key_file is None,
            r.scan_seconds == 8,
            r.interval_seconds == 30,
            r.freshness_seconds == 75,
    {
        BleConfig {
            enabled: false,
            key_file: None,
            scan_seconds: 8,
            interval_seconds: 30,
            freshness_seconds: 75,
        }
    }
}

/// Radio use is bounded, and a cell stays fresh from one window to the next.
pub open spec fn bounded_radio(c: BleConfig) -> bool {
    &&& 2 <= c.scan_seconds <= 30
    &&& 7 <= c.interval_seconds <= 300
    &&& 9 <= c.freshness_seconds <= 600
    &&& c.interval_seconds >= c.scan_seconds + 5
    &&& c.freshness_seconds >= c.interval_seconds + c.scan_seconds
}

/// Keys are there for an observer that is on.
pub open spec fn has_key_path(c: BleConfig) -> bool {
    c.enabled ==> (c.key_file matches Some(p) && "/"@.is_prefix_of(p@))
}

/// What is said of unbounded radio use.
pub const BOUNDS_TEXT: &'static str =
    "BLE requires scan_seconds 2–30, interval_seconds at least scan+5 and at most 300, freshness_seconds at least interval+scan and at most 600";

/// What is said of a missing key file.
pub const KEY_PATH_TEXT: &'static str =
    "enabled BLE telemetry requires an absolute key_file path";

impl BleConfig {
    /// Bound radio use and ensure the expiry policy spans a scan interval.
    pub fn validate(&self) -> (r: Result<(), String>)
        ensures
            r is Ok <==> bounded_radio(*self) && has_key_path(*self),
            r matches Err(e) ==> e@ == (if bounded_radio(*self) {
                KEY_PATH_TEXT@
            } else {
                BOUNDS_TEXT@
            }),
    {
        if !(2 <= self.scan_seconds && self.scan_seconds <= 30) || !(7 <= self.interval_seconds
            && self.interval_seconds <= 300) || !(9 <= self.freshness_seconds
            && self.freshness_seconds <= 600) || self.interval_seconds.saturating_sub(
            self.scan_seconds,
        ) < 5 || self.freshness_seconds.saturating_sub(self.interval_seconds) < self.scan_seconds {
            return Err(BOUNDS_TEXT.to_owned());
        }
        if self.enabled {
            let absolute = match &self.key_file {
                Some(path) => starts_with(&chars_of(path.as_str()), "/"),
                None => false,
            };
            if !absolute {
                return Err(KEY_PATH_TEXT.to_owned());
            }
        }
        Ok(())
    }
}

/// The pinned accessory's keys.
pub struct Keys {
    /// Identity resolving key, least significant byte first.
    pub irk: [u8; 16],
    /// Battery encryption key.
    pub encryption: [u8; 16],
}

/// The bytes that 32 hexadecimal digits write, two digits each.
pub open spec fn key_of(text: Seq<char>) -> Option<Seq<u8>> {
    if text.len() == 32 && is_ascii_chars(text) && (forall|i: int|
        0 <= i < 16 ==> hex_below(#[trigger] pair(text, i), 256) is Some) {
        Some(Seq::new(16, |i: int| hex_below(pair(text, i), 256)->0 as u8))
    } else {
        None
    }
}

/// The `i`th pair of characters.
pub open spec fn pair(text: Seq<char>, i: int) -> Seq<char> {
    text.subrange(i * 2, i * 2 + 2)
}

/// What is said of a key of the wrong length.
pub const KEY_LENGTH_TEXT: &'static str = "BLE keys must each contain 32 hexadecimal digits";

/// What is said of a key with another character.
pub const KEY_DIGIT_TEXT: &'static str = "BLE key contains a non-hexadecimal digit";

/// Why a text is no key.
pub open spec fn key_fault(text: Seq<char>) -> Seq<char> {
    if text.len() == 32 && is_ascii_chars(text) {
        KEY_DIGIT_TEXT@
    } else {
        KEY_LENGTH_TEXT@
    }
}

/// Read a key written as 32 hexadecimal digits.
pub fn key_bytes(value: &str) -> (r: Result<[u8; 16], String>)
    ensures
        match r {
            Ok(bytes) => key_of(value@) == Some(bytes@),
            Err(e) => key_of(value@) is None && e@ == key_fault(value@),
        },
{
    let chars: Vec<char> = chars_of(value);
    if !value.is_ascii() || chars.len() != 32 {
        return Err(KEY_LENGTH_TEXT.to_owned());
    }
    let mut bytes: [u8; 16] = [0; 16];
    let mut i: usize = 0;
    while i < 16
        invariant
            i <= 16,
            chars@ == value@,
            chars@.len() == 32,
            bytes@.len() == 16,
            forall|k: int|
                0 <= k < i ==> hex_below(#[trigger] pair(value@, k), 256) is Some && bytes@[k]
                    == hex_below(pair(value@, k), 256)->0 as u8,
            is_ascii_chars(value@),
        decreases 16 - i,
    {
        let digits: Vec<char> = vec![chars[i * 2], chars[i * 2 + 1]];
        proof {
            assert(digits@ =~= pair(value@, i as int));
        }
        match parse_hex(&digits, 256) {
            Some(n) => {
                bytes[i] = n as u8;
            },
            None => {
                proof {
                    assert(hex_below(pair(value@, i as int), 256) is None);
                }
                return Err(KEY_DIGIT_TEXT.to_owned());
            },
        }
        i = i + 1;
    }
    proof {
        assert(bytes@ =~= key_of(value@)->0);
    }
    Ok(bytes)
}

/// Largest key file that is read.
pub const KEY_FILE_LIMIT: u64 = 4096;

/// What the opened key file is.
#[derive(Debug, Clone, Copy, PartialEq, Eq, Structural)]
pub struct KeyFile {
    /// A regular file.
    pub is_file: bool,
    /// Owner.
    pub uid: u32,
    /// Permission bits and file type.
    pub mode: u32,
    /// Size in bytes.
    pub len: u64,
}

/// The key file is a regular file owned by this user, with no permission for
/// group or others, and not too large.
pub open spec fn private_file(file: KeyFile, euid: u32) -> bool {
    file.is_file && file.uid == euid && file.mode % 64 == 0 && file.len <= KEY_FILE_LIMIT
}

/// Whether the opened key file may be read.
pub fn key_file_is_private(file: KeyFile, euid: u32) -> (r: bool)
    ensures
        r == private_file(file, euid),
{
    file.is_file && file.uid == euid && file.mode % 64 == 0 && file.len <= KEY_FILE_LIMIT
}

/// What is said of keys that belong to another device.
pub const KEY_IDENTITY_TEXT: &'static str = "BLE key identity differs from the pinned device";

/// The keys of a key document, if it is the pinned device's.
pub fn keys_for(
    pinned: Address,
    address: &str,
    irk: &str,
    encryption_key: &str,
) -> (r: Result<Keys, String>)
    ensures
        match r {
            Ok(keys) => address_from_text(address@) == Some(pinned.0@) && key_of(irk@) == Some(
                keys.irk@,
            ) && key_of(encryption_key@) == Some(keys.encryption@),
            Err(e) => e@ == (if address_from_text(address@) != Some(pinned.0@) {
                KEY_IDENTITY_TEXT@
            } else if key_of(irk@) is None {
                key_fault(irk@)
            } else {
                key_fault(encryption_key@)
            }) && (address_from_text(address@) != Some(pinned.0@) || key_of(irk@) is None
                || key_of(encryption_key@) is None),
        },
{
    let named = match Address::parse(address) {
        Some(a) => {
            proof {
                if a.0@ == pinned.0@ {
                    assert(a.0 =~= pinned.0);
                }
            }
            a == pinned
        },
        None => false,
    };
    if !named {
        return Err(KEY_IDENTITY_TEXT.to_owned());
    }
    let irk = match key_bytes(irk) {
        Ok(k) => k,
        Err(e) => {
            return Err(e);
        },
    };
    let encryption = match key_bytes(encryption_key) {
        Ok(k) => k,
        Err(e) => {
            return Err(e);
        },
    };
    Ok(Keys { irk, encryption })
}

/// What AES-128 makes of a block under a key.
pub uninterp spec fn aes128_encrypted(key: Seq<u8>, block: Seq<u8>) -> Seq<u8>;

/// What AES-128 decryption makes of a block under a key.
pub uninterp spec fn aes128_decrypted(key: Seq<u8>, block: Seq<u8>) -> Seq<u8>;

/// `aes::Aes128::encrypt_block` under a key. The result is a function of key
/// and block.
#[verifier::external_body]
fn aes_encrypt(key: [u8; 16], block: [u8; 16]) -> (r: [u8; 16])
    ensures
        r@ == aes128_encrypted(key@, block@),
{
    let mut block = block.into();
    aes::Aes128::new(&key.into()).encrypt_block(&mut block);
    block.into()
}

/// `aes::Aes128::decrypt_block` under a key. The result is a function of key
/// and block, and undoes an encryption under the same key.
#[verifier::external_body]
fn aes_decrypt(key: [u8; 16], block: [u8; 16]) -> (r: [u8; 16])
    ensures
        r@ == aes128_decrypted(key@, block@),
        forall|plain: Seq<u8>|
            plain.len() == 16 && block@ == #[trigger] aes128_encrypted(key@, plain) ==> r@ == plain,
{
    let mut block = block.into();
    aes::Aes128::new(&key.into()).decrypt_block(&mut block);
    block.into()
}

/// The block whose encryption holds an address's hash: the random part of the
/// address behind thirteen zero bytes.
pub open spec fn prand_block(address: Seq<u8>) -> Seq<u8> {
    Seq::new(13, |i: int| 0u8) + address.take(3)
}

/// The address is resolvable and `hash` is the hash it carries.
pub open spec fn carries_hash(address: Seq<u8>, hash: Seq<u8>) -> bool {
    address[0] as int / 64 == 1 && hash.skip(13) == address.skip(3)
}

/// Whether an address is resolvable and carries the hash that an encrypted
/// block ends in.
pub fn hash_matches(address: Address, hash: [u8; 16]) -> (r: bool)
    ensures
        r == carries_hash(address.0@, hash@),
{
    let b = address.0;
    proof {
        assert(hash@.skip(13) =~= seq![hash@[13], hash@[14], hash@[15]]);
        assert(b@.skip(3) =~= seq![b@[3], b@[4], b@[5]]);
        if hash@.skip(13) == b@.skip(3) {
            assert(hash@.skip(13)[0] == b@.skip(3)[0]);
            assert(hash@.skip(13)[1] == b@.skip(3)[1]);
            assert(hash@.skip(13)[2] == b@.skip(3)[2]);
        }
    }
    b[0] / 64 == 1 && hash[13] == b[3] && hash[14] == b[4] && hash[15] == b[5]
}

/// Bluetooth `ah`, using the little-endian byte order of the exported key. A
/// resolvable private address matches an identity, but its short hash is not
/// packet authentication.
pub fn resolves(address: Address, irk: &[u8; 16]) -> (r: bool)
    ensures
        r == carries_hash(
            address.0@,
            aes128_encrypted(irk@.reverse(), prand_block(address.0@)),
        ),
{
    let b = address.0;
    let key: [u8; 16] = [
        irk[15],
        irk[14],
        irk[13],
        irk[12],
        irk[11],
        irk[10],
        irk[9],
        irk[8],
        irk[7],
        irk[6],
        irk[5],
        irk[4],
        irk[3],
        irk[2],
        irk[1],
        irk[0],
    ];
    let block: [u8; 16] = [0, 0, 0, 0, 0, 0, 0, 0, 0, 0, 0, 0, 0, b[0], b[1], b[2]];
    proof {
        assert(key@ =~= irk@.reverse());
        assert(block@ =~= prand_block(address.0@));
    }
    hash_matches(address, aes_encrypt(key, block))
}

/// A raw cell byte: seven bits of level, one of charging. A level above 100 is
/// no reading.
pub open spec fn cell_of(component: BatteryComponent, raw: u8) -> Option<BatteryEntry> {
    if raw % 128 <= 100 {
        Some(
            BatteryEntry {
                component,
                level: Some((raw % 128) as u8),
                charging: raw >= 128,
                present: true,
            },
        )
    } else {
        None
    }
}

/// The reading of one raw cell byte.
pub fn cell(component: BatteryComponent, raw: u8) -> (r: Option<BatteryEntry>)
    ensures
        r == cell_of(component, raw),
{
    let level: u8 = raw % 128;
    if level <= 100 {
        Some(BatteryEntry { component, level: Some(level), charging: raw >= 128, present: true })
    } else {
        None
    }
}

/// One proximity message outside pairing mode from an AirPods 4 (ANC): eleven
/// clear bytes and one encrypted block.
pub open spec fn battery_advert(data: Seq<u8>) -> bool {
    data.len() == 27 && data[0] == 7 && data[1] == 25 && data[2] == 1 && data[3] == 0x1b && data[4]
        == 0x20
}

/// A cell byte that says neither a level nor that the level is unknown.
pub open spec fn bad_cell(raw: u8) -> bool {
    raw % 128 > 100 && raw % 128 != 127
}

/// The readings of a decrypted block, left, right and case. The status byte
/// says which side reports first, and whether a reporting bud is in the case:
/// the case byte counts only then. Nothing readable is no reading.
pub open spec fn readings_of(status: u8, block: Seq<u8>) -> Option<Seq<BatteryEntry>> {
    let primary_left = (status / 32) % 2 == 1;
    let left = cell_of(
        BatteryComponent::Left,
        if primary_left {
            block[1]
        } else {
            block[2]
        },
    );
    let right = cell_of(
        BatteryComponent::Right,
        if primary_left {
            block[2]
        } else {
            block[1]
        },
    );
    let case = if (status / 64) % 2 == 1 {
        cell_of(BatteryComponent::Case, block[3])
    } else {
        None
    };
    let entries = one(left) + one(right) + one(case);
    if bad_cell(block[1]) || bad_cell(block[2]) || bad_cell(block[3]) || entries.len() == 0 {
        None
    } else {
        Some(entries)
    }
}

/// The entry, if there is one.
pub open spec fn one(entry: Option<BatteryEntry>) -> Seq<BatteryEntry> {
    match entry {
        Some(e) => seq![e],
        None => Seq::empty(),
    }
}

/// Readings as a list.
pub open spec fn readings_view(r: Option<Vec<BatteryEntry>>) -> Option<Seq<BatteryEntry>> {
    match r {
        Some(v) => Some(v@),
        None => None,
    }
}

fn push_cell(entries: &mut Vec<BatteryEntry>, entry: Option<BatteryEntry>)
    ensures
        final(entries)@ == old(entries)@ + one(entry),
{
    let ghost before = entries@;
    if let Some(e) = entry {
        entries.push(e);
    }
    proof {
        assert(entries@ =~= before + one(entry));
    }
}

/// The readings of a status byte and a decrypted block.
pub fn readings(status: u8, block: [u8; 16]) -> (r: Option<Vec<BatteryEntry>>)
    ensures
        readings_view(r) == readings_of(status, block@),
{
    let mut i: usize = 1;
    while i <= 3
        invariant
            1 <= i <= 4,
            i > 1 ==> !bad_cell(block@[1]),
            i > 2 ==> !bad_cell(block@[2]),
            i > 3 ==> !bad_cell(block@[3]),
        decreases 4 - i,
    {
        let v: u8 = block[i] % 128;
        if v > 100 && v != 127 {
            return None;
        }
        i = i + 1;
    }
    let primary_left = (status / 32) % 2 == 1;
    let (left, right): (u8, u8) = if primary_left {
        (block[1], block[2])
    } else {
        (block[2], block[1])
    };
    let mut entries: Vec<BatteryEntry> = Vec::new();
    push_cell(&mut entries, cell(BatteryComponent::Left, left));
    push_cell(&mut entries, cell(BatteryComponent::Right, right));
    // Case telemetry is carried when a reporting bud is in the case. The
    // cached case byte is not revived in other configurations.
    if (status / 64) % 2 == 1 {
        push_cell(&mut entries, cell(BatteryComponent::Case, block[3]));
    }
    proof {
        let primary = (status / 32) % 2 == 1;
        let l = one(cell_of(BatteryComponent::Left, left));
        let r = one(cell_of(BatteryComponent::Right, right));
        let c = if (status / 64) % 2 == 1 {
            one(cell_of(BatteryComponent::Case, block@[3]))
        } else {
            Seq::empty()
        };
        assert(entries@ =~= l + r + c);
    }
    if entries.len() == 0 {
        return None;
    }
    Some(entries)
}

/// What an advert says under the accessory's key.
pub open spec fn advert_readings(data: Seq<u8>, key: Seq<u8>) -> Option<Seq<BatteryEntry>> {
    if battery_advert(data) {
        readings_of(data[5], aes128_decrypted(key, data.skip(11)))
    } else {
        None
    }
}

/// Read the battery from Apple manufacturer data. Extra or short records and
/// pairing-mode layouts are rejected instead of guessed at. One CBC block with
/// a zero IV is exactly AES block decryption.
pub fn decode(data: &[u8], key: &[u8; 16]) -> (r: Option<Vec<BatteryEntry>>)
    ensures
        readings_view(r) == advert_readings(data@, key@),
        forall|plain: Seq<u8>|
            battery_advert(data@) && plain.len() == 16 && data@.skip(11)
                == #[trigger] aes128_encrypted(key@, plain) ==> readings_view(r) == readings_of(
                data@[5],
                plain,
            ),
{
    if data.len() != 27 || data[0] != 7 || data[1] != 25 || data[2] != 1 || data[3] != 0x1b
        || data[4] != 0x20 {
        return None;
    }
    let block: [u8; 16] = [
        data[11],
        data[12],
        data[13],
        data[14],
        data[15],
        data[16],
        data[17],
        data[18],
        data[19],
        data[20],
        data[21],
        data[22],
        data[23],
        data[24],
        data[25],
        data[26],
    ];
    proof {
        assert(block@ =~= data@.skip(11));
    }
    readings(data[5], aes_decrypt(*key, block))
}

/// What fresh Apple manufacturer data publishes: the levels it carries, under
/// the address of the pinned accessory. Nothing else a device reports does.
pub fn observed(identity: Address, keys: &Keys, apple_data: Option<&[u8]>) -> (r: Option<Update>)
    ensures
        match apple_data {
            Some(data) => match advert_readings(data@, keys.encryption@) {
                Some(levels) => r matches Some(Update::BleBattery { address, entries })
                    && address@ == identity.text() && entries@ == levels,
                None => r is None,
            },
            None => r is None,
        },
{
    match apple_data {
        Some(data) => match decode(data, &keys.encryption) {
            Some(entries) => Some(Update::BleBattery { address: identity.to_string(), entries }),
            None => None,
        },
        None => None,
    }
}

/// Resolved addresses whose adverts are followed at once.
pub const WATCHED_CAP: usize = 16;

/// Whether a discovered address is to be followed: there is room, it resolves
/// to the pinned accessory, and it is not followed yet. It is then noted.
pub fn follow(watched: &mut Vec<Address>, rpa: Address, irk: &[u8; 16]) -> (r: bool)
    ensures
        r == (old(watched)@.len() < WATCHED_CAP && carries_hash(
            rpa.0@,
            aes128_encrypted(irk@.reverse(), prand_block(rpa.0@)),
        ) && !old(watched)@.contains(rpa)),
        final(watched)@ == (if r {
            old(watched)@.push(rpa)
        } else {
            old(watched)@
        }),
{
    if watched.len() >= WATCHED_CAP || !resolves(rpa, irk) {
        return false;
    }
    let mut i: usize = 0;
    while i < watched.len()
        invariant
            i <= watched@.len(),
            watched@ == old(watched)@,
            forall|k: int| 0 <= k < i ==> watched@[k] != rpa,
        decreases watched@.len() - i,
    {
        if watched[i] == rpa {
            assert(watched@[i as int] == rpa);
            return false;
        }
        i = i + 1;
    }
    watched.push(rpa);
    true
}

/// Every reading is a level from 0 to 100 of a cell that is there, each cell
/// at most once and the case only when a reporting bud is in it.
pub proof fn readings_are_levels(status: u8, block: Seq<u8>)
    ensures
        readings_of(status, block) matches Some(entries) ==> {
            &&& 1 <= entries.len() <= 3
            &&& forall|i: int|
                0 <= i < entries.len() ==> (#[trigger] entries[i]).present && (
                entries[i].level matches Some(l) && l <= 100)
            &&& forall|i: int, j: int|
                0 <= i < j < entries.len() ==> entries[i].component != entries[j].component
            &&& forall|i: int|
                0 <= i < entries.len() && (#[trigger] entries[i]).component
                    == BatteryComponent::Case ==> (status / 64) % 2 == 1
        },
{
    let primary_left = (status / 32) % 2 == 1;
    let left = cell_of(
        BatteryComponent::Left,
        if primary_left {
            block[1]
        } else {
            block[2]
        },
    );
    let right = cell_of(
        BatteryComponent::Right,
        if primary_left {
            block[2]
        } else {
            block[1]
        },
    );
    let case = if (status / 64) % 2 == 1 {
        cell_of(BatteryComponent::Case, block[3])
    } else {
        None
    };
    let a = one(left);
    let b = one(right);
    let c = one(case);
    let entries = a + b + c;
    assert forall|i: int| 0 <= i < entries.len() implies (#[trigger] entries[i]).present && (
    entries[i].level matches Some(l) && l <= 100) by {
        if i < a.len() {
            assert(entries[i] == a[i]);
        } else if i < a.len() + b.len() {
            assert(entries[i] == b[i - a.len()]);
        } else {
            assert(entries[i] == c[i - a.len() - b.len()]);
        }
    }
}

} // verus!
