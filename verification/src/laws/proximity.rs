//! What a proximity advert says of the battery.
use crate::aap::codec::BatteryComponent;
use crate::ble::{advert_readings, cell_of, one, readings_of};
use vstd::prelude::*;

verus! {

/// The level a cell byte carries: its low seven bits.
pub open spec fn low_bits(raw: u8) -> int {
    if raw >= 128 {
        raw - 128
    } else {
        raw as int
    }
}

/// The byte that carries a component's cell. The first of the two bud bytes is
/// the left bud's where bit 5 of the status is set, the right bud's otherwise.
pub open spec fn cell_byte(status: u8, block: Seq<u8>, component: BatteryComponent) -> u8 {
    let first_is_left = (status as int / 32) % 2 == 1;
    if component == BatteryComponent::Case {
        block[3]
    } else if first_is_left == (component == BatteryComponent::Left) {
        block[1]
    } else {
        block[2]
    }
}

/// A component's cell is reported: a bud always, the case only where bit 6 of
/// the status says that a reporting bud is in it.
pub open spec fn carried(status: u8, component: BatteryComponent) -> bool {
    ||| component == BatteryComponent::Left
    ||| component == BatteryComponent::Right
    ||| component == BatteryComponent::Case && (status as int / 64) % 2 == 1
}

/// Each entry is read from its own byte: the level is the low seven bits, and
/// it charges exactly where the top bit is set.
pub proof fn an_entry_is_its_byte(status: u8, block: Seq<u8>, i: int)
    requires
        readings_of(status, block) is Some,
        0 <= i < readings_of(status, block)->0.len(),
    ensures
        ({
            let entry = readings_of(status, block)->0[i];
            let raw = cell_byte(status, block, entry.component);
            &&& carried(status, entry.component)
            &&& entry.level matches Some(l) && l == low_bits(raw)
            &&& low_bits(raw) <= 100
            &&& entry.charging <==> raw >= 128
            &&& entry.present
        }),
{
    lemma_parts(status, block);
}

/// A cell that is carried and has a level is among the entries, left before
/// right before case, and each once.
pub proof fn every_level_is_read(status: u8, block: Seq<u8>, component: BatteryComponent)
    requires
        readings_of(status, block) is Some,
        carried(status, component),
        low_bits(cell_byte(status, block, component)) <= 100,
    ensures
        exists|i: int|
            0 <= i < readings_of(status, block)->0.len() && (
            #[trigger] readings_of(status, block)->0[i]).component == component,
        forall|i: int, j: int|
            0 <= i < j < readings_of(status, block)->0.len() ==> (match (
                (#[trigger] readings_of(status, block)->0[i]).component,
                (#[trigger] readings_of(status, block)->0[j]).component,
            ) {
                (BatteryComponent::Left, BatteryComponent::Right) => true,
                (BatteryComponent::Left, BatteryComponent::Case) => true,
                (BatteryComponent::Right, BatteryComponent::Case) => true,
                _ => false,
            }),
{
    lemma_parts(status, block);
    let l = one(cell_of(BatteryComponent::Left, cell_byte(status, block, BatteryComponent::Left)));
    let r = one(cell_of(BatteryComponent::Right, cell_byte(status, block, BatteryComponent::Right)));
    let entries = readings_of(status, block)->0;
    if component == BatteryComponent::Left {
        assert(entries[0].component == component);
    } else if component == BatteryComponent::Right {
        assert(entries[l.len() as int].component == component);
    } else {
        assert(entries[(l.len() + r.len()) as int].component == component);
    }
}

/// There is a reading exactly where each of the three cell bytes is a level
/// or says that the level is unknown, and some carried cell has a level.
pub proof fn when_a_block_reads(status: u8, block: Seq<u8>)
    ensures
        readings_of(status, block) is Some <==> {
            &&& forall|k: int|
                1 <= k <= 3 ==> low_bits(#[trigger] block[k]) <= 100 || low_bits(block[k]) == 127
            &&& low_bits(block[1]) <= 100 || low_bits(block[2]) <= 100 || ((status as int / 64) % 2
                == 1 && low_bits(block[3]) <= 100)
        },
{
    lemma_parts(status, block);
    assert(low_bits(block[1]) == block[1] % 128);
    assert(low_bits(block[2]) == block[2] % 128);
    assert(low_bits(block[3]) == block[3] % 128);
}

proof fn lemma_parts(status: u8, block: Seq<u8>)
    ensures
        ({
            let l = one(
                cell_of(BatteryComponent::Left, cell_byte(status, block, BatteryComponent::Left)),
            );
            let r = one(
                cell_of(BatteryComponent::Right, cell_byte(status, block, BatteryComponent::Right)),
            );
            let c = if (status as int / 64) % 2 == 1 {
                one(cell_of(BatteryComponent::Case, block[3]))
            } else {
                Seq::empty()
            };
            readings_of(status, block) matches Some(entries) ==> entries == l + r + c
        }),
{
}

/// Only a message of twenty-seven bytes from an AirPods 4 (ANC) outside
/// pairing mode is read, with byte five as its status and its last sixteen
/// bytes as the block.
pub proof fn which_adverts_are_read(data: Seq<u8>, key: Seq<u8>)
    ensures
        advert_readings(data, key) is Some ==> data.len() == 27 && data[0] == 0x07 && data[1]
            == 0x19 && data[2] == 0x01 && data[3] == 0x1b && data[4] == 0x20,
        data.len() == 27 && data[0] == 0x07 && data[1] == 0x19 && data[2] == 0x01 && data[3] == 0x1b
            && data[4] == 0x20 ==> advert_readings(data, key) == readings_of(
            data[5],
            crate::ble::aes128_decrypted(key, data.subrange(11, 27)),
        ),
{
    if data.len() == 27 {
        assert(data.skip(11) =~= data.subrange(11, 27));
    }
}

} // verus!
