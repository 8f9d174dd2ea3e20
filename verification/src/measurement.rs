//! Measurement records: what a register means, where its value stands in a
//! record, and the physical quantity that a raw value denotes.
//!
//! The data of a read reply is a run of 28-byte records:
//!
//! | offset | size | field                         |
//! |-------:|-----:|-------------------------------|
//! |      0 |    4 | logical register identifier   |
//! |      4 |    1 | class                         |
//! |      5 |    1 | channel index, from zero      |
//! |      6 |    2 | reserved                      |
//! |      8 |    4 | timestamp, seconds            |
//! |     12 | 4 x 4| value slots                   |

use vstd::prelude::*;
use crate::bytes::{le32_at, read_u32_le};
use crate::frame::Field;

verus! {

/// Length of one measurement record.
pub const RECORD_LEN: usize = 28;

/// The raw value by which a signed register says that it has no value.
pub const NO_VALUE_SIGNED: u32 = 0x8000_0000;

/// The raw value by which an unsigned register says that it has no value.
pub const NO_VALUE_UNSIGNED: u32 = 0xFFFF_FFFF;

/// The largest raw value that is a measurement.
pub const RAW_MAX: u32 = 0xFFFF_FFFE;

/// Register of the battery temperature, in tenths of a degree Celsius.
pub const LRI_BATTERY_TEMPERATURE: u32 = 0x0049_5B00;

/// Register of the battery voltage, in hundredths of a volt.
pub const LRI_BATTERY_VOLTAGE: u32 = 0x0049_5C00;

/// Register of the battery current, in milliamperes.
pub const LRI_BATTERY_CURRENT: u32 = 0x0049_5D00;

/// Register of the battery's state of charge, in percent.
pub const LRI_BATTERY_CHARGE: u32 = 0x0029_5A00;

/// Register of the DC voltage of a string, in hundredths of a volt.
pub const LRI_DC_VOLTAGE: u32 = 0x0045_1F00;

/// Register of the DC current of a string, in milliamperes.
pub const LRI_DC_CURRENT: u32 = 0x0045_2100;

/// Register of the energy produced in total, in watt-hours.
pub const LRI_ENERGY_TOTAL: u32 = 0x0026_0100;

/// Register of the energy produced today, in watt-hours.
pub const LRI_ENERGY_DAILY: u32 = 0x0026_2200;

/// Class of a register that counts or gauges without a sign.
pub const CLASS_UNSIGNED: u8 = 0x00;

/// Class of a register that measures with a sign.
pub const CLASS_SIGNED: u8 = 0x40;

/// How a raw register value becomes a quantity in the exported unit.
#[derive(Clone, Copy, Debug, PartialEq, Eq, Structural)]
pub enum Conversion {
    /// The quantity is a tenth of the raw value: temperatures, in degrees Celsius.
    DivideByTen,
    /// The quantity is ten times the raw value: voltages, in millivolts.
    TimesTen,
    /// The quantity is the raw value: currents, energies and percentages.
    AsIs,
}

/// A non-negative quantity with one decimal place: `whole + tenths / 10`.
#[derive(Clone, Copy, Debug, PartialEq, Eq, Structural)]
pub struct Quantity {
    pub whole: u64,
    pub tenths: u8,
}

impl Quantity {
    /// The quantity counted in tenths of its unit.
    pub open spec fn spec_in_tenths(self) -> int {
        self.whole * 10 + self.tenths
    }

    /// The quantity counted in tenths of its unit, where that fits 64 bits.
    pub fn in_tenths(&self) -> (t: Option<u64>)
        ensures
            t.is_some() <==> self.spec_in_tenths() <= u64::MAX,
            t.is_some() ==> t.unwrap() == self.spec_in_tenths(),
    {
        if self.whole > (u64::MAX - 255) / 10 {
            if self.whole > u64::MAX / 10 {
                return None;
            }
            let base: u64 = self.whole * 10;
            if self.tenths as u64 > u64::MAX - base {
                return None;
            }
            return Some(base + self.tenths as u64);
        }
        Some(self.whole * 10 + self.tenths as u64)
    }
}

/// What the decoder knows of one register.
#[derive(Clone, Copy, Debug, PartialEq, Eq, Structural)]
pub struct RegisterInfo {
    /// The class that its records carry.
    pub class: u8,
    /// How many channels are extracted; a record of a higher channel is passed over.
    pub channels: u8,
    /// Which of the four value slots of a record holds the value.
    pub slot: u8,
    /// How the raw value becomes the exported quantity.
    pub conversion: Conversion,
    /// Whether the slot may hold a no-value marker.
    pub may_be_absent: bool,
}

/// One decoded record.
#[derive(Clone, Copy, Debug, PartialEq, Eq)]
pub struct Measurement {
    pub lri: u32,
    pub channel: u8,
    pub class: u8,
    pub timestamp: u32,
    /// The quantity, or `None` where the register reported no value.
    pub value: Option<Quantity>,
}

/// The number of tenths of the exported unit in one raw step.
pub open spec fn tenths_per_step(c: Conversion) -> int {
    match c {
        Conversion::DivideByTen => 1,
        Conversion::TimesTen => 100,
        Conversion::AsIs => 10,
    }
}

/// The largest quantity that a conversion yields, in tenths of the exported unit.
pub open spec fn range_max_tenths(c: Conversion) -> int {
    RAW_MAX as int * tenths_per_step(c)
}

/// Whether a quantity lies in the range declared for a conversion.
pub open spec fn in_range(c: Conversion, q: Quantity) -> bool {
    q.tenths < 10 && 0 <= q.spec_in_tenths() <= range_max_tenths(c)
}

/// The quantity that a raw value denotes under a conversion.
pub open spec fn spec_convert(c: Conversion, raw: u32) -> Quantity {
    match c {
        Conversion::DivideByTen => Quantity { whole: (raw / 10) as u64, tenths: (raw % 10) as u8 },
        Conversion::TimesTen => Quantity { whole: (raw * 10) as u64, tenths: 0 },
        Conversion::AsIs => Quantity { whole: raw as u64, tenths: 0 },
    }
}

/// Whether a raw value is one of the two no-value markers.
pub open spec fn is_no_value(raw: u32) -> bool {
    raw == NO_VALUE_SIGNED || raw == NO_VALUE_UNSIGNED
}

/// The value that a slot of a register holds: absent for a marker in a slot
/// that may hold one, the converted quantity otherwise.
pub open spec fn spec_decode_value(info: RegisterInfo, raw: u32) -> Option<Quantity> {
    if info.may_be_absent && is_no_value(raw) {
        None
    } else {
        Some(spec_convert(info.conversion, raw))
    }
}

/// The table of registers that the decoder understands.
pub open spec fn spec_register_info(lri: u32) -> Option<RegisterInfo> {
    if lri == LRI_BATTERY_TEMPERATURE {
        Some(
            RegisterInfo {
                class: CLASS_SIGNED,
                channels: 3,
                slot: 0,
                conversion: Conversion::DivideByTen,
                may_be_absent: true,
            },
        )
    } else if lri == LRI_BATTERY_VOLTAGE {
        Some(
            RegisterInfo {
                class: CLASS_SIGNED,
                channels: 3,
                slot: 0,
                conversion: Conversion::TimesTen,
                may_be_absent: true,
            },
        )
    } else if lri == LRI_BATTERY_CURRENT {
        Some(
            RegisterInfo {
                class: CLASS_SIGNED,
                channels: 3,
                slot: 0,
                conversion: Conversion::AsIs,
                may_be_absent: true,
            },
        )
    } else if lri == LRI_BATTERY_CHARGE {
        Some(
            RegisterInfo {
                class: CLASS_UNSIGNED,
                channels: 3,
                slot: 0,
                conversion: Conversion::AsIs,
                may_be_absent: true,
            },
        )
    } else if lri == LRI_DC_VOLTAGE {
        Some(
            RegisterInfo {
                class: CLASS_SIGNED,
                channels: 2,
                slot: 0,
                conversion: Conversion::TimesTen,
                may_be_absent: true,
            },
        )
    } else if lri == LRI_DC_CURRENT {
        Some(
            RegisterInfo {
                class: CLASS_SIGNED,
                channels: 2,
                slot: 0,
                conversion: Conversion::AsIs,
                may_be_absent: true,
            },
        )
    } else if lri == LRI_ENERGY_TOTAL || lri == LRI_ENERGY_DAILY {
        Some(
            RegisterInfo {
                class: CLASS_UNSIGNED,
                channels: 1,
                slot: 0,
                conversion: Conversion::AsIs,
                may_be_absent: true,
            },
        )
    } else {
        None
    }
}

/// What one record contributes: a measurement, nothing, or a failure.
///
/// A record of a register outside the table, or of a channel that is not
/// extracted, contributes nothing. A record of a known register fails on a
/// class other than the register's, and on a timestamp of zero.
pub open spec fn spec_record(data: Seq<u8>, at: int) -> Result<Option<Measurement>, Field> {
    let lri = le32_at(data, at);
    match spec_register_info(lri) {
        None => Ok(None),
        Some(info) => {
            if data[at + 4] != info.class {
                Err(Field::Class)
            } else if le32_at(data, at + 8) == 0 {
                Err(Field::Timestamp)
            } else if data[at + 5] >= info.channels {
                Ok(None)
            } else {
                Ok(
                    Some(
                        Measurement {
                            lri,
                            channel: data[at + 5],
                            class: data[at + 4],
                            timestamp: le32_at(data, at + 8),
                            value: spec_decode_value(info, le32_at(data, at + 12 + 4 * info.slot)),
                        },
                    ),
                )
            }
        },
    }
}

/// The measurements of the first `n` records of `data`, in order, or the
/// failure of the first record that fails.
pub open spec fn spec_walk(data: Seq<u8>, n: nat) -> Result<Seq<Measurement>, Field>
    decreases n,
{
    if n == 0 {
        Ok(Seq::empty())
    } else {
        match spec_walk(data, (n - 1) as nat) {
            Err(field) => Err(field),
            Ok(found) => match spec_record(data, (n - 1) * RECORD_LEN as int) {
                Err(field) => Err(field),
                Ok(None) => Ok(found),
                Ok(Some(m)) => Ok(found.push(m)),
            },
        }
    }
}

/// The measurements that the data of a read reply holds: a run that is not a
/// whole number of records fails as a truncated body.
pub open spec fn spec_decode_records(data: Seq<u8>) -> Result<Seq<Measurement>, Field> {
    if data.len() % RECORD_LEN as nat != 0 {
        Err(Field::Body)
    } else {
        spec_walk(data, data.len() / RECORD_LEN as nat)
    }
}

/// The value of the first measurement of a register and channel, if there is
/// one and it is present.
pub open spec fn spec_lookup(found: Seq<Measurement>, lri: u32, channel: u8) -> Option<Quantity>
    decreases found.len(),
{
    if found.len() == 0 {
        None
    } else if found[0].lri == lri && found[0].channel == channel {
        found[0].value
    } else {
        spec_lookup(found.drop_first(), lri, channel)
    }
}

/// Converts a raw register value to the exported quantity.
pub fn convert(c: Conversion, raw: u32) -> (q: Quantity)
    ensures
        q == spec_convert(c, raw),
        q.tenths < 10,
        q.spec_in_tenths() == raw * tenths_per_step(c),
        raw <= RAW_MAX ==> in_range(c, q),
{
    match c {
        Conversion::DivideByTen => Quantity { whole: (raw / 10) as u64, tenths: (raw % 10) as u8 },
        Conversion::TimesTen => Quantity { whole: raw as u64 * 10, tenths: 0 },
        Conversion::AsIs => Quantity { whole: raw as u64, tenths: 0 },
    }
}

/// Decodes the value of a slot: absent for a no-value marker in a slot that
/// may hold one, the converted quantity otherwise.
pub fn decode_value(info: &RegisterInfo, raw: u32) -> (value: Option<Quantity>)
    ensures
        value == spec_decode_value(*info, raw),
        info.may_be_absent && is_no_value(raw) <==> value.is_none(),
        value.is_some() && raw <= RAW_MAX ==> in_range(info.conversion, value.unwrap()),
{
    if info.may_be_absent && (raw == NO_VALUE_SIGNED || raw == NO_VALUE_UNSIGNED) {
        None
    } else {
        Some(convert(info.conversion, raw))
    }
}

/// Every conversion keeps a raw value between zero and the largest raw value
/// inside the range declared for it, the two ends included, and every register
/// of the table decodes both no-value markers to absent.
pub proof fn lemma_conversion_range(c: Conversion, raw: u32)
    ensures
        raw <= RAW_MAX ==> in_range(c, spec_convert(c, raw)),
        in_range(c, spec_convert(c, 0)),
        in_range(c, spec_convert(c, RAW_MAX)),
        spec_convert(c, RAW_MAX).spec_in_tenths() == range_max_tenths(c),
        forall|lri: u32| #[trigger]
            spec_register_info(lri).is_some() ==> spec_decode_value(
                spec_register_info(lri).unwrap(),
                NO_VALUE_SIGNED,
            ).is_none() && spec_decode_value(
                spec_register_info(lri).unwrap(),
                NO_VALUE_UNSIGNED,
            ).is_none(),
{
}

/// Looks a register up in the table.
pub fn register_info(lri: u32) -> (info: Option<RegisterInfo>)
    ensures
        info == spec_register_info(lri),
        info.is_some() ==> info.unwrap().slot < 4 && info.unwrap().may_be_absent,
{
    if lri == LRI_BATTERY_TEMPERATURE {
        Some(
            RegisterInfo {
                class: CLASS_SIGNED,
                channels: 3,
                slot: 0,
                conversion: Conversion::DivideByTen,
                may_be_absent: true,
            },
        )
    } else if lri == LRI_BATTERY_VOLTAGE {
        Some(
            RegisterInfo {
                class: CLASS_SIGNED,
                channels: 3,
                slot: 0,
                conversion: Conversion::TimesTen,
                may_be_absent: true,
            },
        )
    } else if lri == LRI_BATTERY_CURRENT {
        Some(
            RegisterInfo {
                class: CLASS_SIGNED,
                channels: 3,
                slot: 0,
                conversion: Conversion::AsIs,
                may_be_absent: true,
            },
        )
    } else if lri == LRI_BATTERY_CHARGE {
        Some(
            RegisterInfo {
                class: CLASS_UNSIGNED,
                channels: 3,
                slot: 0,
                conversion: Conversion::AsIs,
                may_be_absent: true,
            },
        )
    } else if lri == LRI_DC_VOLTAGE {
        Some(
            RegisterInfo {
                class: CLASS_SIGNED,
                channels: 2,
                slot: 0,
                conversion: Conversion::TimesTen,
                may_be_absent: true,
            },
        )
    } else if lri == LRI_DC_CURRENT {
        Some(
            RegisterInfo {
                class: CLASS_SIGNED,
                channels: 2,
                slot: 0,
                conversion: Conversion::AsIs,
                may_be_absent: true,
            },
        )
    } else if lri == LRI_ENERGY_TOTAL || lri == LRI_ENERGY_DAILY {
        Some(
            RegisterInfo {
                class: CLASS_UNSIGNED,
                channels: 1,
                slot: 0,
                conversion: Conversion::AsIs,
                may_be_absent: true,
            },
        )
    } else {
        None
    }
}

/// Decodes the record at offset `at`.
pub fn decode_record(data: &[u8], at: usize) -> (result: Result<Option<Measurement>, Field>)
    requires
        at + RECORD_LEN <= data@.len(),
    ensures
        result == spec_record(data@, at as int),
{
    let _len: usize = data.len();
    let lri: u32 = read_u32_le(data, at);
    match register_info(lri) {
        None => Ok(None),
        Some(info) => {
            let class: u8 = data[at + 4];
            let channel: u8 = data[at + 5];
            let timestamp: u32 = read_u32_le(data, at + 8);
            if class != info.class {
                Err(Field::Class)
            } else if timestamp == 0 {
                Err(Field::Timestamp)
            } else if channel >= info.channels {
                Ok(None)
            } else {
                let raw: u32 = read_u32_le(data, at + 12 + 4 * (info.slot as usize));
                Ok(
                    Some(
                        Measurement {
                            lri,
                            channel,
                            class,
                            timestamp,
                            value: decode_value(&info, raw),
                        },
                    ),
                )
            }
        },
    }
}

/// Decodes the data of a read reply into its measurements, in the order of
/// the records.
pub fn decode_records(data: &[u8]) -> (result: Result<Vec<Measurement>, Field>)
    ensures
        match result {
            Ok(found) => spec_decode_records(data@) == Ok::<Seq<Measurement>, Field>(found@),
            Err(field) => spec_decode_records(data@) == Err::<Seq<Measurement>, Field>(field),
        },
{
    if data.len() % RECORD_LEN != 0 {
        return Err(Field::Body);
    }
    let count: usize = data.len() / RECORD_LEN;
    let mut found: Vec<Measurement> = Vec::new();
    let mut i: usize = 0;
    let mut at: usize = 0;
    while i < count
        invariant
            i <= count,
            at == i * 28,
            count * 28 == data@.len() <= usize::MAX,
            spec_walk(data@, i as nat) == Ok::<Seq<Measurement>, Field>(found@),
        decreases count - i,
    {
        match decode_record(data, at) {
            Err(field) => {
                assert(spec_walk(data@, count as nat) == Err::<Seq<Measurement>, Field>(field)) by {
                    lemma_walk_fails(data@, (i + 1) as nat, count as nat);
                }
                return Err(field);
            },
            Ok(None) => {},
            Ok(Some(m)) => {
                found.push(m);
            },
        }
        i += 1;
        at += RECORD_LEN;
    }
    Ok(found)
}

/// Once the walk has failed, more records do not change the failure.
proof fn lemma_walk_fails(data: Seq<u8>, n: nat, m: nat)
    requires
        n <= m,
        spec_walk(data, n).is_err(),
    ensures
        spec_walk(data, m) == spec_walk(data, n),
    decreases m,
{
    if n < m {
        lemma_walk_fails(data, n, (m - 1) as nat);
    }
}

/// Finds the value of the first measurement of a register and channel.
pub fn lookup(found: &Vec<Measurement>, lri: u32, channel: u8) -> (value: Option<Quantity>)
    ensures
        value == spec_lookup(found@, lri, channel),
{
    let mut i: usize = 0;
    assert(found@.subrange(0, found@.len() as int) =~= found@);
    while i < found.len()
        invariant
            i <= found@.len(),
            spec_lookup(found@, lri, channel) == spec_lookup(
                found@.subrange(i as int, found@.len() as int),
                lri,
                channel,
            ),
        decreases found@.len() - i,
    {
        let ghost rest = found@.subrange(i as int, found@.len() as int);
        assert(rest[0] == found@[i as int]);
        assert(rest.drop_first() =~= found@.subrange(i + 1, found@.len() as int));
        if found[i].lri == lri && found[i].channel == channel {
            return found[i].value;
        }
        i += 1;
    }
    assert(found@.subrange(i as int, found@.len() as int).len() == 0);
    None
}

} // verus!
