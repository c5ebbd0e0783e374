//! The 12-byte SMART attribute record and the table that classifies it.

use vstd::prelude::*;
use crate::bytes::{le16, read_u16_le, read_u64_le};

verus! {

/// Length in bytes of one attribute record.
pub const RECORD_LEN: usize = 12;

/// The decoded payload of one SMART attribute record.
///
/// A counter record fills `flag`, `value`, `worst` and `data`; a tracker
/// record fills `flag`, `min`, `max` and `current`. The fields the mode does
/// not fill are zero.
#[derive(Debug, Clone, Copy, PartialEq, Eq, Structural)]
pub struct SmartValue {
    /// How the value is to be interpreted (prefail, warning, ...).
    pub flag: u16,
    /// The current normalized health of the attribute.
    pub value: u8,
    /// The raw payload, most often a counter.
    pub data: u64,
    /// The worst normalized value seen.
    pub worst: u8,
    /// The largest value seen over the lifetime (trackers only).
    pub max: i64,
    /// The smallest value seen over the lifetime (trackers only).
    pub min: i64,
    /// The value now (trackers only).
    pub current: i64,
    /// Reserved; no byte of the record maps to it.
    pub initial: u64,
}

/// The known SMART attributes, each with its decoded value, and a fallback
/// that keeps the identifier of any other attribute.
#[derive(Debug, Clone, Copy, PartialEq, Eq, Structural)]
pub enum SmartValueType {
    /// Rate of hardware read errors.
    ReadErrorRate(SmartValue),
    /// Count of reallocated sectors.
    ReallocatedSectorsCount(SmartValue),
    /// Overall runtime of the device in hours.
    PowerOnHours(SmartValue),
    /// How often the device was powered on.
    PowerCycleCount(SmartValue),
    /// Count of emergency head retracts on power off.
    PowerOffRetractCount(SmartValue),
    /// Count of remap operations.
    ReallocatedEventCount(SmartValue),
    /// Current, lowest and highest temperature.
    TemperatureCelsius(SmartValue),
    /// Sectors written over the lifetime.
    TotalLBAWritten(SmartValue),
    /// Sectors read over the lifetime.
    TotalLBARead(SmartValue),
    /// Any attribute outside the table, by its identifier.
    Unimplemented(u8),
}

/// The seven counter bytes `raw[5..12]` as an unsigned number, least
/// significant first; the eighth byte of the 64-bit value is zero.
pub open spec fn counter_data(raw: Seq<u8>) -> int {
    raw[5] + raw[6] * 0x100 + raw[7] * 0x1_0000 + raw[8] * 0x100_0000 + raw[9] * 0x1_0000_0000
        + raw[10] * 0x100_0000_0000 + raw[11] * 0x1_0000_0000_0000
}

/// A byte read as a two's complement signed 8-bit number.
pub open spec fn sign_extend(b: u8) -> int {
    if b < 0x80 {
        b as int
    } else {
        b - 0x100
    }
}

/// The record `raw` decoded as a counter.
pub open spec fn counter_value(raw: Seq<u8>) -> SmartValue {
    SmartValue {
        flag: le16(raw) as u16,
        value: raw[3],
        worst: raw[4],
        data: counter_data(raw) as u64,
        max: 0,
        min: 0,
        current: 0,
        initial: 0,
    }
}

/// The record `raw` decoded as a min/max/current tracker.
pub open spec fn tracker_value(raw: Seq<u8>) -> SmartValue {
    SmartValue {
        flag: le16(raw) as u16,
        value: 0,
        worst: 0,
        data: 0,
        max: sign_extend(raw[7]) as i64,
        min: sign_extend(raw[6]) as i64,
        current: sign_extend(raw[5]) as i64,
        initial: 0,
    }
}

/// Whether the dispatch table holds an entry for attribute `id`.
pub open spec fn is_known_id(id: u8) -> bool {
    id == 0x01 || id == 0x05 || id == 0x09 || id == 0x0C || id == 0xC0 || id == 0xC2 || id
        == 0xC4 || id == 0xF1 || id == 0xF2
}

/// The attribute record `rec` classified by its first byte, the identifier.
pub open spec fn classify(rec: Seq<u8>) -> SmartValueType {
    let id = rec[0];
    if id == 0x01 {
        SmartValueType::ReadErrorRate(counter_value(rec))
    } else if id == 0x05 {
        SmartValueType::ReallocatedSectorsCount(counter_value(rec))
    } else if id == 0x09 {
        SmartValueType::PowerOnHours(counter_value(rec))
    } else if id == 0x0C {
        SmartValueType::PowerCycleCount(counter_value(rec))
    } else if id == 0xC0 {
        SmartValueType::PowerOffRetractCount(counter_value(rec))
    } else if id == 0xC2 {
        SmartValueType::TemperatureCelsius(tracker_value(rec))
    } else if id == 0xC4 {
        SmartValueType::ReallocatedEventCount(counter_value(rec))
    } else if id == 0xF1 {
        SmartValueType::TotalLBAWritten(counter_value(rec))
    } else if id == 0xF2 {
        SmartValueType::TotalLBARead(counter_value(rec))
    } else {
        SmartValueType::Unimplemented(id)
    }
}

/// `b` as a two's complement signed 8-bit number, widened to 64 bits.
fn sign_extended(b: u8) -> (r: i64)
    ensures
        r == sign_extend(b),
{
    if b < 0x80 {
        b as i64
    } else {
        b as i64 - 0x100
    }
}

impl SmartValue {
    /// Decodes a record whose payload is a counter: the flag, the normalized
    /// value and worst value, and the 7-byte raw counter zero-extended to 64 bits.
    pub fn new_data(raw: &[u8]) -> (r: SmartValue)
        requires
            raw@.len() >= RECORD_LEN,
        ensures
            r == counter_value(raw@),
    {
        let mut data: Vec<u8> = Vec::new();
        let mut i: usize = 5;
        while i < RECORD_LEN
            invariant
                5 <= i <= RECORD_LEN <= raw@.len(),
                data@.len() == i - 5,
                forall|k: int| 0 <= k < data@.len() ==> data@[k] == raw@[k + 5],
            decreases RECORD_LEN - i,
        {
            data.push(raw[i]);
            i = i + 1;
        }
        data.push(0);
        let counter = read_u64_le(data.as_slice());
        SmartValue {
            flag: read_u16_le(raw),
            value: raw[3],
            worst: raw[4],
            data: counter,
            min: 0,
            max: 0,
            current: 0,
            initial: 0,
        }
    }

    /// Decodes a record whose payload is a min/max/current tracker: the flag,
    /// and bytes 5, 6 and 7 as signed 8-bit current, minimum and maximum.
    pub fn new_tracker(raw: &[u8]) -> (r: SmartValue)
        requires
            raw@.len() >= RECORD_LEN,
        ensures
            r == tracker_value(raw@),
    {
        SmartValue {
            flag: read_u16_le(raw),
            value: 0,
            worst: 0,
            data: 0,
            min: sign_extended(raw[6]),
            max: sign_extended(raw[7]),
            current: sign_extended(raw[5]),
            initial: 0,
        }
    }
}

impl SmartValueType {
    /// Classifies one attribute record by its identifier, the first byte, and
    /// decodes it in the mode the table gives; an identifier outside the table
    /// gives `Unimplemented` with that identifier.
    pub fn from_attribute(attribute: &[u8]) -> (r: SmartValueType)
        requires
            attribute@.len() >= RECORD_LEN,
        ensures
            r == classify(attribute@),
    {
        match attribute[0] {
            0x01 => SmartValueType::ReadErrorRate(SmartValue::new_data(attribute)),
            0x05 => SmartValueType::ReallocatedSectorsCount(SmartValue::new_data(attribute)),
            0x09 => SmartValueType::PowerOnHours(SmartValue::new_data(attribute)),
            0x0C => SmartValueType::PowerCycleCount(SmartValue::new_data(attribute)),
            0xC0 => SmartValueType::PowerOffRetractCount(SmartValue::new_data(attribute)),
            0xC2 => SmartValueType::TemperatureCelsius(SmartValue::new_tracker(attribute)),
            0xC4 => SmartValueType::ReallocatedEventCount(SmartValue::new_data(attribute)),
            0xF1 => SmartValueType::TotalLBAWritten(SmartValue::new_data(attribute)),
            0xF2 => SmartValueType::TotalLBARead(SmartValue::new_data(attribute)),
            id => SmartValueType::Unimplemented(id),
        }
    }
}

/// The counter of a record decoded as a counter is its seven bytes
/// `raw[5..12]` joined by shifts, least significant first: the 7-byte field
/// zero-extended, nothing above bit 56.
pub proof fn lemma_counter_data_bits(raw: Seq<u8>)
    requires
        raw.len() >= RECORD_LEN,
    ensures
        counter_value(raw).data == (raw[5] as u64) | ((raw[6] as u64) << 8u64) | ((raw[7] as u64)
            << 16u64) | ((raw[8] as u64) << 24u64) | ((raw[9] as u64) << 32u64) | ((raw[10] as u64)
            << 40u64) | ((raw[11] as u64) << 48u64),
        counter_value(raw).data < 0x100_0000_0000_0000,
{
    let b0 = raw[5] as u64;
    let b1 = raw[6] as u64;
    let b2 = raw[7] as u64;
    let b3 = raw[8] as u64;
    let b4 = raw[9] as u64;
    let b5 = raw[10] as u64;
    let b6 = raw[11] as u64;
    assert(b0 < 256 && b1 < 256 && b2 < 256 && b3 < 256 && b4 < 256 && b5 < 256 && b6 < 256);
    assert(b0 + b1 * 0x100 + b2 * 0x1_0000 + b3 * 0x100_0000 + b4 * 0x1_0000_0000 + b5
        * 0x100_0000_0000 + b6 * 0x1_0000_0000_0000 == (b0 | (b1 << 8u64) | (b2 << 16u64) | (b3
        << 24u64) | (b4 << 32u64) | (b5 << 40u64) | (b6 << 48u64))) by (bit_vector)
        requires
            b0 < 256 && b1 < 256 && b2 < 256 && b3 < 256 && b4 < 256 && b5 < 256 && b6 < 256,
    ;
}

/// A tracker byte is read as a signed 8-bit number: `0xFF` is -1, and in
/// general the value is that of the byte cast to `i8`.
pub proof fn lemma_sign_extend_i8(b: u8)
    ensures
        sign_extend(b) == (b as i8) as int,
        -0x80 <= sign_extend(b) < 0x80,
        sign_extend(0xFF) == -1,
{
    assert(b < 0x80 ==> (b as i8) as i64 == b as i64) by (bit_vector);
    assert(b >= 0x80 ==> (b as i8) as i64 == (b as i64) - 256) by (bit_vector);
}

/// A record decoded as a tracker holds bytes 5, 6 and 7 as signed 8-bit
/// numbers, sign-extended, in `current`, `min` and `max`.
pub proof fn lemma_tracker_sign_extended(raw: Seq<u8>)
    requires
        raw.len() >= RECORD_LEN,
    ensures
        tracker_value(raw).current == (raw[5] as i8) as i64,
        tracker_value(raw).min == (raw[6] as i8) as i64,
        tracker_value(raw).max == (raw[7] as i8) as i64,
{
    lemma_sign_extend_i8(raw[5]);
    lemma_sign_extend_i8(raw[6]);
    lemma_sign_extend_i8(raw[7]);
}

/// Every identifier outside the table yields `Unimplemented` carrying that
/// identifier, and every identifier in it yields a known attribute.
pub proof fn lemma_unknown_id_unimplemented(rec: Seq<u8>)
    requires
        rec.len() >= RECORD_LEN,
    ensures
        !is_known_id(rec[0]) ==> classify(rec) == SmartValueType::Unimplemented(rec[0]),
        is_known_id(rec[0]) ==> !(classify(rec) is Unimplemented),
{
}

} // verus!
