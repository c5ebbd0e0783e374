//! The SMART READ DATA table: a short header followed by fixed-size
//! attribute records.

use vstd::prelude::*;
use vstd::slice::slice_subrange;
use crate::smart_attributes::{classify, SmartValueType, RECORD_LEN};

verus! {

/// Length in bytes of the SMART data payload.
pub const PAYLOAD_LEN: usize = 512;

/// Bytes at the start of the payload that precede the first record.
pub const RECORDS_OFFSET: usize = 2;

/// Number of attribute records in the payload.
pub const RECORD_COUNT: usize = 30;

/// The bytes of record slot `i` in `payload`.
pub open spec fn slot(payload: Seq<u8>, i: int) -> Seq<u8> {
    payload.subrange(RECORD_LEN * i + RECORDS_OFFSET, RECORD_LEN * (i + 1) + RECORDS_OFFSET)
}

/// Classifies every record slot of a SMART data payload, in slot order.
///
/// Every byte pattern decodes: the result always holds exactly one entry per
/// slot, an unknown identifier giving `Unimplemented`.
pub fn decode_smart_values(payload: &[u8]) -> (r: Vec<SmartValueType>)
    requires
        payload@.len() == PAYLOAD_LEN,
    ensures
        r@.len() == RECORD_COUNT,
        forall|i: int| 0 <= i < RECORD_COUNT ==> #[trigger] r@[i] == classify(slot(payload@, i)),
{
    let mut values: Vec<SmartValueType> = Vec::new();
    let mut i: usize = 0;
    while i < RECORD_COUNT
        invariant
            payload@.len() == PAYLOAD_LEN,
            i <= RECORD_COUNT,
            values@.len() == i,
            forall|k: int| 0 <= k < i ==> #[trigger] values@[k] == classify(slot(payload@, k)),
        decreases RECORD_COUNT - i,
    {
        let start: usize = RECORD_LEN * i + RECORDS_OFFSET;
        let attribute = slice_subrange(payload, start, start + RECORD_LEN);
        values.push(SmartValueType::from_attribute(attribute));
        i = i + 1;
    }
    values
}

} // verus!
