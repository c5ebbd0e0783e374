//! The identity text fields of an IDENTIFY DEVICE response.

use vstd::prelude::*;
use vstd::slice::{slice_subrange, slice_to_vec};
use vstd::utf8::{decode_utf8, valid_utf8};
use std::string::FromUtf8Error;

verus! {

/// Length in bytes of an IDENTIFY DEVICE response.
pub const IDENTIFY_LEN: usize = 512;

/// First byte of the serial number.
pub const SERIAL_START: usize = 20;

/// End (exclusive) of the serial number.
pub const SERIAL_END: usize = 39;

/// First byte of the firmware version.
pub const FIRMWARE_START: usize = 46;

/// End (exclusive) of the firmware version.
pub const FIRMWARE_END: usize = 53;

/// First byte of the model name.
pub const MODEL_START: usize = 54;

/// End (exclusive) of the model name.
pub const MODEL_END: usize = 93;

/// The error of std's `String::from_utf8`, carried only to tell failure from success.
#[verifier::external_type_specification]
#[verifier::external_body]
pub struct ExFromUtf8Error(FromUtf8Error);

/// Why an identify response could not be decoded.
#[derive(Debug, Clone, Copy, PartialEq, Eq, Structural)]
pub enum DecodeError {
    /// One of the text ranges is not valid UTF-8.
    TextDecodeFailure,
}

/// The identity of a device, as text taken verbatim from its identify
/// response: padding is kept, nothing is trimmed.
#[derive(Debug)]
pub struct DeviceInformation {
    /// The serial number of the device.
    pub serial: String,
    /// The firmware version of the device.
    pub firmware_version: String,
    /// The vendor's model name of the device.
    pub model: String,
}

/// The bytes of the serial number in the identify response `raw`.
pub open spec fn serial_bytes(raw: Seq<u8>) -> Seq<u8> {
    raw.subrange(SERIAL_START as int, SERIAL_END as int)
}

/// The bytes of the firmware version in the identify response `raw`.
pub open spec fn firmware_bytes(raw: Seq<u8>) -> Seq<u8> {
    raw.subrange(FIRMWARE_START as int, FIRMWARE_END as int)
}

/// The bytes of the model name in the identify response `raw`.
pub open spec fn model_bytes(raw: Seq<u8>) -> Seq<u8> {
    raw.subrange(MODEL_START as int, MODEL_END as int)
}

/// Whether all three text ranges of the identify response `raw` are valid UTF-8.
pub open spec fn text_fields_valid(raw: Seq<u8>) -> bool {
    &&& valid_utf8(serial_bytes(raw))
    &&& valid_utf8(firmware_bytes(raw))
    &&& valid_utf8(model_bytes(raw))
}

/// Whether `info` holds exactly the text of the three ranges of `raw`.
pub open spec fn decodes_to(raw: Seq<u8>, info: DeviceInformation) -> bool {
    &&& info.serial@ == decode_utf8(serial_bytes(raw))
    &&& info.firmware_version@ == decode_utf8(firmware_bytes(raw))
    &&& info.model@ == decode_utf8(model_bytes(raw))
}

/// Relies on std's `String::from_utf8`: `Ok` with the decoded text exactly
/// when the bytes are valid UTF-8, `Err` otherwise.
#[verifier::external_body]
fn string_from_utf8(bytes: Vec<u8>) -> (r: Result<String, FromUtf8Error>)
    ensures
        match r {
            Ok(s) => valid_utf8(bytes@) && s@ == decode_utf8(bytes@),
            Err(_) => !valid_utf8(bytes@),
        },
{
    String::from_utf8(bytes)
}

/// The bytes `raw[start..end]` decoded as UTF-8 text.
fn decode_text(raw: &[u8], start: usize, end: usize) -> (r: Result<String, DecodeError>)
    requires
        start <= end <= raw@.len(),
    ensures
        match r {
            Ok(s) => valid_utf8(raw@.subrange(start as int, end as int)) && s@ == decode_utf8(
                raw@.subrange(start as int, end as int),
            ),
            Err(e) => !valid_utf8(raw@.subrange(start as int, end as int)) && e
                == DecodeError::TextDecodeFailure,
        },
{
    let bytes = slice_to_vec(slice_subrange(raw, start, end));
    match string_from_utf8(bytes) {
        Ok(s) => Ok(s),
        Err(_) => Err(DecodeError::TextDecodeFailure),
    }
}

impl DeviceInformation {
    /// Decodes an identify response: the serial number, firmware version and
    /// model name, each taken verbatim from its fixed byte range.
    ///
    /// Fails with `TextDecodeFailure`, and yields no partial record, when any
    /// of the three ranges is not valid UTF-8.
    pub fn new(raw: [u8; 512]) -> (r: Result<DeviceInformation, DecodeError>)
        ensures
            match r {
                Ok(info) => text_fields_valid(raw@) && decodes_to(raw@, info),
                Err(e) => !text_fields_valid(raw@) && e == DecodeError::TextDecodeFailure,
            },
    {
        let serial = match decode_text(&raw, SERIAL_START, SERIAL_END) {
            Ok(s) => s,
            Err(e) => return Err(e),
        };
        let firmware_version = match decode_text(&raw, FIRMWARE_START, FIRMWARE_END) {
            Ok(s) => s,
            Err(e) => return Err(e),
        };
        let model = match decode_text(&raw, MODEL_START, MODEL_END) {
            Ok(s) => s,
            Err(e) => return Err(e),
        };
        Ok(DeviceInformation { serial, firmware_version, model })
    }
}

/// Decoding an identify response is a function of its bytes: any two records
/// decoded from the same buffer with valid text hold the same three texts.
pub proof fn lemma_identify_deterministic(
    raw: Seq<u8>,
    a: DeviceInformation,
    b: DeviceInformation,
)
    requires
        raw.len() == IDENTIFY_LEN,
        text_fields_valid(raw),
        decodes_to(raw, a),
        decodes_to(raw, b),
    ensures
        a.serial@ == b.serial@,
        a.firmware_version@ == b.firmware_version@,
        a.model@ == b.model@,
{
}

} // verus!
