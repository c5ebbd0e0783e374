use smartdecode::{decode_smart_values, DecodeError, Device, DeviceInformation, SmartValue, SmartValueType};

fn identify_with(serial: &[u8], firmware: &[u8], model: &[u8]) -> [u8; 512] {
    let mut raw = [0u8; 512];
    raw[20..20 + serial.len()].copy_from_slice(serial);
    raw[46..46 + firmware.len()].copy_from_slice(firmware);
    raw[54..54 + model.len()].copy_from_slice(model);
    raw
}

fn counter(flag: u16, value: u8, worst: u8, data: u64) -> SmartValue {
    SmartValue { flag, value, data, worst, max: 0, min: 0, current: 0, initial: 0 }
}

fn tracker(flag: u16, current: i64, min: i64, max: i64) -> SmartValue {
    SmartValue { flag, value: 0, data: 0, worst: 0, max, min, current, initial: 0 }
}

#[test]
fn identify_serial_example() {
    let raw = identify_with(b"WD-XYZ123456789ABCD", b"", b"");
    let info = DeviceInformation::new(raw).unwrap();
    assert_eq!(info.serial, "WD-XYZ123456789ABCD");
}

#[test]
fn identify_keeps_padding() {
    let raw = identify_with(b"S1                 ", b"FW01   ", b"ACME DISK");
    let info = DeviceInformation::new(raw).unwrap();
    assert_eq!(info.serial, "S1                 ");
    assert_eq!(info.firmware_version, "FW01   ");
    let mut model = String::from("ACME DISK");
    model.push_str(&"\0".repeat(39 - 9));
    assert_eq!(info.model, model);
    assert_eq!(info.model.len(), 39);
}

#[test]
fn identify_reads_only_its_ranges() {
    let mut raw = identify_with(b"SERIAL", b"FW", b"MODEL");
    raw[0] = 0xFF;
    raw[39] = 0xFF;
    raw[53] = 0xFF;
    raw[93] = 0xFF;
    raw[511] = 0xFF;
    let info = DeviceInformation::new(raw).unwrap();
    assert!(info.serial.starts_with("SERIAL"));
    assert_eq!(info.serial.len(), 19);
    assert_eq!(info.firmware_version, "FW\0\0\0\0\0");
}

#[test]
fn identify_decode_is_repeatable() {
    let raw = identify_with(b"ABC", b"1.0", b"Model X");
    let a = DeviceInformation::new(raw).unwrap();
    let b = DeviceInformation::new(raw).unwrap();
    assert_eq!(a.serial, b.serial);
    assert_eq!(a.firmware_version, b.firmware_version);
    assert_eq!(a.model, b.model);
}

#[test]
fn identify_invalid_serial_fails() {
    let raw = identify_with(&[0x41, 0xFF], b"FW", b"MODEL");
    assert_eq!(DeviceInformation::new(raw).unwrap_err(), DecodeError::TextDecodeFailure);
}

#[test]
fn identify_invalid_firmware_fails() {
    let raw = identify_with(b"SERIAL", &[0xC3], b"MODEL");
    assert_eq!(DeviceInformation::new(raw).unwrap_err(), DecodeError::TextDecodeFailure);
}

#[test]
fn identify_invalid_model_fails() {
    let raw = identify_with(b"SERIAL", b"FW", &[0xED, 0xA0, 0x80]);
    assert_eq!(DeviceInformation::new(raw).unwrap_err(), DecodeError::TextDecodeFailure);
}

#[test]
fn identify_multibyte_text() {
    let raw = identify_with("Zürich".as_bytes(), b"", b"");
    let info = DeviceInformation::new(raw).unwrap();
    assert!(info.serial.starts_with("Zürich"));
    assert_eq!(info.serial.chars().count(), 18);
}

#[test]
fn read_error_rate_example() {
    let rec = [0x01, 0x00, 0x00, 0x64, 0x64, 0x05, 0x00, 0x00, 0x00, 0x00, 0x00, 0x00];
    assert_eq!(
        SmartValueType::from_attribute(&rec),
        SmartValueType::ReadErrorRate(counter(0x0001, 0x64, 0x64, 5))
    );
}

#[test]
fn temperature_example() {
    let rec = [0xC2, 0x22, 0x00, 0x64, 0x64, 0x1E, 0x00, 0x32, 0x00, 0x00, 0x00, 0x00];
    assert_eq!(
        SmartValueType::from_attribute(&rec),
        SmartValueType::TemperatureCelsius(tracker(0x22C2, 30, 0, 50))
    );
}

#[test]
fn tracker_sign_extends() {
    let rec = [0xC2, 0x00, 0x00, 0x00, 0x00, 0xFF, 0x80, 0x7F, 0xFF, 0xFF, 0xFF, 0xFF];
    let v = SmartValue::new_tracker(&rec);
    assert_eq!(v.current, -1);
    assert_eq!(v.min, -128);
    assert_eq!(v.max, 127);
    assert_eq!(v, tracker(0x00C2, -1, -128, 127));
}

#[test]
fn counter_is_zero_extended() {
    let rec = [0x05, 0x34, 0x12, 0xC8, 0x01, 0xFF, 0xFF, 0xFF, 0xFF, 0xFF, 0xFF, 0xFF];
    let v = SmartValue::new_data(&rec);
    assert_eq!(v, counter(0x3405, 0xC8, 0x01, 0x00FF_FFFF_FFFF_FFFF));
}

#[test]
fn counter_byte_order() {
    let rec = [0x09, 0x02, 0x80, 0x00, 0x00, 0x01, 0x02, 0x03, 0x04, 0x05, 0x06, 0x07];
    let v = SmartValue::new_data(&rec);
    // the identifier is the low byte of the flag
    assert_eq!(v.flag, 0x0209);
    assert_eq!(v.data, 0x0007_0605_0403_0201);
}

#[test]
fn counter_reads_first_twelve_bytes_only() {
    let rec = [0x09, 0x00, 0x00, 0x00, 0x00, 0x01, 0x00, 0x00, 0x00, 0x00, 0x00, 0x00, 0xAA, 0xBB];
    assert_eq!(SmartValue::new_data(&rec).data, 1);
}

#[test]
fn dispatch_table_entries() {
    let mut rec = [0u8, 0x01, 0x00, 0x10, 0x20, 0x03, 0x00, 0x00, 0x00, 0x00, 0x00, 0x00];
    let c = |id: u8| counter(0x0100 | id as u16, 0x10, 0x20, 3);
    let expected = [
        (0x01u8, SmartValueType::ReadErrorRate(c(0x01))),
        (0x05, SmartValueType::ReallocatedSectorsCount(c(0x05))),
        (0x09, SmartValueType::PowerOnHours(c(0x09))),
        (0x0C, SmartValueType::PowerCycleCount(c(0x0C))),
        (0xC0, SmartValueType::PowerOffRetractCount(c(0xC0))),
        (0xC2, SmartValueType::TemperatureCelsius(tracker(0x01C2, 3, 0, 0))),
        (0xC4, SmartValueType::ReallocatedEventCount(c(0xC4))),
        (0xF1, SmartValueType::TotalLBAWritten(c(0xF1))),
        (0xF2, SmartValueType::TotalLBARead(c(0xF2))),
    ];
    for (id, value) in expected.iter() {
        rec[0] = *id;
        assert_eq!(SmartValueType::from_attribute(&rec), *value);
    }
}

#[test]
fn unknown_ids_are_unimplemented() {
    let known = [0x01u8, 0x05, 0x09, 0x0C, 0xC0, 0xC2, 0xC4, 0xF1, 0xF2];
    for id in 0..=255u8 {
        let rec = [id, 0x0B, 0x00, 0x64, 0x64, 0x05, 0x00, 0x00, 0x00, 0x00, 0x00, 0x00];
        let v = SmartValueType::from_attribute(&rec);
        if known.contains(&id) {
            assert!(!matches!(v, SmartValueType::Unimplemented(_)));
        } else {
            assert_eq!(v, SmartValueType::Unimplemented(id));
        }
    }
}

#[test]
fn walker_all_zero_payload() {
    let payload = [0u8; 512];
    let values = decode_smart_values(&payload);
    assert_eq!(values.len(), 30);
    assert!(values.iter().all(|v| *v == SmartValueType::Unimplemented(0)));
}

#[test]
fn walker_slot_order() {
    let mut payload = [0u8; 512];
    // the first two bytes precede the records and are never read
    payload[0] = 0x01;
    payload[1] = 0x09;
    for i in 0..30 {
        payload[12 * i + 2] = 0x20 + i as u8;
    }
    payload[2] = 0x09;
    payload[2 + 5] = 0x10;
    payload[12 * 29 + 2] = 0xC2;
    payload[12 * 29 + 2 + 5] = 0xFB;
    payload[12 * 29 + 2 + 7] = 0x2D;
    payload[12 * 30 + 2] = 0x01;
    let values = decode_smart_values(&payload);
    assert_eq!(values.len(), 30);
    assert_eq!(values[0], SmartValueType::PowerOnHours(counter(0x0009, 0, 0, 0x10)));
    for i in 1..29 {
        assert_eq!(values[i], SmartValueType::Unimplemented(0x20 + i as u8));
    }
    assert_eq!(values[29], SmartValueType::TemperatureCelsius(tracker(0x00C2, -5, 0, 45)));
}

#[test]
fn walker_arbitrary_payload_gives_thirty() {
    let mut payload = [0u8; 512];
    for (i, b) in payload.iter_mut().enumerate() {
        *b = (i * 37 + 11) as u8;
    }
    let values = decode_smart_values(&payload);
    assert_eq!(values.len(), 30);
    for i in 0..30 {
        assert_eq!(values[i], SmartValueType::from_attribute(&payload[12 * i + 2..12 * i + 14]));
    }
}

#[test]
fn device_keeps_path() {
    let d = Device::new("/dev/sda");
    assert_eq!(d.path(), "/dev/sda");
}
