//! Decoding of the two fixed-layout blocks that an ATA device hands out:
//! the IDENTIFY DEVICE response and the SMART READ DATA table.

pub mod bytes;
pub mod device;
pub mod information;
pub mod smart_attributes;
pub mod smart_block;

pub use device::Device;
pub use information::{DecodeError, DeviceInformation};
pub use smart_attributes::{SmartValue, SmartValueType};
pub use smart_block::decode_smart_values;
