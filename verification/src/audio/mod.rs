//! Audio capture decisions and device enumeration.

pub mod capture;
pub mod enumerator;

pub use capture::AudioStreamError;

pub use enumerator::{enumerate_devices, DeviceInfo};
