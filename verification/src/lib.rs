//! Gamepad input: device identification, HID report descriptor decoding,
//! per-driver report decoding and user-configurable input mappings.
pub mod gamepad;
pub mod mapping;
pub mod backend;
pub mod bytes;
