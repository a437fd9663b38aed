//! Device-facing logic: identifying devices and decoding what they send.
pub mod evdev;
pub mod guid;
pub mod hid;
