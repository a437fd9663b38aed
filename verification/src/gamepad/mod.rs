//! The logical controls of a gamepad.
pub mod axis;
pub mod button;
pub mod pointer;
pub mod sensor;
