use vstd::prelude::*;

verus! {

/// A motion sensor of a gamepad.
#[derive(Debug, Copy, Clone, PartialEq, Eq, Hash, Structural)]
pub enum GamepadSensor {
    /// Samples in radians/s
    Gyroscope,
    /// Samples in m/s/s
    Accelerometer,
}

} // verus!
