use vstd::prelude::*;

verus! {

/// An analog axis of a gamepad.
#[derive(Debug, Copy, Clone, PartialEq, Eq, Hash, Structural)]
pub enum GamepadAxis {
    LeftX,
    LeftY,
    RightX,
    RightY,
    LeftTrigger,
    RightTrigger,
}

} // verus!
