use vstd::prelude::*;

verus! {

/// A digital button of a gamepad.
#[derive(Debug, Copy, Clone, PartialEq, Eq, Hash, Structural)]
pub enum GamepadButton {
    /// Bottom face button (A on Xbox)
    South,
    /// Right face button (B on Xbox)
    East,
    /// Left face button (X on Xbox)
    West,
    /// Top face button (Y on Xbox)
    North,
    Back,
    Guide,
    Start,
    LeftStick,
    RightStick,
    LeftShoulder,
    RightShoulder,
    DPadUp,
    DPadDown,
    DPadLeft,
    DPadRight,
    RightPaddle1,
    RightPaddle2,
    LeftPaddle1,
    LeftPaddle2,
    Misc1,
    Misc2,
    Misc3,
    Misc4,
    Misc5,
    Misc6,
}

} // verus!
