use vstd::prelude::*;

verus! {

/// A touch surface or pointing device of a gamepad.
#[derive(Debug, Copy, Clone, PartialEq, Eq, Hash, Structural)]
pub enum GamepadPointer {
    /// Right touch pad on the Steam Deck / Steam Controller 2,
    /// the DualShock 4 / DualSense touchpad,
    /// or the right JoyCon 2 mouse
    Primary,
    /// Left touch pad on the Steam Deck / Steam Controller 2,
    /// or the left JoyCon 2 mouse
    Secondary,
}

} // verus!
