use vstd::prelude::*;

verus! {

/// A discrete adjustment that the user can request from the keyboard.
#[derive(Clone, Copy, Debug, PartialEq, Eq, Structural)]
pub enum Control {
    IncreaseGravity,
    DecreaseGravity,
    DecreaseMass,
    IncreaseMass,
    Reset,
}

/// Scancodes of the keys that drive the simulation.
pub const SCANCODE_UP: u32 = 57416;
pub const SCANCODE_DOWN: u32 = 57424;
pub const SCANCODE_LEFT: u32 = 57419;
pub const SCANCODE_RIGHT: u32 = 57421;
pub const SCANCODE_R: u32 = 19;

/// The control bound to a key scancode, if any.
pub open spec fn spec_control_for(code: u32) -> Option<Control> {
    if code == SCANCODE_UP {
        Some(Control::IncreaseGravity)
    } else if code == SCANCODE_DOWN {
        Some(Control::DecreaseGravity)
    } else if code == SCANCODE_LEFT {
        Some(Control::DecreaseMass)
    } else if code == SCANCODE_RIGHT {
        Some(Control::IncreaseMass)
    } else if code == SCANCODE_R {
        Some(Control::Reset)
    } else {
        None
    }
}

/// Maps a key scancode to the control it triggers; unmapped keys give `None`.
pub fn control_for_scancode(code: u32) -> (r: Option<Control>)
    ensures
        r == spec_control_for(code),
{
    if code == SCANCODE_UP {
        Some(Control::IncreaseGravity)
    } else if code == SCANCODE_DOWN {
        Some(Control::DecreaseGravity)
    } else if code == SCANCODE_LEFT {
        Some(Control::DecreaseMass)
    } else if code == SCANCODE_RIGHT {
        Some(Control::IncreaseMass)
    } else if code == SCANCODE_R {
        Some(Control::Reset)
    } else {
        None
    }
}

} // verus!
