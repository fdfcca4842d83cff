//! The atomic input facts that travel from the decoder to the reducer.

use vstd::prelude::*;

verus! {

/// Number of mouse buttons tracked: primary, secondary, middle and two extra.
pub const MOUSE_BUTTON_COUNT: usize = 5;

/// Number of virtual-key states tracked.
pub const KEY_COUNT: usize = 256;

/// One input fact. Wheel deltas are counted in hundred-and-twentieths of a
/// notch (see `WHEEL_DELTA`), so that every delta the platform reports is an
/// exact integer.
#[derive(Clone, Copy, Debug, PartialEq, Eq)]
pub enum InputChange {
    MouseDown { index: usize, value: bool },
    KeyDown { index: usize, value: bool },
    MouseWheelScroll { delta: i32 },
    MouseWheelHorizontalScroll { delta: i32 },
    AddInputCharacter { character: char },
    CtrlPressed { value: bool },
    ShiftPressed { value: bool },
    AltPressed { value: bool },
    SuperPressed { value: bool },
}

impl InputChange {
    /// The indices it carries address the snapshot's arrays.
    pub open spec fn valid(self) -> bool {
        match self {
            InputChange::MouseDown { index, .. } => index < MOUSE_BUTTON_COUNT,
            InputChange::KeyDown { index, .. } => index < KEY_COUNT,
            _ => true,
        }
    }

    pub fn is_valid(&self) -> (r: bool)
        ensures
            r == self.valid(),
    {
        match self {
            InputChange::MouseDown { index, .. } => *index < MOUSE_BUTTON_COUNT,
            InputChange::KeyDown { index, .. } => *index < KEY_COUNT,
            _ => true,
        }
    }
}

/// Every change of the sequence is valid.
pub open spec fn all_valid(cs: Seq<InputChange>) -> bool {
    forall|i: int| 0 <= i < cs.len() ==> (#[trigger] cs[i]).valid()
}

} // verus!
