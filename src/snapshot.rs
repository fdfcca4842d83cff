//! The UI input snapshot and the reducer that folds input changes into it.

use vstd::prelude::*;
use crate::change::{InputChange, KEY_COUNT, MOUSE_BUTTON_COUNT};
use crate::queue::ChangeQueue;

verus! {

/// The input state an immediate-mode UI reads each frame. Wheel accumulators
/// count hundred-and-twentieths of a notch and saturate at the bounds of
/// `i64`.
pub struct InputSnapshot {
    pub mouse_down: Vec<bool>,
    pub keys_down: Vec<bool>,
    pub mouse_wheel: i64,
    pub mouse_wheel_h: i64,
    pub key_ctrl: bool,
    pub key_shift: bool,
    pub key_alt: bool,
    pub key_super: bool,
    pub input_characters: Vec<char>,
}

/// Mathematical model of an `InputSnapshot`.
pub struct SnapshotView {
    pub mouse_down: Seq<bool>,
    pub keys_down: Seq<bool>,
    pub mouse_wheel: int,
    pub mouse_wheel_h: int,
    pub key_ctrl: bool,
    pub key_shift: bool,
    pub key_alt: bool,
    pub key_super: bool,
    pub input_characters: Seq<char>,
}

impl View for InputSnapshot {
    type V = SnapshotView;

    open spec fn view(&self) -> SnapshotView {
        SnapshotView {
            mouse_down: self.mouse_down@,
            keys_down: self.keys_down@,
            mouse_wheel: self.mouse_wheel as int,
            mouse_wheel_h: self.mouse_wheel_h as int,
            key_ctrl: self.key_ctrl,
            key_shift: self.key_shift,
            key_alt: self.key_alt,
            key_super: self.key_super,
            input_characters: self.input_characters@,
        }
    }
}

impl SnapshotView {
    /// The button and key arrays have their fixed sizes.
    pub open spec fn wf(self) -> bool {
        &&& self.mouse_down.len() == MOUSE_BUTTON_COUNT
        &&& self.keys_down.len() == KEY_COUNT
    }
}

/// `x` clamped to the range of `i64`.
pub open spec fn saturate(x: int) -> int {
    if x > i64::MAX {
        i64::MAX as int
    } else if x < i64::MIN {
        i64::MIN as int
    } else {
        x
    }
}

/// The snapshot after one change: states are assigned, wheel deltas added,
/// characters appended.
pub open spec fn apply_change(s: SnapshotView, c: InputChange) -> SnapshotView {
    match c {
        InputChange::MouseDown { index, value } => SnapshotView {
            mouse_down: s.mouse_down.update(index as int, value),
            ..s
        },
        InputChange::KeyDown { index, value } => SnapshotView {
            keys_down: s.keys_down.update(index as int, value),
            ..s
        },
        InputChange::MouseWheelScroll { delta } => SnapshotView {
            mouse_wheel: saturate(s.mouse_wheel + delta),
            ..s
        },
        InputChange::MouseWheelHorizontalScroll { delta } => SnapshotView {
            mouse_wheel_h: saturate(s.mouse_wheel_h + delta),
            ..s
        },
        InputChange::AddInputCharacter { character } => SnapshotView {
            input_characters: s.input_characters.push(character),
            ..s
        },
        InputChange::CtrlPressed { value } => SnapshotView { key_ctrl: value, ..s },
        InputChange::ShiftPressed { value } => SnapshotView { key_shift: value, ..s },
        InputChange::AltPressed { value } => SnapshotView { key_alt: value, ..s },
        InputChange::SuperPressed { value } => SnapshotView { key_super: value, ..s },
    }
}

/// The snapshot after the changes of `cs`, first to last.
pub open spec fn apply_all(s: SnapshotView, cs: Seq<InputChange>) -> SnapshotView
    decreases cs.len(),
{
    if cs.len() == 0 {
        s
    } else {
        apply_change(apply_all(s, cs.drop_last()), cs.last())
    }
}

/// Adds a wheel delta to an accumulator, saturating at the bounds of `i64`.
fn accumulate(acc: i64, delta: i32) -> (r: i64)
    ensures
        r == saturate(acc + delta),
{
    let d = delta as i64;
    if d > 0 && acc > i64::MAX - d {
        i64::MAX
    } else if d < 0 && acc < i64::MIN - d {
        i64::MIN
    } else {
        acc + d
    }
}

fn all_false(n: usize) -> (v: Vec<bool>)
    ensures
        v@ == Seq::new(n as nat, |i: int| false),
{
    let mut v: Vec<bool> = Vec::new();
    let mut i: usize = 0;
    while i < n
        invariant
            i <= n,
            v@ == Seq::new(i as nat, |j: int| false),
        decreases n - i,
    {
        v.push(false);
        i = i + 1;
        assert(v@ =~= Seq::new(i as nat, |j: int| false));
    }
    v
}

impl InputSnapshot {
    /// A snapshot with nothing pressed, no wheel movement and no text.
    pub fn new() -> (s: InputSnapshot)
        ensures
            s@.wf(),
            s@.mouse_down == Seq::new(MOUSE_BUTTON_COUNT as nat, |i: int| false),
            s@.keys_down == Seq::new(KEY_COUNT as nat, |i: int| false),
            s@.mouse_wheel == 0,
            s@.mouse_wheel_h == 0,
            !s@.key_ctrl && !s@.key_shift && !s@.key_alt && !s@.key_super,
            s@.input_characters == Seq::<char>::empty(),
    {
        InputSnapshot {
            mouse_down: all_false(MOUSE_BUTTON_COUNT),
            keys_down: all_false(KEY_COUNT),
            mouse_wheel: 0,
            mouse_wheel_h: 0,
            key_ctrl: false,
            key_shift: false,
            key_alt: false,
            key_super: false,
            input_characters: Vec::new(),
        }
    }

    /// Resets what a frame accumulates (both wheels and the text buffer) and
    /// keeps every button, key and modifier state.
    pub fn clear_frame_input(&mut self)
        ensures
            final(self)@ == (SnapshotView {
                mouse_wheel: 0,
                mouse_wheel_h: 0,
                input_characters: Seq::empty(),
                ..old(self)@
            }),
    {
        self.mouse_wheel = 0;
        self.mouse_wheel_h = 0;
        self.input_characters = Vec::new();
    }
}

/// Folds one change into the snapshot.
pub fn update_io(io: &mut InputSnapshot, input_change: InputChange)
    requires
        old(io)@.wf(),
        input_change.valid(),
    ensures
        final(io)@ == apply_change(old(io)@, input_change),
        final(io)@.wf(),
{
    match input_change {
        InputChange::MouseDown { index, value } => io.mouse_down.set(index, value),
        InputChange::KeyDown { index, value } => io.keys_down.set(index, value),
        InputChange::MouseWheelScroll { delta } => io.mouse_wheel = accumulate(io.mouse_wheel, delta),
        InputChange::MouseWheelHorizontalScroll { delta } => {
            io.mouse_wheel_h = accumulate(io.mouse_wheel_h, delta)
        },
        InputChange::AddInputCharacter { character } => io.input_characters.push(character),
        InputChange::CtrlPressed { value } => io.key_ctrl = value,
        InputChange::ShiftPressed { value } => io.key_shift = value,
        InputChange::AltPressed { value } => io.key_alt = value,
        InputChange::SuperPressed { value } => io.key_super = value,
    }
}

/// Folds every queued change into the snapshot, oldest first, and leaves the
/// queue empty. Never blocks: an empty queue leaves the snapshot as it was.
pub fn drain_changes(queue: &mut ChangeQueue, io: &mut InputSnapshot)
    requires
        old(queue).wf(),
        old(io)@.wf(),
    ensures
        final(io)@ == apply_all(old(io)@, old(queue)@),
        final(io)@.wf(),
        final(queue)@ == Seq::<InputChange>::empty(),
        final(queue).wf(),
{
    let changes = queue.take_all();
    let n = changes.len();
    let mut i: usize = 0;
    while i < n
        invariant
            i <= n,
            n == changes@.len(),
            changes@ == old(queue)@,
            crate::change::all_valid(changes@),
            io@.wf(),
            io@ == apply_all(old(io)@, changes@.subrange(0, i as int)),
        decreases n - i,
    {
        let c = changes[i];
        update_io(io, c);
        assert(changes@.subrange(0, i + 1).drop_last() =~= changes@.subrange(0, i as int));
        i = i + 1;
    }
    assert(changes@.subrange(0, n as int) =~= changes@);
}

} // verus!
