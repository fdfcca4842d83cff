//! Decoding of raw-input reports and legacy key messages into input changes.

use vstd::prelude::*;
use vstd::seq_lib::lemma_concat_associative;
use crate::change::{InputChange, KEY_COUNT};
use crate::message::{
    RI_MOUSE_BUTTON_4_DOWN, RI_MOUSE_BUTTON_4_UP, RI_MOUSE_BUTTON_5_DOWN, RI_MOUSE_BUTTON_5_UP,
    RI_MOUSE_HWHEEL, RI_MOUSE_LEFT_BUTTON_DOWN, RI_MOUSE_LEFT_BUTTON_UP,
    RI_MOUSE_MIDDLE_BUTTON_DOWN, RI_MOUSE_MIDDLE_BUTTON_UP, RI_MOUSE_RIGHT_BUTTON_DOWN,
    RI_MOUSE_RIGHT_BUTTON_UP, RI_MOUSE_WHEEL, VK_LBUTTON, VK_MBUTTON, VK_RBUTTON, VK_XBUTTON1,
    VK_XBUTTON2, WHEEL_DELTA, RI_KEY_BREAK, RI_KEY_E0, RI_KEY_E1, RIM_INPUT, VK_SHIFT, VK_CONTROL,
    VK_MENU, VK_LCONTROL, VK_RCONTROL, VK_LMENU, VK_RMENU, VK_LSHIFT, VK_RSHIFT, VK_LWIN, VK_RWIN,
    WM_KEYDOWN, WM_SYSKEYDOWN,
};
use crate::queue::ChangeQueue;

verus! {

/// `s` when `c` holds, nothing otherwise.
pub open spec fn when(c: bool, s: Seq<InputChange>) -> Seq<InputChange> {
    if c {
        s
    } else {
        Seq::empty()
    }
}

/// A 16-bit word read as a two's-complement signed number.
pub open spec fn as_signed16(w: int) -> int {
    if w < 0x8000 {
        w
    } else {
        w - 0x10000
    }
}

/// Integer division rounding toward zero.
pub open spec fn trunc_div(a: int, b: int) -> int {
    if a >= 0 {
        a / b
    } else {
        -((-a) / b)
    }
}

/// Virtual key of mouse button `index`.
pub open spec fn button_vkey(index: usize) -> u16 {
    if index == 0 {
        VK_LBUTTON
    } else if index == 1 {
        VK_RBUTTON
    } else if index == 2 {
        VK_MBUTTON
    } else if index == 3 {
        VK_XBUTTON1
    } else {
        VK_XBUTTON2
    }
}

/// A button transition of a raw report: the key state of the button's
/// virtual key, then the button state.
pub open spec fn button_transition(index: usize, value: bool) -> Seq<InputChange> {
    seq![
        InputChange::KeyDown { index: button_vkey(index) as usize, value },
        InputChange::MouseDown { index, value },
    ]
}

/// Wheel delta of a raw mouse report: the signed wheel value cut down to
/// whole notches.
pub open spec fn raw_wheel_delta(button_data: u16) -> int {
    trunc_div(as_signed16(button_data as int), WHEEL_DELTA as int) * WHEEL_DELTA
}

/// The changes a raw mouse report yields, in emission order.
pub open spec fn raw_mouse_changes(flags: u16, button_data: u16) -> Seq<InputChange> {
    when(flags & RI_MOUSE_LEFT_BUTTON_DOWN != 0, button_transition(0, true))
        + when(flags & RI_MOUSE_LEFT_BUTTON_UP != 0, button_transition(0, false))
        + when(flags & RI_MOUSE_RIGHT_BUTTON_DOWN != 0, button_transition(1, true))
        + when(flags & RI_MOUSE_RIGHT_BUTTON_UP != 0, button_transition(1, false))
        + when(flags & RI_MOUSE_MIDDLE_BUTTON_DOWN != 0, button_transition(2, true))
        + when(flags & RI_MOUSE_MIDDLE_BUTTON_UP != 0, button_transition(2, false))
        + when(flags & RI_MOUSE_BUTTON_4_DOWN != 0, button_transition(3, true))
        + when(flags & RI_MOUSE_BUTTON_4_UP != 0, button_transition(3, false))
        + when(flags & RI_MOUSE_BUTTON_5_DOWN != 0, button_transition(4, true))
        + when(flags & RI_MOUSE_BUTTON_5_UP != 0, button_transition(4, false))
        + when(
            flags & RI_MOUSE_WHEEL != 0,
            seq![InputChange::MouseWheelScroll { delta: raw_wheel_delta(button_data) as i32 }],
        )
        + when(
            flags & RI_MOUSE_HWHEEL != 0,
            seq![
                InputChange::MouseWheelHorizontalScroll {
                    delta: raw_wheel_delta(button_data) as i32,
                },
            ],
        )
}

/// Reads a 16-bit word as a signed number.
pub fn signed_word(w: u16) -> (r: i32)
    ensures
        r == as_signed16(w as int),
{
    if w < 0x8000 {
        w as i32
    } else {
        w as i32 - 0x10000
    }
}

/// Queues the changes of one button transition flag of a raw mouse report.
fn send_button_transition(queue: &mut ChangeQueue, flags: u16, flag: u16, index: usize, value: bool)
    requires
        old(queue).wf(),
        index < 5,
    ensures
        final(queue)@ == old(queue)@ + when(flags & flag != 0, button_transition(index, value)),
        final(queue).wf(),
{
    if flags & flag != 0 {
        let vkey = if index == 0 {
            VK_LBUTTON
        } else if index == 1 {
            VK_RBUTTON
        } else if index == 2 {
            VK_MBUTTON
        } else if index == 3 {
            VK_XBUTTON1
        } else {
            VK_XBUTTON2
        };
        queue.send(InputChange::KeyDown { index: vkey as usize, value });
        queue.send(InputChange::MouseDown { index, value });
    }
    assert(final(queue)@ =~= old(queue)@ + when(flags & flag != 0, button_transition(index, value)));
}

/// Queues the changes of a raw mouse report: each button transition flag set
/// in `button_flags` gives the button's key state and button state, and the
/// wheel flags give whole-notch wheel deltas.
pub fn handle_raw_mouse_input(queue: &mut ChangeQueue, button_flags: u16, button_data: u16)
    requires
        old(queue).wf(),
    ensures
        final(queue)@ == old(queue)@ + raw_mouse_changes(button_flags, button_data),
        final(queue).wf(),
{
    let ghost start = queue@;
    let ghost f = button_flags;
    send_button_transition(queue, button_flags, RI_MOUSE_LEFT_BUTTON_DOWN, 0, true);
    let ghost mut done = when(f & RI_MOUSE_LEFT_BUTTON_DOWN != 0, button_transition(0, true));
    send_button_transition(queue, button_flags, RI_MOUSE_LEFT_BUTTON_UP, 0, false);
    proof {
        let w = when(f & RI_MOUSE_LEFT_BUTTON_UP != 0, button_transition(0, false));
        lemma_concat_associative(start, done, w);
        done = done + w;
    }
    send_button_transition(queue, button_flags, RI_MOUSE_RIGHT_BUTTON_DOWN, 1, true);
    proof {
        let w = when(f & RI_MOUSE_RIGHT_BUTTON_DOWN != 0, button_transition(1, true));
        lemma_concat_associative(start, done, w);
        done = done + w;
    }
    send_button_transition(queue, button_flags, RI_MOUSE_RIGHT_BUTTON_UP, 1, false);
    proof {
        let w = when(f & RI_MOUSE_RIGHT_BUTTON_UP != 0, button_transition(1, false));
        lemma_concat_associative(start, done, w);
        done = done + w;
    }
    send_button_transition(queue, button_flags, RI_MOUSE_MIDDLE_BUTTON_DOWN, 2, true);
    proof {
        let w = when(f & RI_MOUSE_MIDDLE_BUTTON_DOWN != 0, button_transition(2, true));
        lemma_concat_associative(start, done, w);
        done = done + w;
    }
    send_button_transition(queue, button_flags, RI_MOUSE_MIDDLE_BUTTON_UP, 2, false);
    proof {
        let w = when(f & RI_MOUSE_MIDDLE_BUTTON_UP != 0, button_transition(2, false));
        lemma_concat_associative(start, done, w);
        done = done + w;
    }
    send_button_transition(queue, button_flags, RI_MOUSE_BUTTON_4_DOWN, 3, true);
    proof {
        let w = when(f & RI_MOUSE_BUTTON_4_DOWN != 0, button_transition(3, true));
        lemma_concat_associative(start, done, w);
        done = done + w;
    }
    send_button_transition(queue, button_flags, RI_MOUSE_BUTTON_4_UP, 3, false);
    proof {
        let w = when(f & RI_MOUSE_BUTTON_4_UP != 0, button_transition(3, false));
        lemma_concat_associative(start, done, w);
        done = done + w;
    }
    send_button_transition(queue, button_flags, RI_MOUSE_BUTTON_5_DOWN, 4, true);
    proof {
        let w = when(f & RI_MOUSE_BUTTON_5_DOWN != 0, button_transition(4, true));
        lemma_concat_associative(start, done, w);
        done = done + w;
    }
    send_button_transition(queue, button_flags, RI_MOUSE_BUTTON_5_UP, 4, false);
    proof {
        let w = when(f & RI_MOUSE_BUTTON_5_UP != 0, button_transition(4, false));
        lemma_concat_associative(start, done, w);
        done = done + w;
    }

    send_raw_wheel(queue, button_flags, RI_MOUSE_WHEEL, false, button_data);
    proof {
        let w = when(
            f & RI_MOUSE_WHEEL != 0,
            seq![InputChange::MouseWheelScroll { delta: raw_wheel_delta(button_data) as i32 }],
        );
        lemma_concat_associative(start, done, w);
        done = done + w;
    }
    send_raw_wheel(queue, button_flags, RI_MOUSE_HWHEEL, true, button_data);
    proof {
        let w = when(
            f & RI_MOUSE_HWHEEL != 0,
            seq![InputChange::MouseWheelHorizontalScroll { delta: raw_wheel_delta(button_data) as i32 }],
        );
        lemma_concat_associative(start, done, w);
        done = done + w;
    }
}

/// Queues the wheel change of a raw mouse report when its wheel flag is set.
/// Both wheels divide by the same notch unit, cutting toward zero.
fn send_raw_wheel(queue: &mut ChangeQueue, flags: u16, flag: u16, horizontal: bool, button_data: u16)
    requires
        old(queue).wf(),
    ensures
        final(queue)@ == old(queue)@ + when(
            flags & flag != 0,
            if horizontal {
                seq![InputChange::MouseWheelHorizontalScroll { delta: raw_wheel_delta(button_data) as i32 }]
            } else {
                seq![InputChange::MouseWheelScroll { delta: raw_wheel_delta(button_data) as i32 }]
            },
        ),
        final(queue).wf(),
{
    let signed = signed_word(button_data);
    let notches: i32 = if signed >= 0 {
        signed / WHEEL_DELTA
    } else {
        -((-signed) / WHEEL_DELTA)
    };
    let wheel_delta: i32 = notches * WHEEL_DELTA;
    if flags & flag != 0 {
        if horizontal {
            queue.send(InputChange::MouseWheelHorizontalScroll { delta: wheel_delta });
        } else {
            queue.send(InputChange::MouseWheelScroll { delta: wheel_delta });
        }
    }
    assert(final(queue)@ =~= old(queue)@ + when(
        flags & flag != 0,
        if horizontal {
            seq![InputChange::MouseWheelHorizontalScroll { delta: raw_wheel_delta(button_data) as i32 }]
        } else {
            seq![InputChange::MouseWheelScroll { delta: raw_wheel_delta(button_data) as i32 }]
        },
    ));
}

/// A raw-input report, its device class told apart before any field of it
/// is read.
#[derive(Clone, Copy, Debug, PartialEq, Eq)]
pub enum RawReport {
    Mouse { button_flags: u16, button_data: u16 },
    Keyboard { make_code: u16, flags: u16, vkey: u16 },
    Other,
}

/// Scan code of a raw keyboard report, widened with its E0 and E1 prefixes.
pub open spec fn raw_scan_code(make_code: u16, flags: u16) -> u32 {
    let code = make_code as u32;
    let code = if flags & RI_KEY_E0 != 0 {
        code | 0xe000
    } else {
        code
    };
    if flags & RI_KEY_E1 != 0 {
        code | 0xe100
    } else {
        code
    }
}

/// Shift, Control or Alt, without a side.
pub open spec fn is_sideless_modifier(vkey: u16) -> bool {
    vkey == VK_SHIFT || vkey == VK_CONTROL || vkey == VK_MENU
}

/// Virtual key of a raw keyboard report: a sideless modifier takes the
/// translation of the scan code unless that translation is 0.
pub open spec fn raw_virtual_key(vkey: u16, translation: u32) -> int {
    if is_sideless_modifier(vkey) && translation != 0 {
        translation as int
    } else {
        vkey as int
    }
}

/// The changes a raw keyboard report yields. `translation` is what the
/// platform's scan-code to virtual-key translation gives for the report's
/// widened scan code.
pub open spec fn raw_keyboard_changes(make_code: u16, flags: u16, vkey: u16, translation: u32) -> Seq<InputChange> {
    let key = raw_virtual_key(vkey, translation);
    if vkey == 0 || key >= 0xFF {
        Seq::empty()
    } else {
        when(flags & RI_KEY_BREAK == 0, seq![InputChange::KeyDown { index: key as usize, value: true }])
            + when(
            flags & RI_KEY_BREAK != 0,
            seq![InputChange::KeyDown { index: key as usize, value: false }],
        )
    }
}

/// Computes the widened scan code of a raw keyboard report.
pub fn raw_keyboard_scan_code(make_code: u16, flags: u16) -> (r: u32)
    ensures
        r == raw_scan_code(make_code, flags),
{
    let mut code = make_code as u32;
    // Needed to tell left from right on Control and Alt (not on Shift).
    if flags & RI_KEY_E0 != 0 {
        code |= 0xe000;
    }
    if flags & RI_KEY_E1 != 0 {
        code |= 0xe100;
    }
    code
}

/// Queues the changes of a raw keyboard report. A make report presses the
/// key and a break report releases it; a zero key code, or a key outside the
/// key-state array, is dropped.
pub fn handle_raw_keyboard_input(
    queue: &mut ChangeQueue,
    make_code: u16,
    flags: u16,
    vkey: u16,
    translation: u32,
)
    requires
        old(queue).wf(),
    ensures
        final(queue)@ == old(queue)@ + raw_keyboard_changes(make_code, flags, vkey, translation),
        final(queue).wf(),
{
    // Ignore reports without a valid key code.
    if vkey == 0 {
        assert(final(queue)@ =~= old(queue)@ + raw_keyboard_changes(make_code, flags, vkey, translation));
        return;
    }

    let is_key_down = flags & RI_KEY_BREAK == 0;
    let is_key_up = flags & RI_KEY_BREAK != 0;

    let virtual_key: u32 = if (vkey == VK_SHIFT || vkey == VK_CONTROL || vkey == VK_MENU)
        && translation != 0 {
        translation
    } else {
        vkey as u32
    };

    if virtual_key < 0xFF {
        if is_key_down {
            queue.send(InputChange::KeyDown { index: virtual_key as usize, value: true });
        }
        if is_key_up {
            queue.send(InputChange::KeyDown { index: virtual_key as usize, value: false });
        }
    }
    assert(final(queue)@ =~= old(queue)@ + raw_keyboard_changes(make_code, flags, vkey, translation));
}

/// The changes a raw-input notification yields. `report` is the fetched
/// report, `None` where fetching it failed; input that arrived while the
/// window lacked the focus is dropped.
pub open spec fn raw_input_changes(wparam: usize, report: Option<RawReport>, translation: u32) -> Seq<InputChange> {
    match report {
        None => Seq::empty(),
        Some(r) => if wparam % 256 != RIM_INPUT {
            Seq::empty()
        } else {
            match r {
                RawReport::Mouse { button_flags, button_data } => raw_mouse_changes(button_flags, button_data),
                RawReport::Keyboard { make_code, flags, vkey } => raw_keyboard_changes(make_code, flags, vkey, translation),
                RawReport::Other => Seq::empty(),
            }
        },
    }
}

/// Queues the changes of a raw-input notification.
pub fn handle_raw_input(queue: &mut ChangeQueue, wparam: usize, report: Option<RawReport>, translation: u32)
    requires
        old(queue).wf(),
    ensures
        final(queue)@ == old(queue)@ + raw_input_changes(wparam, report, translation),
        final(queue).wf(),
{
    let r = match report {
        // Fetching the report failed.
        None => {
            assert(final(queue)@ =~= old(queue)@ + raw_input_changes(wparam, report, translation));
            return;
        },
        Some(r) => r,
    };
    // Ignore input delivered while the window is not focused.
    assert(wparam & 0xff == wparam % 256) by (bit_vector);
    if wparam & 0xFF != RIM_INPUT {
        assert(final(queue)@ =~= old(queue)@ + raw_input_changes(wparam, report, translation));
        return;
    }
    match r {
        RawReport::Mouse { button_flags, button_data } => {
            handle_raw_mouse_input(queue, button_flags, button_data);
        },
        RawReport::Keyboard { make_code, flags, vkey } => {
            handle_raw_keyboard_input(queue, make_code, flags, vkey, translation);
        },
        RawReport::Other => {
            assert(final(queue)@ =~= old(queue)@ + raw_input_changes(wparam, report, translation));
        },
    }
}

/// Whether bit 24 of a key message's auxiliary parameter, which marks the
/// right-hand Control and Alt keys, is set.
pub open spec fn right_side_bit(lparam: usize) -> bool {
    lparam & 0x0100_0000 != 0
}

/// Scan code carried in bits 16 to 23 of a key message's auxiliary parameter.
pub open spec fn key_message_scan_code(lparam: usize) -> u32 {
    ((lparam as int / 0x10000) % 0x100) as u32
}

/// Side-specific virtual key of a key message. Shift takes the translation
/// of the message's scan code, unless that is 0 or no key-state index;
/// Control and Alt go by bit 24.
pub open spec fn legacy_virtual_key(vkey: u16, lparam: usize, translation: u32) -> u16 {
    if vkey == VK_SHIFT {
        if translation == 0 || translation >= KEY_COUNT {
            vkey
        } else {
            translation as u16
        }
    } else if vkey == VK_CONTROL {
        if right_side_bit(lparam) {
            VK_RCONTROL
        } else {
            VK_LCONTROL
        }
    } else if vkey == VK_MENU {
        if right_side_bit(lparam) {
            VK_RMENU
        } else {
            VK_LMENU
        }
    } else {
        vkey
    }
}

/// Resolves Shift, Control and Alt of a key message to their left or right
/// variant. `translation` is what the platform's scan-code translation gives
/// for the message's scan code.
pub fn map_vkey(wparam: u16, lparam: usize, translation: u32) -> (r: u16)
    ensures
        r == legacy_virtual_key(wparam, lparam, translation),
{
    if wparam == VK_SHIFT {
        if translation == 0 || translation >= KEY_COUNT as u32 {
            wparam
        } else {
            translation as u16
        }
    } else if wparam == VK_CONTROL {
        if lparam & 0x0100_0000 != 0 {
            VK_RCONTROL
        } else {
            VK_LCONTROL
        }
    } else if wparam == VK_MENU {
        if lparam & 0x0100_0000 != 0 {
            VK_RMENU
        } else {
            VK_LMENU
        }
    } else {
        wparam
    }
}

/// The modifier flag change that a transition of `key` also gives, if any.
pub open spec fn modifier_changes(key: u16, pressed: bool) -> Seq<InputChange> {
    if key == VK_CONTROL || key == VK_LCONTROL || key == VK_RCONTROL {
        seq![InputChange::CtrlPressed { value: pressed }]
    } else if key == VK_SHIFT || key == VK_LSHIFT || key == VK_RSHIFT {
        seq![InputChange::ShiftPressed { value: pressed }]
    } else if key == VK_MENU || key == VK_LMENU || key == VK_RMENU {
        seq![InputChange::AltPressed { value: pressed }]
    } else if key == VK_LWIN || key == VK_RWIN {
        seq![InputChange::SuperPressed { value: pressed }]
    } else {
        Seq::empty()
    }
}

/// Whether a key message is a press (as opposed to a release).
pub open spec fn is_key_press(umsg: u32) -> bool {
    umsg == WM_KEYDOWN || umsg == WM_SYSKEYDOWN
}

/// The changes of a key message: the resolved key's state, then the
/// modifier flag it belongs to.
pub open spec fn key_message_changes(umsg: u32, vkey: u16, lparam: usize, translation: u32) -> Seq<InputChange> {
    let key = legacy_virtual_key(vkey, lparam, translation);
    seq![InputChange::KeyDown { index: key as usize, value: is_key_press(umsg) }]
        + modifier_changes(key, is_key_press(umsg))
}

/// Queues the changes of a key-down or key-up message (system variants
/// included) whose virtual key is below 256.
pub fn handle_input(queue: &mut ChangeQueue, umsg: u32, wparam: usize, lparam: usize, translation: u32)
    requires
        old(queue).wf(),
        wparam < KEY_COUNT,
    ensures
        final(queue)@ == old(queue)@ + key_message_changes(umsg, wparam as u16, lparam, translation),
        final(queue).wf(),
{
    let pressed = umsg == WM_KEYDOWN || umsg == WM_SYSKEYDOWN;
    let key_pressed = map_vkey(wparam as u16, lparam, translation);
    queue.send(InputChange::KeyDown { index: key_pressed as usize, value: pressed });

    // The modifier flags are tracked apart from the key states, so every key
    // transition is checked against them as well.
    if key_pressed == VK_CONTROL || key_pressed == VK_LCONTROL || key_pressed == VK_RCONTROL {
        queue.send(InputChange::CtrlPressed { value: pressed });
    } else if key_pressed == VK_SHIFT || key_pressed == VK_LSHIFT || key_pressed == VK_RSHIFT {
        queue.send(InputChange::ShiftPressed { value: pressed });
    } else if key_pressed == VK_MENU || key_pressed == VK_LMENU || key_pressed == VK_RMENU {
        queue.send(InputChange::AltPressed { value: pressed });
    } else if key_pressed == VK_LWIN || key_pressed == VK_RWIN {
        queue.send(InputChange::SuperPressed { value: pressed });
    }
    assert(final(queue)@ =~= old(queue)@ + key_message_changes(umsg, wparam as u16, lparam, translation));
}

} // verus!
