//! The decisions of the window procedure: which changes a message yields,
//! and whether the message is consumed or passed on.

use vstd::prelude::*;
use crate::change::{InputChange, KEY_COUNT};
use crate::decode::{
    as_signed16, handle_input, handle_raw_input, is_sideless_modifier, key_message_changes,
    key_message_scan_code, raw_input_changes, raw_keyboard_scan_code, raw_scan_code, signed_word,
    RawReport,
};
use crate::message::{
    RIM_INPUT, VK_CONTROL, VK_MENU, VK_SHIFT, WM_CHAR, WM_INPUT, WM_KEYDOWN, WM_KEYUP, WM_LBUTTONDBLCLK,
    WM_LBUTTONDOWN, WM_LBUTTONUP, WM_MBUTTONDBLCLK, WM_MBUTTONDOWN, WM_MBUTTONUP,
    WM_MOUSEHWHEEL, WM_MOUSEWHEEL, WM_RBUTTONDBLCLK, WM_RBUTTONDOWN, WM_RBUTTONUP, WM_SIZE,
    WM_SYSKEYDOWN, WM_SYSKEYUP, WM_XBUTTONDBLCLK, WM_XBUTTONDOWN, WM_XBUTTONUP, XBUTTON1,
};
use crate::queue::ChangeQueue;

verus! {

/// What the window procedure does with a message once it is decoded.
#[derive(Clone, Copy, Debug, PartialEq, Eq)]
pub enum ProcAction {
    /// Run the renderer's resize callback, then return the "handled" code.
    Resize,
    /// Return the "handled" code without calling the original procedure.
    Handled,
    /// Call the original procedure with the unmodified message and return
    /// its result.
    Forward,
}

/// High word of the low 32 bits of a message parameter.
pub open spec fn high_word(x: usize) -> int {
    (x as int % 0x1_0000_0000) / 0x10000
}

/// Key-down or key-up message, system variants included.
pub open spec fn is_key_message(umsg: u32) -> bool {
    umsg == WM_KEYDOWN || umsg == WM_SYSKEYDOWN || umsg == WM_KEYUP || umsg == WM_SYSKEYUP
}

/// Which of the two extra buttons an extra-button message names.
pub open spec fn extra_button(wparam: usize) -> usize {
    if high_word(wparam) == XBUTTON1 {
        3
    } else {
        4
    }
}

/// Every message whose changes the window procedure decodes.
pub open spec fn is_decoded_message(umsg: u32) -> bool {
    umsg == WM_INPUT || is_key_message(umsg) || umsg == WM_LBUTTONDOWN || umsg == WM_LBUTTONDBLCLK
        || umsg == WM_RBUTTONDOWN || umsg == WM_RBUTTONDBLCLK || umsg == WM_MBUTTONDOWN
        || umsg == WM_MBUTTONDBLCLK || umsg == WM_XBUTTONDOWN || umsg == WM_XBUTTONDBLCLK
        || umsg == WM_LBUTTONUP || umsg == WM_RBUTTONUP || umsg == WM_MBUTTONUP
        || umsg == WM_XBUTTONUP || umsg == WM_MOUSEWHEEL || umsg == WM_MOUSEHWHEEL
        || umsg == WM_CHAR
}

/// The changes a message yields, in emission order. `report` is the fetched
/// raw-input report of a raw-input message, and `translation` what the
/// platform's scan-code translation gave for the scan code that
/// `translation_request` names.
pub open spec fn message_changes(
    umsg: u32,
    wparam: usize,
    lparam: usize,
    report: Option<RawReport>,
    translation: u32,
) -> Seq<InputChange> {
    if umsg == WM_INPUT {
        raw_input_changes(wparam, report, translation)
    } else if is_key_message(umsg) {
        if wparam < KEY_COUNT {
            key_message_changes(umsg, wparam as u16, lparam, translation)
        } else {
            Seq::empty()
        }
    } else if umsg == WM_LBUTTONDOWN || umsg == WM_LBUTTONDBLCLK {
        seq![InputChange::MouseDown { index: 0, value: true }]
    } else if umsg == WM_RBUTTONDOWN || umsg == WM_RBUTTONDBLCLK {
        seq![InputChange::MouseDown { index: 1, value: true }]
    } else if umsg == WM_MBUTTONDOWN || umsg == WM_MBUTTONDBLCLK {
        seq![InputChange::MouseDown { index: 2, value: true }]
    } else if umsg == WM_XBUTTONDOWN || umsg == WM_XBUTTONDBLCLK {
        seq![InputChange::MouseDown { index: extra_button(wparam), value: true }]
    } else if umsg == WM_LBUTTONUP {
        seq![InputChange::MouseDown { index: 0, value: false }]
    } else if umsg == WM_RBUTTONUP {
        seq![InputChange::MouseDown { index: 1, value: false }]
    } else if umsg == WM_MBUTTONUP {
        seq![InputChange::MouseDown { index: 2, value: false }]
    } else if umsg == WM_XBUTTONUP {
        seq![InputChange::MouseDown { index: extra_button(wparam), value: false }]
    } else if umsg == WM_MOUSEWHEEL {
        seq![InputChange::MouseWheelScroll { delta: as_signed16(high_word(wparam)) as i32 }]
    } else if umsg == WM_MOUSEHWHEEL {
        seq![InputChange::MouseWheelHorizontalScroll { delta: as_signed16(high_word(wparam)) as i32 }]
    } else if umsg == WM_CHAR {
        seq![InputChange::AddInputCharacter { character: (wparam as int % 256) as char }]
    } else {
        Seq::empty()
    }
}

/// What becomes of a message: a resize always runs the resize callback and
/// is handled; any other message is swallowed while messages are blocked and
/// passed on otherwise.
pub open spec fn message_action(umsg: u32, should_block_messages: bool) -> ProcAction {
    if umsg == WM_SIZE {
        ProcAction::Resize
    } else if should_block_messages {
        ProcAction::Handled
    } else {
        ProcAction::Forward
    }
}

/// The scan code whose virtual-key translation the decoding of a message
/// consults, if any: that of a Shift key message, or the widened scan code of
/// a focused raw keyboard report of Shift, Control or Alt.
pub open spec fn translation_query(
    umsg: u32,
    wparam: usize,
    lparam: usize,
    report: Option<RawReport>,
) -> Option<u32> {
    if is_key_message(umsg) && wparam == VK_SHIFT {
        Some(key_message_scan_code(lparam))
    } else if umsg == WM_INPUT && wparam % 256 == RIM_INPUT {
        match report {
            Some(RawReport::Keyboard { make_code, flags, vkey }) => if is_sideless_modifier(vkey) {
                Some(raw_scan_code(make_code, flags))
            } else {
                None
            },
            _ => None,
        }
    } else {
        None
    }
}

/// Replication of the platform's HIWORD macro.
pub fn hiword(l: u32) -> (r: u16)
    ensures
        r == l / 0x10000,
{
    assert((l >> 16) & 0xffff == l / 0x10000) by (bit_vector);
    ((l >> 16) & 0xffff) as u16
}

fn wparam_hiword(wparam: usize) -> (r: u16)
    ensures
        r == high_word(wparam),
{
    let wide = wparam as u64;
    assert(wide & 0xffff_ffff == wide % 0x1_0000_0000) by (bit_vector);
    hiword((wide & 0xffff_ffff) as u32)
}

/// Names the scan code whose virtual-key translation the decoding of this
/// message will consult, so that the caller can ask the platform for it
/// before calling `process_message`.
pub fn translation_request(umsg: u32, wparam: usize, lparam: usize, report: Option<RawReport>) -> (r:
    Option<u32>)
    ensures
        r == translation_query(umsg, wparam, lparam, report),
{
    let is_key = umsg == WM_KEYDOWN || umsg == WM_SYSKEYDOWN || umsg == WM_KEYUP || umsg
        == WM_SYSKEYUP;
    if is_key && wparam == VK_SHIFT as usize {
        let code = (lparam & 0x00ff_0000) >> 16;
        assert((lparam & 0x00ff_0000) >> 16 == (lparam / 0x10000) % 0x100) by (bit_vector);
        return Some(code as u32);
    }
    assert(wparam & 0xff == wparam % 256) by (bit_vector);
    if umsg == WM_INPUT && wparam & 0xFF == RIM_INPUT {
        match report {
            Some(RawReport::Keyboard { make_code, flags, vkey }) => {
                if vkey == VK_SHIFT || vkey == VK_CONTROL || vkey == VK_MENU {
                    Some(raw_keyboard_scan_code(make_code, flags))
                } else {
                    None
                }
            },
            _ => None,
        }
    } else {
        None
    }
}

/// Decodes one message into the queue and says what the window procedure
/// does with it next.
pub fn process_message(
    queue: &mut ChangeQueue,
    umsg: u32,
    wparam: usize,
    lparam: usize,
    report: Option<RawReport>,
    translation: u32,
    should_block_messages: bool,
) -> (r: ProcAction)
    requires
        old(queue).wf(),
    ensures
        final(queue)@ == old(queue)@ + message_changes(umsg, wparam, lparam, report, translation),
        final(queue).wf(),
        r == message_action(umsg, should_block_messages),
{
    let ghost start = queue@;
    if umsg == WM_INPUT {
        handle_raw_input(queue, wparam, report, translation);
    } else if umsg == WM_KEYDOWN || umsg == WM_SYSKEYDOWN || umsg == WM_KEYUP || umsg
        == WM_SYSKEYUP {
        // Out-of-range key codes would address no key state.
        if wparam < KEY_COUNT {
            handle_input(queue, umsg, wparam, lparam, translation);
        }
    } else if umsg == WM_LBUTTONDOWN || umsg == WM_LBUTTONDBLCLK {
        queue.send(InputChange::MouseDown { index: 0, value: true });
    } else if umsg == WM_RBUTTONDOWN || umsg == WM_RBUTTONDBLCLK {
        queue.send(InputChange::MouseDown { index: 1, value: true });
    } else if umsg == WM_MBUTTONDOWN || umsg == WM_MBUTTONDBLCLK {
        queue.send(InputChange::MouseDown { index: 2, value: true });
    } else if umsg == WM_XBUTTONDOWN || umsg == WM_XBUTTONDBLCLK {
        let btn: usize = if wparam_hiword(wparam) == XBUTTON1 { 3 } else { 4 };
        queue.send(InputChange::MouseDown { index: btn, value: true });
    } else if umsg == WM_LBUTTONUP {
        queue.send(InputChange::MouseDown { index: 0, value: false });
    } else if umsg == WM_RBUTTONUP {
        queue.send(InputChange::MouseDown { index: 1, value: false });
    } else if umsg == WM_MBUTTONUP {
        queue.send(InputChange::MouseDown { index: 2, value: false });
    } else if umsg == WM_XBUTTONUP {
        let btn: usize = if wparam_hiword(wparam) == XBUTTON1 { 3 } else { 4 };
        queue.send(InputChange::MouseDown { index: btn, value: false });
    } else if umsg == WM_MOUSEWHEEL {
        let delta = signed_word(wparam_hiword(wparam));
        queue.send(InputChange::MouseWheelScroll { delta });
    } else if umsg == WM_MOUSEHWHEEL {
        let delta = signed_word(wparam_hiword(wparam));
        queue.send(InputChange::MouseWheelHorizontalScroll { delta });
    } else if umsg == WM_CHAR {
        let byte = (wparam & 0xff) as u8;
        assert(wparam & 0xff == wparam % 256) by (bit_vector);
        queue.send(InputChange::AddInputCharacter { character: byte as char });
    }
    assert(queue@ =~= start + message_changes(umsg, wparam, lparam, report, translation));

    if umsg == WM_SIZE {
        ProcAction::Resize
    } else if should_block_messages {
        ProcAction::Handled
    } else {
        ProcAction::Forward
    }
}

} // verus!
