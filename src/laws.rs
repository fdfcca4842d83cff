//! Properties that relate the decoder, the dispatch and the reducer.

use vstd::prelude::*;
use crate::change::InputChange;
use crate::decode::{
    as_signed16, button_transition, raw_input_changes, raw_keyboard_changes, raw_mouse_changes,
    raw_wheel_delta, right_side_bit, trunc_div, RawReport,
};
use crate::message::{
    RI_MOUSE_BUTTON_4_DOWN, RI_MOUSE_BUTTON_4_UP, RI_MOUSE_BUTTON_5_DOWN, RI_MOUSE_BUTTON_5_UP,
    RI_MOUSE_LEFT_BUTTON_DOWN, RI_MOUSE_LEFT_BUTTON_UP, RI_MOUSE_MIDDLE_BUTTON_DOWN,
    RI_MOUSE_MIDDLE_BUTTON_UP, RI_MOUSE_RIGHT_BUTTON_DOWN, RI_MOUSE_RIGHT_BUTTON_UP, RI_MOUSE_WHEEL, RI_MOUSE_HWHEEL, VK_CONTROL,
    VK_LCONTROL, VK_RCONTROL, WHEEL_DELTA, WM_KEYDOWN, WM_MOUSEHWHEEL, WM_MOUSEWHEEL,
    WM_SIZE, WM_SYSKEYDOWN, WM_LBUTTONDOWN, WM_LBUTTONUP, WM_RBUTTONDOWN, WM_RBUTTONUP,
    WM_MBUTTONDOWN, WM_MBUTTONUP, WM_XBUTTONDOWN, WM_XBUTTONUP,
};
use crate::snapshot::{apply_all, apply_change, SnapshotView};
use crate::wndproc::{
    extra_button, high_word, is_decoded_message, is_key_message, message_action, message_changes, ProcAction,
};

verus! {

/// Raw mouse report flag of a press (`down`) or release of button `index`.
pub open spec fn button_flag(index: usize, down: bool) -> u16 {
    if index == 0 {
        if down { RI_MOUSE_LEFT_BUTTON_DOWN } else { RI_MOUSE_LEFT_BUTTON_UP }
    } else if index == 1 {
        if down { RI_MOUSE_RIGHT_BUTTON_DOWN } else { RI_MOUSE_RIGHT_BUTTON_UP }
    } else if index == 2 {
        if down { RI_MOUSE_MIDDLE_BUTTON_DOWN } else { RI_MOUSE_MIDDLE_BUTTON_UP }
    } else if index == 3 {
        if down { RI_MOUSE_BUTTON_4_DOWN } else { RI_MOUSE_BUTTON_4_UP }
    } else {
        if down { RI_MOUSE_BUTTON_5_DOWN } else { RI_MOUSE_BUTTON_5_UP }
    }
}

proof fn lemma_apply_pair(s: SnapshotView, a: InputChange, b: InputChange)
    ensures
        apply_all(s, seq![a, b]) == apply_change(apply_change(s, a), b),
{
    reveal_with_fuel(apply_all, 3);
    assert(seq![a, b].drop_last() =~= seq![a]);
    assert(seq![a].drop_last() =~= Seq::<InputChange>::empty());
}

/// Two one-bit masks of a raw mouse report overlap only when equal.
proof fn lemma_single_bits(f: u16, m: u16)
    by (bit_vector)
    requires
        f == 1 || f == 2 || f == 4 || f == 8 || f == 16 || f == 32 || f == 64 || f == 128 || f
            == 256 || f == 512,
        m == 1 || m == 2 || m == 4 || m == 8 || m == 16 || m == 32 || m == 64 || m == 128 || m
            == 256 || m == 512 || m == 1024 || m == 2048,
    ensures
        (f & m != 0) == (f == m),
{
}

proof fn lemma_single_button_report(index: usize, down: bool, button_data: u16)
    requires
        index < 5,
    ensures
        raw_mouse_changes(button_flag(index, down), button_data) == button_transition(index, down),
{
    let f = button_flag(index, down);
    lemma_single_bits(f, RI_MOUSE_LEFT_BUTTON_DOWN);
    lemma_single_bits(f, RI_MOUSE_LEFT_BUTTON_UP);
    lemma_single_bits(f, RI_MOUSE_RIGHT_BUTTON_DOWN);
    lemma_single_bits(f, RI_MOUSE_RIGHT_BUTTON_UP);
    lemma_single_bits(f, RI_MOUSE_MIDDLE_BUTTON_DOWN);
    lemma_single_bits(f, RI_MOUSE_MIDDLE_BUTTON_UP);
    lemma_single_bits(f, RI_MOUSE_BUTTON_4_DOWN);
    lemma_single_bits(f, RI_MOUSE_BUTTON_4_UP);
    lemma_single_bits(f, RI_MOUSE_BUTTON_5_DOWN);
    lemma_single_bits(f, RI_MOUSE_BUTTON_5_UP);
    lemma_single_bits(f, RI_MOUSE_WHEEL);
    lemma_single_bits(f, RI_MOUSE_HWHEEL);
    assert(raw_mouse_changes(f, button_data) =~= button_transition(index, down));
}

/// A raw report pressing mouse button `index`, then one releasing it, leave
/// the button down after the first and up after the second.
pub proof fn lemma_raw_button_press_release(s: SnapshotView, index: usize, button_data: u16)
    requires
        s.wf(),
        index < 5,
    ensures
        ({
            let pressed = apply_all(s, raw_mouse_changes(button_flag(index, true), button_data));
            let released = apply_all(
                pressed,
                raw_mouse_changes(button_flag(index, false), button_data),
            );
            &&& pressed.wf() && pressed.mouse_down[index as int]
            &&& released.wf() && !released.mouse_down[index as int]
        }),
{
    lemma_single_button_report(index, true, button_data);
    lemma_single_button_report(index, false, button_data);
    let t = button_transition(index, true);
    lemma_apply_pair(s, t[0], t[1]);
    assert(t =~= seq![t[0], t[1]]);
    let p = apply_all(s, t);
    let u = button_transition(index, false);
    lemma_apply_pair(p, u[0], u[1]);
    assert(u =~= seq![u[0], u[1]]);
}

/// Legacy message that presses (`down`) or releases mouse button `index`.
pub open spec fn button_message(index: usize, down: bool) -> u32 {
    if index == 0 {
        if down { WM_LBUTTONDOWN } else { WM_LBUTTONUP }
    } else if index == 1 {
        if down { WM_RBUTTONDOWN } else { WM_RBUTTONUP }
    } else if index == 2 {
        if down { WM_MBUTTONDOWN } else { WM_MBUTTONUP }
    } else {
        if down { WM_XBUTTONDOWN } else { WM_XBUTTONUP }
    }
}

/// A button message pressing mouse button `index`, then one releasing it,
/// leave the button down after the first and up after the second. The extra
/// buttons are told apart by the high word of `wparam`.
pub proof fn lemma_message_button_press_release(
    s: SnapshotView,
    index: usize,
    wparam: usize,
    lparam: usize,
    report: Option<RawReport>,
    translation: u32,
)
    requires
        s.wf(),
        index < 3 || (index < 5 && extra_button(wparam) == index),
    ensures
        ({
            let pressed = apply_all(
                s,
                message_changes(button_message(index, true), wparam, lparam, report, translation),
            );
            let released = apply_all(
                pressed,
                message_changes(button_message(index, false), wparam, lparam, report, translation),
            );
            &&& pressed.wf() && pressed.mouse_down[index as int]
            &&& released.wf() && !released.mouse_down[index as int]
        }),
{
    let d = message_changes(button_message(index, true), wparam, lparam, report, translation);
    let u = message_changes(button_message(index, false), wparam, lparam, report, translation);
    assert(d =~= seq![InputChange::MouseDown { index, value: true }]);
    assert(u =~= seq![InputChange::MouseDown { index, value: false }]);
    lemma_apply_one(s, d[0]);
    lemma_apply_one(apply_all(s, d), u[0]);
}

proof fn lemma_apply_one(s: SnapshotView, a: InputChange)
    ensures
        apply_all(s, seq![a]) == apply_change(s, a),
{
    reveal_with_fuel(apply_all, 2);
    assert(seq![a].drop_last() =~= Seq::<InputChange>::empty());
}

/// A wheel message reports its signed high word exactly; a raw report's
/// whole-notch cut leaves a delta that is a multiple of the notch unit as it
/// is, so 240 stays two notches and -120 one notch back.
pub proof fn lemma_wheel_exact(wparam: usize, lparam: usize, report: Option<RawReport>, translation: u32, button_data: u16)
    requires
        as_signed16(button_data as int) % (WHEEL_DELTA as int) == 0,
    ensures
        message_changes(WM_MOUSEWHEEL, wparam, lparam, report, translation)
            == seq![InputChange::MouseWheelScroll { delta: as_signed16(high_word(wparam)) as i32 }],
        message_changes(WM_MOUSEHWHEEL, wparam, lparam, report, translation)
            == seq![InputChange::MouseWheelHorizontalScroll { delta: as_signed16(high_word(wparam)) as i32 }],
        raw_wheel_delta(button_data) == as_signed16(button_data as int),
{
    let a = as_signed16(button_data as int);
    if a >= 0 {
        assert(trunc_div(a, 120) * 120 == a) by (nonlinear_arith)
            requires a >= 0, a % 120 == 0;
    } else {
        assert((-a) % 120 == 0) by (nonlinear_arith)
            requires a < 0, a % 120 == 0;
        assert(((-a) / 120) * 120 == -a) by (nonlinear_arith)
            requires -a >= 0, (-a) % 120 == 0;
        assert(trunc_div(a, 120) * 120 == a) by (nonlinear_arith)
            requires trunc_div(a, 120) == -((-a) / 120), ((-a) / 120) * 120 == -a;
    }
}

/// A Control key press resolves to right Control when bit 24 of `lparam`
/// is set and to left Control otherwise, and sets the Control flag.
pub proof fn lemma_control_sides(umsg: u32, lparam: usize, report: Option<RawReport>, translation: u32)
    requires
        umsg == WM_KEYDOWN || umsg == WM_SYSKEYDOWN,
    ensures
        message_changes(umsg, VK_CONTROL as usize, lparam, report, translation) == seq![
            InputChange::KeyDown {
                index: if right_side_bit(lparam) { VK_RCONTROL as usize } else { VK_LCONTROL as usize },
                value: true,
            },
            InputChange::CtrlPressed { value: true },
        ],
{
    assert(message_changes(umsg, VK_CONTROL as usize, lparam, report, translation) =~= seq![
        InputChange::KeyDown {
            index: if right_side_bit(lparam) { VK_RCONTROL as usize } else { VK_LCONTROL as usize },
            value: true,
        },
        InputChange::CtrlPressed { value: true },
    ]);
}

/// A key message whose virtual key is 256 or more yields no change.
pub proof fn lemma_out_of_range_key(umsg: u32, wparam: usize, lparam: usize, report: Option<RawReport>, translation: u32)
    requires
        is_key_message(umsg),
        wparam >= 256,
    ensures
        message_changes(umsg, wparam, lparam, report, translation) == Seq::<InputChange>::empty(),
{
}

/// A raw keyboard report with key code 0 yields no change.
pub proof fn lemma_zero_key_code(wparam: usize, make_code: u16, flags: u16, translation: u32)
    ensures
        raw_keyboard_changes(make_code, flags, 0, translation) == Seq::<InputChange>::empty(),
        raw_input_changes(wparam, Some(RawReport::Keyboard { make_code, flags, vkey: 0 }), translation)
            == Seq::<InputChange>::empty(),
{
}

/// Draining nothing leaves the snapshot as it was.
pub proof fn lemma_drain_empty(s: SnapshotView)
    ensures
        apply_all(s, Seq::<InputChange>::empty()) == s,
{
}

/// Sum of the vertical and of the horizontal wheel deltas of `cs`.
pub open spec fn wheel_sums(cs: Seq<InputChange>) -> (int, int)
    decreases cs.len(),
{
    if cs.len() == 0 {
        (0, 0)
    } else {
        let (v, h) = wheel_sums(cs.drop_last());
        match cs.last() {
            InputChange::MouseWheelScroll { delta } => (v + delta, h),
            InputChange::MouseWheelHorizontalScroll { delta } => (v, h + delta),
            _ => (v, h),
        }
    }
}

/// Whether adding the wheel deltas of every prefix of `cs` to `s` stays
/// within the range of the accumulators.
pub open spec fn wheel_in_range(s: SnapshotView, cs: Seq<InputChange>) -> bool {
    forall|k: int|
        0 <= k <= cs.len() ==> {
            let (v, h) = #[trigger] wheel_sums(cs.subrange(0, k));
            &&& i64::MIN <= s.mouse_wheel + v <= i64::MAX
            &&& i64::MIN <= s.mouse_wheel_h + h <= i64::MAX
        }
}

/// Wheel deltas drained together add up: none overwrites another.
pub proof fn lemma_wheel_accumulates(s: SnapshotView, cs: Seq<InputChange>)
    requires
        wheel_in_range(s, cs),
    ensures
        apply_all(s, cs).mouse_wheel == s.mouse_wheel + wheel_sums(cs).0,
        apply_all(s, cs).mouse_wheel_h == s.mouse_wheel_h + wheel_sums(cs).1,
    decreases cs.len(),
{
    if cs.len() > 0 {
        let p = cs.drop_last();
        assert(cs.subrange(0, cs.len() as int) =~= cs);
        assert forall|k: int| 0 <= k <= p.len() implies {
            let (v, h) = #[trigger] wheel_sums(p.subrange(0, k));
            &&& i64::MIN <= s.mouse_wheel + v <= i64::MAX
            &&& i64::MIN <= s.mouse_wheel_h + h <= i64::MAX
        } by {
            assert(p.subrange(0, k) =~= cs.subrange(0, k));
        }
        lemma_wheel_accumulates(s, p);
    }
}

/// A resize message yields no change and always runs the resize callback.
pub proof fn lemma_resize(wparam: usize, lparam: usize, report: Option<RawReport>, translation: u32, should_block_messages: bool)
    ensures
        message_changes(WM_SIZE, wparam, lparam, report, translation) == Seq::<InputChange>::empty(),
        message_action(WM_SIZE, should_block_messages) == ProcAction::Resize,
{
}

/// A message that is neither decoded nor a resize yields no change, and is
/// swallowed while messages are blocked and passed on otherwise.
pub proof fn lemma_unrecognized(umsg: u32, wparam: usize, lparam: usize, report: Option<RawReport>, translation: u32)
    requires
        !is_decoded_message(umsg),
        umsg != WM_SIZE,
    ensures
        message_changes(umsg, wparam, lparam, report, translation) == Seq::<InputChange>::empty(),
        message_action(umsg, true) == ProcAction::Handled,
        message_action(umsg, false) == ProcAction::Forward,
{
}

} // verus!
