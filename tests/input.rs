use wnd_input::change::InputChange;
use wnd_input::decode::{
    handle_input, handle_raw_input, handle_raw_keyboard_input, handle_raw_mouse_input, map_vkey,
    raw_keyboard_scan_code, signed_word, RawReport,
};
use wnd_input::message::{
    RI_KEY_BREAK, RI_KEY_E0, RI_KEY_E1, RI_MOUSE_BUTTON_4_DOWN, RI_MOUSE_BUTTON_4_UP,
    RI_MOUSE_BUTTON_5_DOWN, RI_MOUSE_BUTTON_5_UP, RI_MOUSE_HWHEEL, RI_MOUSE_LEFT_BUTTON_DOWN,
    RI_MOUSE_LEFT_BUTTON_UP, RI_MOUSE_MIDDLE_BUTTON_DOWN, RI_MOUSE_MIDDLE_BUTTON_UP,
    RI_MOUSE_RIGHT_BUTTON_DOWN, RI_MOUSE_RIGHT_BUTTON_UP, RI_MOUSE_WHEEL, VK_CONTROL, VK_LCONTROL,
    VK_LMENU, VK_LSHIFT, VK_LWIN, VK_MENU, VK_RCONTROL, VK_RMENU, VK_RSHIFT, VK_SHIFT,
    WHEEL_DELTA, WM_CHAR, WM_INPUT, WM_KEYDOWN, WM_KEYUP, WM_LBUTTONDBLCLK, WM_LBUTTONDOWN,
    WM_LBUTTONUP, WM_MBUTTONDOWN, WM_MBUTTONUP, WM_MOUSEHWHEEL, WM_MOUSEWHEEL, WM_RBUTTONDOWN,
    WM_RBUTTONUP, WM_SIZE, WM_SYSKEYDOWN, WM_SYSKEYUP, WM_XBUTTONDOWN, WM_XBUTTONUP,
};
use wnd_input::queue::ChangeQueue;
use wnd_input::snapshot::{drain_changes, update_io, InputSnapshot};
use wnd_input::wndproc::{hiword, process_message, translation_request, ProcAction};

fn decode(umsg: u32, wparam: usize, lparam: usize) -> (Vec<InputChange>, ProcAction) {
    let mut q = ChangeQueue::new();
    let action = process_message(&mut q, umsg, wparam, lparam, None, 0, false);
    (q.take_all(), action)
}

fn raw_mouse(flags: u16, data: u16) -> Vec<InputChange> {
    let mut q = ChangeQueue::new();
    handle_raw_mouse_input(&mut q, flags, data);
    q.take_all()
}

fn apply(snapshot: &mut InputSnapshot, changes: Vec<InputChange>) {
    let mut q = ChangeQueue::new();
    for c in changes {
        q.send(c);
    }
    drain_changes(&mut q, snapshot);
    assert_eq!(q.len(), 0);
}

fn notches(delta: i32) -> f32 {
    delta as f32 / WHEEL_DELTA as f32
}

#[test]
fn raw_button_press_then_release_for_every_button() {
    let pairs = [
        (RI_MOUSE_LEFT_BUTTON_DOWN, RI_MOUSE_LEFT_BUTTON_UP),
        (RI_MOUSE_RIGHT_BUTTON_DOWN, RI_MOUSE_RIGHT_BUTTON_UP),
        (RI_MOUSE_MIDDLE_BUTTON_DOWN, RI_MOUSE_MIDDLE_BUTTON_UP),
        (RI_MOUSE_BUTTON_4_DOWN, RI_MOUSE_BUTTON_4_UP),
        (RI_MOUSE_BUTTON_5_DOWN, RI_MOUSE_BUTTON_5_UP),
    ];
    let vkeys = [1usize, 2, 4, 5, 6];
    for (index, (down, up)) in pairs.iter().enumerate() {
        let mut s = InputSnapshot::new();
        apply(&mut s, raw_mouse(*down, 0));
        assert!(s.mouse_down[index]);
        assert!(s.keys_down[vkeys[index]]);
        apply(&mut s, raw_mouse(*up, 0));
        assert!(!s.mouse_down[index]);
        assert!(!s.keys_down[vkeys[index]]);
    }
}

#[test]
fn message_button_press_then_release_for_every_button() {
    let messages = [
        (WM_LBUTTONDOWN, WM_LBUTTONUP, 0usize),
        (WM_RBUTTONDOWN, WM_RBUTTONUP, 0),
        (WM_MBUTTONDOWN, WM_MBUTTONUP, 0),
        (WM_XBUTTONDOWN, WM_XBUTTONUP, 0x0001_0000),
        (WM_XBUTTONDOWN, WM_XBUTTONUP, 0x0002_0000),
    ];
    for (index, (down, up, wparam)) in messages.iter().enumerate() {
        let mut s = InputSnapshot::new();
        let (changes, _) = decode(*down, *wparam, 0);
        assert_eq!(changes, vec![InputChange::MouseDown { index, value: true }]);
        apply(&mut s, changes);
        assert!(s.mouse_down[index]);
        let (changes, _) = decode(*up, *wparam, 0);
        apply(&mut s, changes);
        assert!(!s.mouse_down[index]);
    }
}

#[test]
fn raw_report_emits_key_state_then_button_state() {
    assert_eq!(
        raw_mouse(RI_MOUSE_RIGHT_BUTTON_DOWN | RI_MOUSE_RIGHT_BUTTON_UP, 0),
        vec![
            InputChange::KeyDown { index: 2, value: true },
            InputChange::MouseDown { index: 1, value: true },
            InputChange::KeyDown { index: 2, value: false },
            InputChange::MouseDown { index: 1, value: false },
        ]
    );
}

#[test]
fn double_click_counts_as_press() {
    let (changes, _) = decode(WM_LBUTTONDBLCLK, 0, 0);
    assert_eq!(changes, vec![InputChange::MouseDown { index: 0, value: true }]);
}

#[test]
fn wheel_message_of_whole_notches_is_exact() {
    let (changes, _) = decode(WM_MOUSEWHEEL, 240 << 16, 0);
    assert_eq!(changes, vec![InputChange::MouseWheelScroll { delta: 240 }]);
    assert_eq!(notches(240), 2.0);
    let (changes, _) = decode(WM_MOUSEWHEEL, 0xff88 << 16, 0);
    assert_eq!(changes, vec![InputChange::MouseWheelScroll { delta: -120 }]);
    assert_eq!(notches(-120), -1.0);
}

#[test]
fn horizontal_wheel_message_keeps_fractions() {
    let (changes, _) = decode(WM_MOUSEHWHEEL, (60 << 16) | 0x1234, 0);
    assert_eq!(changes, vec![InputChange::MouseWheelHorizontalScroll { delta: 60 }]);
    assert_eq!(notches(60), 0.5);
}

#[test]
fn raw_wheel_of_whole_notches_is_exact() {
    assert_eq!(raw_mouse(RI_MOUSE_WHEEL, 240), vec![InputChange::MouseWheelScroll { delta: 240 }]);
    assert_eq!(
        raw_mouse(RI_MOUSE_HWHEEL, (-120i16) as u16),
        vec![InputChange::MouseWheelHorizontalScroll { delta: -120 }]
    );
}

#[test]
fn raw_wheel_cuts_toward_zero() {
    assert_eq!(raw_mouse(RI_MOUSE_WHEEL, 250), vec![InputChange::MouseWheelScroll { delta: 240 }]);
    assert_eq!(
        raw_mouse(RI_MOUSE_WHEEL, (-250i16) as u16),
        vec![InputChange::MouseWheelScroll { delta: -240 }]
    );
    assert_eq!(
        raw_mouse(RI_MOUSE_WHEEL, 0x8000),
        vec![InputChange::MouseWheelScroll { delta: -32760 }]
    );
}

#[test]
fn control_side_follows_bit_24() {
    let (changes, _) = decode(WM_KEYDOWN, VK_CONTROL as usize, 0x0100_0001);
    assert_eq!(
        changes,
        vec![
            InputChange::KeyDown { index: VK_RCONTROL as usize, value: true },
            InputChange::CtrlPressed { value: true },
        ]
    );
    let (changes, _) = decode(WM_KEYDOWN, VK_CONTROL as usize, 0x001d_0001);
    assert_eq!(
        changes,
        vec![
            InputChange::KeyDown { index: VK_LCONTROL as usize, value: true },
            InputChange::CtrlPressed { value: true },
        ]
    );
}

#[test]
fn alt_side_follows_bit_24() {
    assert_eq!(map_vkey(VK_MENU, 0x0100_0000, 0), VK_RMENU);
    assert_eq!(map_vkey(VK_MENU, 0, 0), VK_LMENU);
    let (changes, _) = decode(WM_SYSKEYUP, VK_MENU as usize, 0x0100_0000);
    assert_eq!(
        changes,
        vec![
            InputChange::KeyDown { index: VK_RMENU as usize, value: false },
            InputChange::AltPressed { value: false },
        ]
    );
}

#[test]
fn shift_side_comes_from_translation() {
    assert_eq!(map_vkey(VK_SHIFT, 0x0036_0000, VK_RSHIFT as u32), VK_RSHIFT);
    assert_eq!(map_vkey(VK_SHIFT, 0x002a_0000, 0), VK_SHIFT);
    assert_eq!(map_vkey(VK_SHIFT, 0x002a_0000, 0x1_00a0), VK_SHIFT);
    let mut q = ChangeQueue::new();
    handle_input(&mut q, WM_KEYDOWN, VK_SHIFT as usize, 0x002a_0000, VK_LSHIFT as u32);
    assert_eq!(
        q.take_all(),
        vec![
            InputChange::KeyDown { index: VK_LSHIFT as usize, value: true },
            InputChange::ShiftPressed { value: true },
        ]
    );
}

#[test]
fn shift_translation_is_requested_for_its_scan_code() {
    assert_eq!(translation_request(WM_KEYDOWN, VK_SHIFT as usize, 0x0136_0001, None), Some(0x36));
    assert_eq!(translation_request(WM_KEYDOWN, VK_CONTROL as usize, 0x0136_0001, None), None);
    let report = Some(RawReport::Keyboard { make_code: 0x1d, flags: RI_KEY_E0, vkey: VK_CONTROL });
    assert_eq!(translation_request(WM_INPUT, 0, 0, report), Some(0xe01d));
    assert_eq!(translation_request(WM_INPUT, 1, 0, report), None);
}

#[test]
fn windows_key_sets_super_flag() {
    let (changes, _) = decode(WM_KEYUP, VK_LWIN as usize, 0);
    assert_eq!(
        changes,
        vec![
            InputChange::KeyDown { index: VK_LWIN as usize, value: false },
            InputChange::SuperPressed { value: false },
        ]
    );
}

#[test]
fn plain_key_sets_no_modifier() {
    let (changes, _) = decode(WM_SYSKEYDOWN, 0x41, 0);
    assert_eq!(changes, vec![InputChange::KeyDown { index: 0x41, value: true }]);
}

#[test]
fn out_of_range_virtual_key_is_ignored() {
    for umsg in [WM_KEYDOWN, WM_KEYUP, WM_SYSKEYDOWN, WM_SYSKEYUP] {
        let (changes, _) = decode(umsg, 256, 0);
        assert!(changes.is_empty());
        let (changes, _) = decode(umsg, 0x1_0041, 0);
        assert!(changes.is_empty());
    }
    let (changes, _) = decode(WM_KEYDOWN, 255, 0);
    assert_eq!(changes, vec![InputChange::KeyDown { index: 255, value: true }]);
}

#[test]
fn zero_raw_key_code_is_dropped() {
    let mut q = ChangeQueue::new();
    handle_raw_keyboard_input(&mut q, 0x1e, 0, 0, 0);
    handle_raw_keyboard_input(&mut q, 0x1e, RI_KEY_BREAK, 0, 0);
    assert_eq!(q.len(), 0);
    let mut q = ChangeQueue::new();
    let report = Some(RawReport::Keyboard { make_code: 0x1e, flags: 0, vkey: 0 });
    let action = process_message(&mut q, WM_INPUT, 0, 0, report, 0, false);
    assert_eq!(action, ProcAction::Forward);
    assert_eq!(q.len(), 0);
}

#[test]
fn raw_key_make_and_break() {
    let mut q = ChangeQueue::new();
    handle_raw_keyboard_input(&mut q, 0x1e, 0, 0x41, 0);
    handle_raw_keyboard_input(&mut q, 0x1e, RI_KEY_BREAK, 0x41, 0);
    handle_raw_keyboard_input(&mut q, 0x1d, RI_KEY_E0, VK_CONTROL, VK_RCONTROL as u32);
    handle_raw_keyboard_input(&mut q, 0x1d, 0, VK_CONTROL, 0);
    handle_raw_keyboard_input(&mut q, 0x1d, 0, 0xFF, 0);
    assert_eq!(
        q.take_all(),
        vec![
            InputChange::KeyDown { index: 0x41, value: true },
            InputChange::KeyDown { index: 0x41, value: false },
            InputChange::KeyDown { index: VK_RCONTROL as usize, value: true },
            InputChange::KeyDown { index: VK_CONTROL as usize, value: true },
        ]
    );
}

#[test]
fn raw_scan_code_takes_prefixes() {
    assert_eq!(raw_keyboard_scan_code(0x1d, 0), 0x1d);
    assert_eq!(raw_keyboard_scan_code(0x1d, RI_KEY_E0), 0xe01d);
    assert_eq!(raw_keyboard_scan_code(0x1d, RI_KEY_E1), 0xe11d);
}

#[test]
fn raw_input_drops_failed_unfocused_and_unknown() {
    let mouse = Some(RawReport::Mouse { button_flags: RI_MOUSE_LEFT_BUTTON_DOWN, button_data: 0 });
    let mut q = ChangeQueue::new();
    handle_raw_input(&mut q, 0, None, 0);
    handle_raw_input(&mut q, 1, mouse, 0);
    handle_raw_input(&mut q, 0, Some(RawReport::Other), 0);
    assert_eq!(q.len(), 0);
    handle_raw_input(&mut q, 0x100, mouse, 0);
    assert_eq!(q.len(), 2);
}

#[test]
fn character_message_uses_low_byte() {
    let (changes, _) = decode(WM_CHAR, 0x1e9, 0);
    assert_eq!(changes, vec![InputChange::AddInputCharacter { character: '\u{e9}' }]);
    let mut s = InputSnapshot::new();
    apply(&mut s, changes);
    let (changes, _) = decode(WM_CHAR, 'a' as usize, 0);
    apply(&mut s, changes);
    assert_eq!(s.input_characters, vec!['\u{e9}', 'a']);
}

#[test]
fn draining_empty_queue_changes_nothing() {
    let mut s = InputSnapshot::new();
    apply(&mut s, vec![InputChange::KeyDown { index: 7, value: true }]);
    let mut q = ChangeQueue::new();
    drain_changes(&mut q, &mut s);
    assert!(s.keys_down[7]);
    assert_eq!(s.keys_down.iter().filter(|k| **k).count(), 1);
    assert_eq!(s.mouse_wheel, 0);
    assert!(s.input_characters.is_empty());
}

#[test]
fn wheel_deltas_accumulate() {
    let mut s = InputSnapshot::new();
    apply(
        &mut s,
        vec![
            InputChange::MouseWheelScroll { delta: 120 },
            InputChange::MouseWheelScroll { delta: -60 },
            InputChange::MouseWheelHorizontalScroll { delta: 240 },
        ],
    );
    assert_eq!(s.mouse_wheel, 60);
    assert_eq!(s.mouse_wheel as f32 / WHEEL_DELTA as f32, 0.5);
    assert_eq!(s.mouse_wheel_h, 240);
}

#[test]
fn wheel_accumulator_saturates() {
    let mut s = InputSnapshot::new();
    s.mouse_wheel = i64::MAX - 10;
    update_io(&mut s, InputChange::MouseWheelScroll { delta: 120 });
    assert_eq!(s.mouse_wheel, i64::MAX);
    s.mouse_wheel_h = i64::MIN + 10;
    update_io(&mut s, InputChange::MouseWheelHorizontalScroll { delta: -120 });
    assert_eq!(s.mouse_wheel_h, i64::MIN);
}

#[test]
fn last_write_wins_within_a_drain() {
    let mut s = InputSnapshot::new();
    apply(
        &mut s,
        vec![
            InputChange::MouseDown { index: 2, value: true },
            InputChange::MouseDown { index: 2, value: false },
            InputChange::ShiftPressed { value: true },
            InputChange::AltPressed { value: true },
            InputChange::AltPressed { value: false },
        ],
    );
    assert!(!s.mouse_down[2]);
    assert!(s.key_shift);
    assert!(!s.key_alt);
}

#[test]
fn clear_frame_input_keeps_states() {
    let mut s = InputSnapshot::new();
    apply(
        &mut s,
        vec![
            InputChange::MouseWheelScroll { delta: 120 },
            InputChange::AddInputCharacter { character: 'x' },
            InputChange::CtrlPressed { value: true },
        ],
    );
    s.clear_frame_input();
    assert_eq!(s.mouse_wheel, 0);
    assert!(s.input_characters.is_empty());
    assert!(s.key_ctrl);
}

#[test]
fn resize_is_handled_and_queues_nothing() {
    for block in [false, true] {
        let mut q = ChangeQueue::new();
        let action = process_message(&mut q, WM_SIZE, 0, 0x0300_0400, None, 0, block);
        assert_eq!(action, ProcAction::Resize);
        assert_eq!(q.len(), 0);
    }
}

#[test]
fn unrecognized_message_follows_block_policy() {
    let mut q = ChangeQueue::new();
    assert_eq!(process_message(&mut q, 0x0200, 0, 0, None, 0, true), ProcAction::Handled);
    assert_eq!(process_message(&mut q, 0x0200, 0, 0, None, 0, false), ProcAction::Forward);
    assert_eq!(q.len(), 0);
}

#[test]
fn decoded_messages_also_follow_block_policy() {
    let mut q = ChangeQueue::new();
    assert_eq!(process_message(&mut q, WM_KEYDOWN, 0x41, 0, None, 0, true), ProcAction::Handled);
    assert_eq!(process_message(&mut q, WM_KEYDOWN, 0x41, 0, None, 0, false), ProcAction::Forward);
    assert_eq!(q.len(), 2);
}

#[test]
fn word_helpers() {
    assert_eq!(hiword(0x1234_5678), 0x1234);
    assert_eq!(signed_word(0xffff), -1);
    assert_eq!(signed_word(0x7fff), 32767);
    assert!(InputChange::KeyDown { index: 255, value: true }.is_valid());
    assert!(!InputChange::KeyDown { index: 256, value: true }.is_valid());
    assert!(!InputChange::MouseDown { index: 5, value: true }.is_valid());
}
