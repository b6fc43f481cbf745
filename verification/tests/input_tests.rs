use egui_opengl_internal::decode::{
    get_key, get_mouse_modifiers, get_pos, get_wheel_scaled_delta, KF_REPEAT, MK_CONTROL, MK_SHIFT,
    WHEEL_DELTA, WM_CHAR, WM_KEYDOWN, WM_KEYUP, WM_LBUTTONDBLCLK, WM_LBUTTONDOWN, WM_LBUTTONUP,
    WM_MBUTTONDOWN, WM_MOUSEHWHEEL, WM_MOUSEMOVE, WM_MOUSEWHEEL, WM_RBUTTONDOWN, WM_RBUTTONUP,
    WM_SYSKEYDOWN, WM_SYSKEYUP, WM_UNICHAR, WM_XBUTTONDOWN, WM_XBUTTONUP,
};
use egui_opengl_internal::{Event, InputCollector, InputResult, Key, Modifiers, OsProbe, PointerButton};

fn no_probe() -> OsProbe {
    OsProbe { ctrl_down: false, shift_down: false, clipboard: None }
}

fn no_mods() -> Modifiers {
    Modifiers { alt: false, ctrl: false, shift: false, mac_cmd: false, command: false }
}

fn pack_pos(x: i16, y: i16) -> isize {
    (((y as u16 as isize) << 16) | (x as u16 as isize)) as isize
}

#[test]
fn test_key_map() {
    assert_eq!(get_key(0x30), Some(Key::Num0));
    assert_eq!(get_key(0x39), Some(Key::Num9));

    assert_eq!(get_key(0x41), Some(Key::A));
    assert_eq!(get_key(0x5A), Some(Key::Z));

    assert_eq!(get_key(0x70), Some(Key::F1));
    assert_eq!(get_key(0x83), Some(Key::F20));
}

#[test]
fn test_key_map_specials_and_unmapped() {
    assert_eq!(get_key(0x25), Some(Key::ArrowLeft));
    assert_eq!(get_key(0x26), Some(Key::ArrowUp));
    assert_eq!(get_key(0x27), Some(Key::ArrowRight));
    assert_eq!(get_key(0x28), Some(Key::ArrowDown));
    assert_eq!(get_key(0x1B), Some(Key::Escape));
    assert_eq!(get_key(0x09), Some(Key::Tab));
    assert_eq!(get_key(0x08), Some(Key::Backspace));
    assert_eq!(get_key(0x0D), Some(Key::Enter));
    assert_eq!(get_key(0x20), Some(Key::Space));
    assert_eq!(get_key(0x2D), Some(Key::Insert));
    assert_eq!(get_key(0x2E), Some(Key::Delete));
    assert_eq!(get_key(0x24), Some(Key::Home));
    assert_eq!(get_key(0x23), Some(Key::End));
    assert_eq!(get_key(0x21), Some(Key::PageUp));
    assert_eq!(get_key(0x22), Some(Key::PageDown));
    // One below and one above the function-key range, and a code with no
    // mapping at all.
    assert_eq!(get_key(0x6F), None);
    assert_eq!(get_key(0x84), None);
    assert_eq!(get_key(0xFF), None);
}

#[test]
fn test_unmapped_key_emits_nothing() {
    let mut c = InputCollector::new(1);
    let r = c.process(WM_KEYDOWN, 0x84, 0, no_probe());
    assert!(matches!(r, InputResult::Key));
    let snap = c.collect_input(0, 800, 600, );
    assert!(snap.events.is_empty());
}

#[test]
fn test_pointer_position_decoding() {
    // The decoded position is the low and high 16-bit halves of the
    // position parameter reinterpreted as signed, for every pointer
    // message subtype alike.
    let lparam = pack_pos(200, 300);
    let cases: Vec<(u32, usize)> = vec![
        (WM_MOUSEMOVE, 0),
        (WM_LBUTTONDOWN, 0),
        (WM_LBUTTONUP, 0),
        (WM_RBUTTONDOWN, 0),
        (WM_MBUTTONDOWN, 0),
        (WM_XBUTTONDOWN, (1usize) << 16),
    ];
    for (umsg, wparam) in cases {
        let mut c = InputCollector::new(1);
        c.process(umsg, wparam, lparam, no_probe());
        let snap = c.collect_input(0, 800, 600);
        assert_eq!(snap.events.len(), 1);
        match &snap.events[0] {
            Event::PointerMoved { x, y } => {
                assert_eq!((*x, *y), (200, 300));
            }
            Event::PointerButton { x, y, .. } => {
                assert_eq!((*x, *y), (200, 300));
            }
            other => panic!("unexpected event {:?}", other),
        }
    }
}

#[test]
fn test_pointer_position_negative() {
    let (x, y) = get_pos(pack_pos(-5, -7));
    assert_eq!((x, y), (-5, -7));
    let (x2, y2) = get_pos(0xFFFF);
    assert_eq!((x2, y2), (-1, 0));
}

#[test]
fn test_button_identity_and_state() {
    let mut c = InputCollector::new(1);
    c.process(WM_LBUTTONDOWN, 0, 0, no_probe());
    c.process(WM_LBUTTONUP, 0, 0, no_probe());
    c.process(WM_RBUTTONDOWN, 0, 0, no_probe());
    c.process(WM_LBUTTONDBLCLK, 0, 0, no_probe());
    let snap = c.collect_input(0, 800, 600);
    let expected = vec![
        (PointerButton::Primary, true),
        (PointerButton::Primary, false),
        (PointerButton::Secondary, true),
        (PointerButton::Primary, true),
    ];
    assert_eq!(snap.events.len(), expected.len());
    for (ev, (b, p)) in snap.events.iter().zip(expected) {
        match ev {
            Event::PointerButton { button, pressed, .. } => {
                assert_eq!((*button, *pressed), (b, p));
            }
            other => panic!("unexpected event {:?}", other),
        }
    }
}

#[test]
fn test_xbutton_identity() {
    let mut c = InputCollector::new(1);
    let r1 = c.process(WM_XBUTTONDOWN, 1usize << 16, 0, no_probe());
    let r2 = c.process(WM_XBUTTONUP, 2usize << 16, 0, no_probe());
    assert!(matches!(r1, InputResult::MouseMiddle));
    assert!(matches!(r2, InputResult::MouseMiddle));
    let snap = c.collect_input(0, 800, 600);
    match &snap.events[0] {
        Event::PointerButton { button, pressed, .. } => {
            assert_eq!((*button, *pressed), (PointerButton::Extra1, true));
        }
        other => panic!("unexpected event {:?}", other),
    }
    match &snap.events[1] {
        Event::PointerButton { button, pressed, .. } => {
            assert_eq!((*button, *pressed), (PointerButton::Extra2, false));
        }
        other => panic!("unexpected event {:?}", other),
    }
}

#[test]
fn test_collect_drains_exactly_once() {
    let mut c = InputCollector::new(1);
    c.process(WM_MOUSEMOVE, 0, pack_pos(1, 2), no_probe());
    c.process(WM_MOUSEMOVE, 0, pack_pos(3, 4), no_probe());
    let first = c.collect_input(0, 800, 600);
    assert_eq!(first.events.len(), 2);
    let second = c.collect_input(0, 800, 600);
    assert!(second.events.is_empty());
}

#[test]
fn test_wheel_scroll_delta() {
    // One full click of the wheel: native delta 120 in the high half of
    // the state parameter, ctrl not held.
    let mut c = InputCollector::new(1);
    let r = c.process(WM_MOUSEWHEEL, 120usize << 16, 0, no_probe());
    assert!(matches!(r, InputResult::Scroll));
    let snap = c.collect_input(0, 800, 600);
    match snap.events[0] {
        Event::MouseWheel { scaled_delta } => {
            assert_eq!(scaled_delta, 1200);
            // In points: exactly 10.0 for one full click.
            assert_eq!(scaled_delta as f32 / WHEEL_DELTA as f32, 10.0);
        }
        ref other => panic!("unexpected event {:?}", other),
    }
    // A negative native delta scrolls the other way.
    assert_eq!(get_wheel_scaled_delta((-120i16 as u16 as usize) << 16), -1200);
}

#[test]
fn test_wheel_zoom() {
    let mut c = InputCollector::new(1);
    let r = c.process(WM_MOUSEWHEEL, (120usize << 16) | MK_CONTROL, 0, no_probe());
    assert!(matches!(r, InputResult::Zoom));
    let r2 = c.process(WM_MOUSEHWHEEL, ((-120i16 as u16 as usize) << 16) | MK_CONTROL, 0, no_probe());
    assert!(matches!(r2, InputResult::Zoom));
    let snap = c.collect_input(0, 800, 600);
    match snap.events[0] {
        Event::Zoom { zoom_in } => {
            assert!(zoom_in);
            let factor = if zoom_in { 1.5f32 } else { 0.5f32 };
            assert_eq!(factor, 1.5);
        }
        ref other => panic!("unexpected event {:?}", other),
    }
    match snap.events[1] {
        Event::Zoom { zoom_in } => {
            assert!(!zoom_in);
            let factor = if zoom_in { 1.5f32 } else { 0.5f32 };
            assert_eq!(factor, 0.5);
        }
        ref other => panic!("unexpected event {:?}", other),
    }
}

#[test]
fn test_horizontal_wheel_scrolls_vertically() {
    // The horizontal wheel is handled like the vertical one: the emitted
    // scroll event carries a vertical-only delta.
    let mut c = InputCollector::new(1);
    let r = c.process(WM_MOUSEHWHEEL, 120usize << 16, 0, no_probe());
    assert!(matches!(r, InputResult::Scroll));
    let snap = c.collect_input(0, 800, 600);
    assert_eq!(snap.events[0], Event::MouseWheel { scaled_delta: 1200 });
}

#[test]
fn test_char_message() {
    let mut c = InputCollector::new(1);
    let r = c.process(WM_CHAR, 'a' as usize, 0, no_probe());
    assert!(matches!(r, InputResult::Character));
    c.process(WM_UNICHAR, 0x2764, 0, no_probe());
    let snap = c.collect_input(0, 800, 600);
    assert_eq!(snap.events.len(), 2);
    assert_eq!(snap.events[0], Event::Text { text: String::from("a") });
    assert_eq!(snap.events[1], Event::Text { text: String::from("\u{2764}") });
}

#[test]
fn test_char_message_dropped() {
    let mut c = InputCollector::new(1);
    // The no-character sentinel, a control character, and a surrogate
    // half: none of them emits an event.
    c.process(WM_UNICHAR, 0xFFFF, 0, no_probe());
    c.process(WM_CHAR, 0x08, 0, no_probe());
    c.process(WM_CHAR, 0xD800, 0, no_probe());
    let snap = c.collect_input(0, 800, 600);
    assert!(snap.events.is_empty());
}

#[test]
fn test_paste_with_clipboard() {
    // Ctrl+paste with non-empty clipboard content: exactly one
    // text-insertion event in addition to the key-down event.
    let mut c = InputCollector::new(1);
    let probe = OsProbe {
        ctrl_down: true,
        shift_down: false,
        clipboard: Some(String::from("hello")),
    };
    let r = c.process(WM_KEYDOWN, 0x56, 0, probe);
    assert!(matches!(r, InputResult::Key));
    let snap = c.collect_input(0, 800, 600);
    assert_eq!(snap.events.len(), 2);
    assert_eq!(snap.events[0], Event::Text { text: String::from("hello") });
    match snap.events[1] {
        Event::Key { pressed, key, .. } => {
            assert!(pressed);
            assert_eq!(key, Key::V);
        }
        ref other => panic!("unexpected event {:?}", other),
    }
}

#[test]
fn test_paste_with_empty_or_absent_clipboard() {
    // Ctrl+paste with empty or absent clipboard content: only the
    // key-down event.
    for clipboard in [Some(String::new()), None] {
        let mut c = InputCollector::new(1);
        let probe = OsProbe { ctrl_down: true, shift_down: false, clipboard };
        c.process(WM_KEYDOWN, 0x56, 0, probe);
        let snap = c.collect_input(0, 800, 600);
        assert_eq!(snap.events.len(), 1);
        assert!(matches!(snap.events[0], Event::Key { pressed: true, key: Key::V, .. }));
    }
}

#[test]
fn test_copy_and_cut() {
    let mut c = InputCollector::new(1);
    let probe = OsProbe { ctrl_down: true, shift_down: false, clipboard: None };
    c.process(WM_KEYDOWN, 0x43, 0, probe.clone());
    c.process(WM_KEYDOWN, 0x58, 0, probe);
    let snap = c.collect_input(0, 800, 600);
    assert_eq!(snap.events.len(), 4);
    assert_eq!(snap.events[0], Event::Copy);
    assert!(matches!(snap.events[1], Event::Key { pressed: true, key: Key::C, .. }));
    assert_eq!(snap.events[2], Event::Cut);
    assert!(matches!(snap.events[3], Event::Key { pressed: true, key: Key::X, .. }));
}

#[test]
fn test_key_modifiers_and_repeat() {
    let mut c = InputCollector::new(1);
    let probe = OsProbe { ctrl_down: true, shift_down: true, clipboard: None };
    c.process(WM_SYSKEYDOWN, 0x41, KF_REPEAT, probe);
    let probe_up = OsProbe { ctrl_down: false, shift_down: false, clipboard: None };
    c.process(WM_SYSKEYUP, 0x41, 0, probe_up);
    let snap = c.collect_input(0, 800, 600);
    assert_eq!(snap.events.len(), 2);
    match snap.events[0] {
        Event::Key { pressed, modifiers, key, repeat } => {
            assert!(pressed);
            assert!(repeat);
            assert_eq!(key, Key::A);
            // The extended variant derives alt; ctrl doubles as the
            // command modifier.
            assert_eq!(
                modifiers,
                Modifiers { alt: true, ctrl: true, shift: true, mac_cmd: false, command: true }
            );
        }
        ref other => panic!("unexpected event {:?}", other),
    }
    match snap.events[1] {
        Event::Key { pressed, modifiers, repeat, .. } => {
            assert!(!pressed);
            assert!(!repeat);
            // The extended key-up variant derives alt too; ctrl and shift
            // follow the live key state, here released.
            assert_eq!(
                modifiers,
                Modifiers { alt: true, ctrl: false, shift: false, mac_cmd: false, command: false }
            );
        }
        ref other => panic!("unexpected event {:?}", other),
    }
}

#[test]
fn test_mouse_modifiers_decoding() {
    let m = get_mouse_modifiers(MK_CONTROL | MK_SHIFT);
    assert_eq!(
        m,
        Modifiers { alt: false, ctrl: true, shift: true, mac_cmd: false, command: true }
    );
    assert_eq!(get_mouse_modifiers(0), no_mods());
}

#[test]
fn test_mouse_never_originates_modifiers() {
    let mut c = InputCollector::new(1);
    // A mouse event before any keyboard event leaves the snapshot
    // unobserved: the drain reports the neutral value.
    c.process(WM_MOUSEMOVE, MK_CONTROL, 0, no_probe());
    let snap = c.collect_input(0, 800, 600);
    assert_eq!(snap.modifiers, no_mods());
    // After a keyboard event observed the snapshot, mouse events refine it.
    let probe = OsProbe { ctrl_down: true, shift_down: false, clipboard: None };
    c.process(WM_KEYDOWN, 0x41, 0, probe);
    c.process(WM_MOUSEMOVE, MK_SHIFT, 0, no_probe());
    let snap2 = c.collect_input(0, 800, 600);
    assert_eq!(
        snap2.modifiers,
        Modifiers { alt: false, ctrl: false, shift: true, mac_cmd: false, command: false }
    );
}

#[test]
fn test_classification() {
    let mut c = InputCollector::new(1);
    assert!(matches!(c.process(WM_MOUSEMOVE, 0, 0, no_probe()), InputResult::MouseMove));
    assert!(matches!(c.process(WM_LBUTTONDOWN, 0, 0, no_probe()), InputResult::MouseLeft));
    assert!(matches!(c.process(WM_RBUTTONUP, 0, 0, no_probe()), InputResult::MouseRight));
    assert!(matches!(c.process(WM_MBUTTONDOWN, 0, 0, no_probe()), InputResult::MouseMiddle));
    assert!(matches!(c.process(WM_CHAR, 'x' as usize, 0, no_probe()), InputResult::Character));
    assert!(matches!(c.process(WM_MOUSEWHEEL, 120usize << 16, 0, no_probe()), InputResult::Scroll));
    assert!(matches!(
        c.process(WM_MOUSEWHEEL, (120usize << 16) | MK_CONTROL, 0, no_probe()),
        InputResult::Zoom
    ));
    assert!(matches!(c.process(WM_KEYUP, 0x41, 0, no_probe()), InputResult::Key));
    // An unrecognized message: no classification and no state change.
    assert!(matches!(c.process(0x0400, 0, 0, no_probe()), InputResult::Unknown));
}

#[test]
fn test_unknown_message_changes_nothing() {
    let mut c = InputCollector::new(1);
    c.process(0x0400, 7, 7, no_probe());
    let snap = c.collect_input(0, 800, 600);
    assert!(snap.events.is_empty());
    assert_eq!(snap.modifiers, no_mods());
}

#[test]
fn test_snapshot_fields() {
    let mut c = InputCollector::new(1);
    let snap = c.collect_input(123_456_789, 1024, 768);
    assert_eq!(snap.screen_w, 1024);
    assert_eq!(snap.screen_h, 768);
    assert_eq!(snap.time_ticks, 123_456_789);
    // Seconds, as the consumer computes them from the tick count.
    assert_eq!(snap.time_ticks as f64 / 10_000_000.0, 12.3456789);
}
