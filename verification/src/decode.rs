//! Native window-message constants and the pure decoders over their
//! parameters: positions, wheel deltas, modifier bits and the virtual-key
//! table.

use vstd::prelude::*;
use crate::events::{Key, Modifiers};

verus! {

// Message identifiers of the presented message set.
pub const WM_SIZE: u32 = 0x0005;
pub const WM_KEYDOWN: u32 = 0x0100;
pub const WM_KEYUP: u32 = 0x0101;
pub const WM_CHAR: u32 = 0x0102;
pub const WM_SYSKEYDOWN: u32 = 0x0104;
pub const WM_SYSKEYUP: u32 = 0x0105;
pub const WM_UNICHAR: u32 = 0x0109;
pub const WM_MOUSEMOVE: u32 = 0x0200;
pub const WM_LBUTTONDOWN: u32 = 0x0201;
pub const WM_LBUTTONUP: u32 = 0x0202;
pub const WM_LBUTTONDBLCLK: u32 = 0x0203;
pub const WM_RBUTTONDOWN: u32 = 0x0204;
pub const WM_RBUTTONUP: u32 = 0x0205;
pub const WM_RBUTTONDBLCLK: u32 = 0x0206;
pub const WM_MBUTTONDOWN: u32 = 0x0207;
pub const WM_MBUTTONUP: u32 = 0x0208;
pub const WM_MBUTTONDBLCLK: u32 = 0x0209;
pub const WM_MOUSEWHEEL: u32 = 0x020A;
pub const WM_XBUTTONDOWN: u32 = 0x020B;
pub const WM_XBUTTONUP: u32 = 0x020C;
pub const WM_XBUTTONDBLCLK: u32 = 0x020D;
pub const WM_MOUSEHWHEEL: u32 = 0x020E;

// Button-state bits of the mouse messages' state parameter.
pub const MK_SHIFT: usize = 0x0004;
pub const MK_CONTROL: usize = 0x0008;

// Extra-button identifiers in the high half of the state parameter.
pub const XBUTTON1: usize = 0x0001;
pub const XBUTTON2: usize = 0x0002;

/// Native wheel delta of one full click of the wheel.
pub const WHEEL_DELTA: i32 = 120;

/// Bit of the key message's parameter that flags an auto-repeated key.
pub const KF_REPEAT: isize = 0x4000;

/// Sentinel character code meaning "no character".
pub const UNICODE_NOCHAR: u32 = 0xFFFF;

/// The low 16-bit half of a position parameter, reinterpreted as signed.
pub open spec fn pos_x(lparam: isize) -> i16 {
    (lparam & 0xFFFF) as u16 as i16
}

/// The high 16-bit half of a position parameter, reinterpreted as signed.
pub open spec fn pos_y(lparam: isize) -> i16 {
    ((lparam >> 16) & 0xFFFF) as u16 as i16
}

/// Decodes the position carried by a pointer message's position parameter.
pub fn get_pos(lparam: isize) -> (r: (i16, i16))
    ensures
        r.0 == pos_x(lparam),
        r.1 == pos_y(lparam),
{
    let xw: u16 = #[verifier::truncate] ((lparam & 0xFFFF) as u16);
    let yw: u16 = #[verifier::truncate] (((lparam >> 16) & 0xFFFF) as u16);
    let x: i16 = #[verifier::truncate] (xw as i16);
    let y: i16 = #[verifier::truncate] (yw as i16);
    (x, y)
}

/// The modifier snapshot derivable from a mouse message's button-state
/// bits: ctrl and shift only; alt is not derivable from mouse messages.
pub open spec fn mouse_modifiers(wparam: usize) -> Modifiers {
    Modifiers {
        alt: false,
        ctrl: wparam & MK_CONTROL != 0,
        shift: wparam & MK_SHIFT != 0,
        mac_cmd: false,
        command: wparam & MK_CONTROL != 0,
    }
}

/// Decodes the modifier snapshot of a mouse message.
pub fn get_mouse_modifiers(wparam: usize) -> (r: Modifiers)
    ensures
        r == mouse_modifiers(wparam),
{
    Modifiers {
        alt: false,
        ctrl: wparam & MK_CONTROL != 0,
        shift: wparam & MK_SHIFT != 0,
        mac_cmd: false,
        command: wparam & MK_CONTROL != 0,
    }
}

/// The modifier snapshot of a key message: ctrl and shift from live
/// key-state queries, alt from whether the message is the extended
/// variant, of key-down and key-up alike.
pub open spec fn key_modifiers(umsg: u32, ctrl_down: bool, shift_down: bool) -> Modifiers {
    Modifiers {
        alt: umsg == WM_SYSKEYDOWN || umsg == WM_SYSKEYUP,
        ctrl: ctrl_down,
        shift: shift_down,
        mac_cmd: false,
        command: ctrl_down,
    }
}

/// Builds the modifier snapshot of a key message from the live key state.
pub fn get_key_modifiers(umsg: u32, ctrl_down: bool, shift_down: bool) -> (r: Modifiers)
    ensures
        r == key_modifiers(umsg, ctrl_down, shift_down),
{
    Modifiers {
        alt: umsg == WM_SYSKEYDOWN || umsg == WM_SYSKEYUP,
        ctrl: ctrl_down,
        shift: shift_down,
        mac_cmd: false,
        command: ctrl_down,
    }
}

/// The native wheel delta: the high 16-bit half of the state parameter,
/// reinterpreted as signed.
pub open spec fn wheel_native_delta(wparam: usize) -> i16 {
    ((wparam >> 16) & 0xFFFF) as u16 as i16
}

/// The vertical scroll delta in points, multiplied by the native wheel
/// quantum: one full click (native delta 120) stands for exactly 10 points.
pub open spec fn wheel_scaled_delta(wparam: usize) -> i32 {
    (10 * wheel_native_delta(wparam)) as i32
}

/// Decodes a wheel message's native delta.
pub fn get_wheel_native_delta(wparam: usize) -> (r: i16)
    ensures
        r == wheel_native_delta(wparam),
{
    let w: u16 = #[verifier::truncate] (((wparam >> 16) & 0xFFFF) as u16);
    let native: i16 = #[verifier::truncate] (w as i16);
    native
}

/// Decodes a wheel message's vertical delta, scaled by the wheel quantum.
pub fn get_wheel_scaled_delta(wparam: usize) -> (r: i32)
    ensures
        r == wheel_scaled_delta(wparam),
{
    let native = get_wheel_native_delta(wparam);
    10 * (native as i32)
}

/// The virtual-key table: digits, letters and function keys from their
/// three contiguous native ranges, the remaining recognized keys one by
/// one; every other code resolves to no key.
pub open spec fn key_of_vk(wparam: usize) -> Option<Key> {
    if wparam == 0x30 { Some(Key::Num0) }
    else if wparam == 0x31 { Some(Key::Num1) }
    else if wparam == 0x32 { Some(Key::Num2) }
    else if wparam == 0x33 { Some(Key::Num3) }
    else if wparam == 0x34 { Some(Key::Num4) }
    else if wparam == 0x35 { Some(Key::Num5) }
    else if wparam == 0x36 { Some(Key::Num6) }
    else if wparam == 0x37 { Some(Key::Num7) }
    else if wparam == 0x38 { Some(Key::Num8) }
    else if wparam == 0x39 { Some(Key::Num9) }
    else if wparam == 0x41 { Some(Key::A) }
    else if wparam == 0x42 { Some(Key::B) }
    else if wparam == 0x43 { Some(Key::C) }
    else if wparam == 0x44 { Some(Key::D) }
    else if wparam == 0x45 { Some(Key::E) }
    else if wparam == 0x46 { Some(Key::F) }
    else if wparam == 0x47 { Some(Key::G) }
    else if wparam == 0x48 { Some(Key::H) }
    else if wparam == 0x49 { Some(Key::I) }
    else if wparam == 0x4A { Some(Key::J) }
    else if wparam == 0x4B { Some(Key::K) }
    else if wparam == 0x4C { Some(Key::L) }
    else if wparam == 0x4D { Some(Key::M) }
    else if wparam == 0x4E { Some(Key::N) }
    else if wparam == 0x4F { Some(Key::O) }
    else if wparam == 0x50 { Some(Key::P) }
    else if wparam == 0x51 { Some(Key::Q) }
    else if wparam == 0x52 { Some(Key::R) }
    else if wparam == 0x53 { Some(Key::S) }
    else if wparam == 0x54 { Some(Key::T) }
    else if wparam == 0x55 { Some(Key::U) }
    else if wparam == 0x56 { Some(Key::V) }
    else if wparam == 0x57 { Some(Key::W) }
    else if wparam == 0x58 { Some(Key::X) }
    else if wparam == 0x59 { Some(Key::Y) }
    else if wparam == 0x5A { Some(Key::Z) }
    else if wparam == 0x70 { Some(Key::F1) }
    else if wparam == 0x71 { Some(Key::F2) }
    else if wparam == 0x72 { Some(Key::F3) }
    else if wparam == 0x73 { Some(Key::F4) }
    else if wparam == 0x74 { Some(Key::F5) }
    else if wparam == 0x75 { Some(Key::F6) }
    else if wparam == 0x76 { Some(Key::F7) }
    else if wparam == 0x77 { Some(Key::F8) }
    else if wparam == 0x78 { Some(Key::F9) }
    else if wparam == 0x79 { Some(Key::F10) }
    else if wparam == 0x7A { Some(Key::F11) }
    else if wparam == 0x7B { Some(Key::F12) }
    else if wparam == 0x7C { Some(Key::F13) }
    else if wparam == 0x7D { Some(Key::F14) }
    else if wparam == 0x7E { Some(Key::F15) }
    else if wparam == 0x7F { Some(Key::F16) }
    else if wparam == 0x80 { Some(Key::F17) }
    else if wparam == 0x81 { Some(Key::F18) }
    else if wparam == 0x82 { Some(Key::F19) }
    else if wparam == 0x83 { Some(Key::F20) }
    else if wparam == 0x08 { Some(Key::Backspace) }
    else if wparam == 0x09 { Some(Key::Tab) }
    else if wparam == 0x0D { Some(Key::Enter) }
    else if wparam == 0x1B { Some(Key::Escape) }
    else if wparam == 0x20 { Some(Key::Space) }
    else if wparam == 0x21 { Some(Key::PageUp) }
    else if wparam == 0x22 { Some(Key::PageDown) }
    else if wparam == 0x23 { Some(Key::End) }
    else if wparam == 0x24 { Some(Key::Home) }
    else if wparam == 0x25 { Some(Key::ArrowLeft) }
    else if wparam == 0x26 { Some(Key::ArrowUp) }
    else if wparam == 0x27 { Some(Key::ArrowRight) }
    else if wparam == 0x28 { Some(Key::ArrowDown) }
    else if wparam == 0x2D { Some(Key::Insert) }
    else if wparam == 0x2E { Some(Key::Delete) }
    else { None }
}

/// Maps a native virtual-key code to its semantic key, or to no key.
pub fn get_key(wparam: usize) -> (r: Option<Key>)
    ensures
        r == key_of_vk(wparam),
{
    if wparam == 0x30 { Some(Key::Num0) }
    else if wparam == 0x31 { Some(Key::Num1) }
    else if wparam == 0x32 { Some(Key::Num2) }
    else if wparam == 0x33 { Some(Key::Num3) }
    else if wparam == 0x34 { Some(Key::Num4) }
    else if wparam == 0x35 { Some(Key::Num5) }
    else if wparam == 0x36 { Some(Key::Num6) }
    else if wparam == 0x37 { Some(Key::Num7) }
    else if wparam == 0x38 { Some(Key::Num8) }
    else if wparam == 0x39 { Some(Key::Num9) }
    else if wparam == 0x41 { Some(Key::A) }
    else if wparam == 0x42 { Some(Key::B) }
    else if wparam == 0x43 { Some(Key::C) }
    else if wparam == 0x44 { Some(Key::D) }
    else if wparam == 0x45 { Some(Key::E) }
    else if wparam == 0x46 { Some(Key::F) }
    else if wparam == 0x47 { Some(Key::G) }
    else if wparam == 0x48 { Some(Key::H) }
    else if wparam == 0x49 { Some(Key::I) }
    else if wparam == 0x4A { Some(Key::J) }
    else if wparam == 0x4B { Some(Key::K) }
    else if wparam == 0x4C { Some(Key::L) }
    else if wparam == 0x4D { Some(Key::M) }
    else if wparam == 0x4E { Some(Key::N) }
    else if wparam == 0x4F { Some(Key::O) }
    else if wparam == 0x50 { Some(Key::P) }
    else if wparam == 0x51 { Some(Key::Q) }
    else if wparam == 0x52 { Some(Key::R) }
    else if wparam == 0x53 { Some(Key::S) }
    else if wparam == 0x54 { Some(Key::T) }
    else if wparam == 0x55 { Some(Key::U) }
    else if wparam == 0x56 { Some(Key::V) }
    else if wparam == 0x57 { Some(Key::W) }
    else if wparam == 0x58 { Some(Key::X) }
    else if wparam == 0x59 { Some(Key::Y) }
    else if wparam == 0x5A { Some(Key::Z) }
    else if wparam == 0x70 { Some(Key::F1) }
    else if wparam == 0x71 { Some(Key::F2) }
    else if wparam == 0x72 { Some(Key::F3) }
    else if wparam == 0x73 { Some(Key::F4) }
    else if wparam == 0x74 { Some(Key::F5) }
    else if wparam == 0x75 { Some(Key::F6) }
    else if wparam == 0x76 { Some(Key::F7) }
    else if wparam == 0x77 { Some(Key::F8) }
    else if wparam == 0x78 { Some(Key::F9) }
    else if wparam == 0x79 { Some(Key::F10) }
    else if wparam == 0x7A { Some(Key::F11) }
    else if wparam == 0x7B { Some(Key::F12) }
    else if wparam == 0x7C { Some(Key::F13) }
    else if wparam == 0x7D { Some(Key::F14) }
    else if wparam == 0x7E { Some(Key::F15) }
    else if wparam == 0x7F { Some(Key::F16) }
    else if wparam == 0x80 { Some(Key::F17) }
    else if wparam == 0x81 { Some(Key::F18) }
    else if wparam == 0x82 { Some(Key::F19) }
    else if wparam == 0x83 { Some(Key::F20) }
    else if wparam == 0x08 { Some(Key::Backspace) }
    else if wparam == 0x09 { Some(Key::Tab) }
    else if wparam == 0x0D { Some(Key::Enter) }
    else if wparam == 0x1B { Some(Key::Escape) }
    else if wparam == 0x20 { Some(Key::Space) }
    else if wparam == 0x21 { Some(Key::PageUp) }
    else if wparam == 0x22 { Some(Key::PageDown) }
    else if wparam == 0x23 { Some(Key::End) }
    else if wparam == 0x24 { Some(Key::Home) }
    else if wparam == 0x25 { Some(Key::ArrowLeft) }
    else if wparam == 0x26 { Some(Key::ArrowUp) }
    else if wparam == 0x27 { Some(Key::ArrowRight) }
    else if wparam == 0x28 { Some(Key::ArrowDown) }
    else if wparam == 0x2D { Some(Key::Insert) }
    else if wparam == 0x2E { Some(Key::Delete) }
    else { None }
}

/// Whether the repeat flag bit is set in a key message's parameter.
pub open spec fn repeat_flag(lparam: isize) -> bool {
    lparam & KF_REPEAT > 0
}

/// Whether a character code is a Unicode scalar value.
pub open spec fn is_unicode_scalar(code: u32) -> bool {
    code < 0xD800 || (0xE000 <= code && code <= 0x10FFFF)
}

/// Whether a character code is a control character.
pub open spec fn is_control_code(code: u32) -> bool {
    code < 0x20 || (0x7F <= code && code <= 0x9F)
}

/// Relies on char::from_u32: returns the character for every Unicode
/// scalar value and None for surrogates and out-of-range codes.
#[verifier::external_body]
pub fn char_from_u32(code: u32) -> (r: Option<char>)
    ensures
        r == (if is_unicode_scalar(code) { Some(code as char) } else { None::<char> }),
{
    char::from_u32(code)
}

/// Relies on char::to_string: a string holding exactly that character.
#[verifier::external_body]
pub fn char_to_string(c: char) -> (s: String)
    ensures
        s@ == seq![c],
{
    c.to_string()
}

} // verus!
