//! Semantic input events, decoupled from the native message encoding.

use vstd::prelude::*;

verus! {

/// Keyboard modifier snapshot carried on every pointer and key event.
#[derive(Clone, Copy, Debug, PartialEq, Eq, Structural)]
pub struct Modifiers {
    pub alt: bool,
    pub ctrl: bool,
    pub shift: bool,
    pub mac_cmd: bool,
    pub command: bool,
}

/// The neutral modifier snapshot: no modifier held.
pub open spec fn no_modifiers() -> Modifiers {
    Modifiers { alt: false, ctrl: false, shift: false, mac_cmd: false, command: false }
}

/// Identity of a pointer button, including the two extra buttons.
#[derive(Clone, Copy, Debug, PartialEq, Eq, Structural)]
pub enum PointerButton {
    Primary,
    Secondary,
    Middle,
    Extra1,
    Extra2,
}

/// Closed set of semantic keys that native virtual-key codes resolve to.
#[derive(Clone, Copy, Debug, PartialEq, Eq, Structural)]
pub enum Key {
    ArrowDown,
    ArrowLeft,
    ArrowRight,
    ArrowUp,
    Escape,
    Tab,
    Backspace,
    Enter,
    Space,
    Insert,
    Delete,
    Home,
    End,
    PageUp,
    PageDown,
    Num0,
    Num1,
    Num2,
    Num3,
    Num4,
    Num5,
    Num6,
    Num7,
    Num8,
    Num9,
    A,
    B,
    C,
    D,
    E,
    F,
    G,
    H,
    I,
    J,
    K,
    L,
    M,
    N,
    O,
    P,
    Q,
    R,
    S,
    T,
    U,
    V,
    W,
    X,
    Y,
    Z,
    F1,
    F2,
    F3,
    F4,
    F5,
    F6,
    F7,
    F8,
    F9,
    F10,
    F11,
    F12,
    F13,
    F14,
    F15,
    F16,
    F17,
    F18,
    F19,
    F20,
}

/// High-level overview of recognized window-procedure messages.
#[derive(Clone, Copy, Debug, PartialEq, Eq, Structural)]
pub enum InputResult {
    Unknown,
    MouseMove,
    MouseLeft,
    MouseRight,
    MouseMiddle,
    Character,
    Scroll,
    Zoom,
    Key,
}

/// A semantic input event.
///
/// Positions are the low and high 16-bit halves of the native position
/// parameter, each reinterpreted as a signed 16-bit value.  A wheel event
/// carries its vertical delta in points multiplied by the native wheel
/// quantum of 120, so that one full click of the wheel (a native delta of
/// 120) yields `scaled_delta == 1200`, that is, exactly 10 points.  A zoom
/// event stands for a zoom factor of 3/2 when `zoom_in` and 1/2 otherwise.
#[derive(Clone, Debug, PartialEq)]
pub enum Event {
    PointerMoved { x: i16, y: i16 },
    PointerButton { x: i16, y: i16, button: PointerButton, pressed: bool, modifiers: Modifiers },
    Text { text: String },
    MouseWheel { scaled_delta: i32 },
    Zoom { zoom_in: bool },
    Copy,
    Cut,
    Key { pressed: bool, modifiers: Modifiers, key: Key, repeat: bool },
}

/// Mathematical model of an [`Event`]: text is a sequence of characters.
pub enum EventV {
    PointerMoved { x: i16, y: i16 },
    PointerButton { x: i16, y: i16, button: PointerButton, pressed: bool, modifiers: Modifiers },
    Text { text: Seq<char> },
    MouseWheel { scaled_delta: i32 },
    Zoom { zoom_in: bool },
    Copy,
    Cut,
    Key { pressed: bool, modifiers: Modifiers, key: Key, repeat: bool },
}

impl View for Event {
    type V = EventV;

    open spec fn view(&self) -> EventV {
        match self {
            Event::PointerMoved { x, y } => EventV::PointerMoved { x: *x, y: *y },
            Event::PointerButton { x, y, button, pressed, modifiers } => EventV::PointerButton {
                x: *x,
                y: *y,
                button: *button,
                pressed: *pressed,
                modifiers: *modifiers,
            },
            Event::Text { text } => EventV::Text { text: text@ },
            Event::MouseWheel { scaled_delta } => EventV::MouseWheel { scaled_delta: *scaled_delta },
            Event::Zoom { zoom_in } => EventV::Zoom { zoom_in: *zoom_in },
            Event::Copy => EventV::Copy,
            Event::Cut => EventV::Cut,
            Event::Key { pressed, modifiers, key, repeat } => EventV::Key {
                pressed: *pressed,
                modifiers: *modifiers,
                key: *key,
                repeat: *repeat,
            },
        }
    }
}

/// The position a pointer event carries, if it is a pointer event.
pub open spec fn event_pos(e: EventV) -> Option<(i16, i16)> {
    match e {
        EventV::PointerMoved { x, y } => Some((x, y)),
        EventV::PointerButton { x, y, .. } => Some((x, y)),
        _ => None,
    }
}

} // verus!
