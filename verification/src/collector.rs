//! The input collector: a stateful translator from raw window messages to
//! buffered semantic input events and a live modifier snapshot, drained
//! once per frame into an input snapshot.

use vstd::prelude::*;
use crate::events::{Event, EventV, InputResult, Key, Modifiers, PointerButton, event_pos, no_modifiers};
use crate::decode::{
    KF_REPEAT, MK_CONTROL, UNICODE_NOCHAR, WM_CHAR, WM_KEYDOWN, WM_KEYUP, WM_LBUTTONDBLCLK,
    WM_LBUTTONDOWN, WM_LBUTTONUP, WM_MBUTTONDBLCLK, WM_MBUTTONDOWN, WM_MBUTTONUP, WM_MOUSEHWHEEL,
    WM_MOUSEMOVE, WM_MOUSEWHEEL, WM_RBUTTONDBLCLK, WM_RBUTTONDOWN, WM_RBUTTONUP, WM_SYSKEYDOWN,
    WM_SYSKEYUP, WM_UNICHAR, WM_XBUTTONDBLCLK, WM_XBUTTONDOWN, WM_XBUTTONUP, XBUTTON1, XBUTTON2,
    char_from_u32, char_to_string, get_key, get_key_modifiers, get_mouse_modifiers, get_pos,
    get_wheel_native_delta, get_wheel_scaled_delta, is_control_code, is_unicode_scalar,
    key_modifiers, key_of_vk, mouse_modifiers, pos_x, pos_y, repeat_flag, wheel_native_delta,
    wheel_scaled_delta,
};

verus! {

/// What the caller observed of the operating system when the message
/// arrived: the live ctrl and shift key state, and the clipboard content
/// for a paste (None where the clipboard could not be read).
#[derive(Clone, Debug, PartialEq)]
pub struct OsProbe {
    pub ctrl_down: bool,
    pub shift_down: bool,
    pub clipboard: Option<String>,
}

/// Mathematical model of an [`OsProbe`].
pub struct OsProbeV {
    pub ctrl_down: bool,
    pub shift_down: bool,
    pub clipboard: Option<Seq<char>>,
}

impl View for OsProbe {
    type V = OsProbeV;

    open spec fn view(&self) -> OsProbeV {
        OsProbeV {
            ctrl_down: self.ctrl_down,
            shift_down: self.shift_down,
            clipboard: match &self.clipboard {
                Some(s) => Some(s@),
                None => None,
            },
        }
    }
}

/// The per-frame input snapshot handed to one UI-engine pass: the drained
/// events in arrival order, the current modifier snapshot, the screen
/// rectangle from origin zero to the live client size, and the time in
/// units of 100 nanoseconds since the clock's epoch.  The predicted frame
/// delta is fixed at 1/60 second by the consumer of this snapshot.
#[derive(Clone, Debug, PartialEq)]
pub struct InputSnapshot {
    pub modifiers: Modifiers,
    pub events: Vec<Event>,
    pub screen_w: u32,
    pub screen_h: u32,
    pub time_ticks: u64,
}

/// Stateful translator from raw window messages to semantic input events.
pub struct InputCollector {
    hwnd: usize,
    events: Vec<Event>,
    modifiers: Option<Modifiers>,
}

/// Mathematical model of an [`InputCollector`].
pub struct CollectorV {
    pub hwnd: usize,
    pub events: Seq<EventV>,
    pub modifiers: Option<Modifiers>,
}

/// The model of a sequence of buffered events.
pub open spec fn events_view(v: Seq<Event>) -> Seq<EventV> {
    v.map_values(|e: Event| e@)
}

impl View for InputCollector {
    type V = CollectorV;

    closed spec fn view(&self) -> CollectorV {
        CollectorV { hwnd: self.hwnd, events: events_view(self.events@), modifiers: self.modifiers }
    }
}

/// The model of a collector freshly bound to a window: no buffered event,
/// no modifier snapshot observed yet.
pub open spec fn fresh_collector(hwnd: usize) -> CollectorV {
    CollectorV { hwnd, events: Seq::empty(), modifiers: None }
}

/// The pointer messages: move, and the down, up and double-click forms of
/// the five buttons.
pub open spec fn is_pointer_msg(umsg: u32) -> bool {
    umsg == WM_MOUSEMOVE || umsg == WM_LBUTTONDOWN || umsg == WM_LBUTTONDBLCLK
        || umsg == WM_LBUTTONUP || umsg == WM_RBUTTONDOWN || umsg == WM_RBUTTONDBLCLK
        || umsg == WM_RBUTTONUP || umsg == WM_MBUTTONDOWN || umsg == WM_MBUTTONDBLCLK
        || umsg == WM_MBUTTONUP || umsg == WM_XBUTTONDOWN || umsg == WM_XBUTTONDBLCLK
        || umsg == WM_XBUTTONUP
}

/// The extra-button messages, whose state parameter names the button.
pub open spec fn is_xbutton_msg(umsg: u32) -> bool {
    umsg == WM_XBUTTONDOWN || umsg == WM_XBUTTONDBLCLK || umsg == WM_XBUTTONUP
}

/// The mouse messages: pointer messages and the two wheels.
pub open spec fn is_mouse_msg(umsg: u32) -> bool {
    is_pointer_msg(umsg) || umsg == WM_MOUSEWHEEL || umsg == WM_MOUSEHWHEEL
}

/// The key messages: down and up, plain and extended.
pub open spec fn is_key_msg(umsg: u32) -> bool {
    umsg == WM_KEYDOWN || umsg == WM_SYSKEYDOWN || umsg == WM_KEYUP || umsg == WM_SYSKEYUP
}

/// Which extra button an extra-button message names.
pub open spec fn xbutton_of(wparam: usize) -> PointerButton {
    if (wparam >> 16) & XBUTTON1 != 0 {
        PointerButton::Extra1
    } else {
        PointerButton::Extra2
    }
}

/// The pointer-button event a button message emits.
pub open spec fn button_event(wparam: usize, lparam: isize, button: PointerButton, pressed: bool) -> EventV {
    EventV::PointerButton {
        x: pos_x(lparam),
        y: pos_y(lparam),
        button,
        pressed,
        modifiers: mouse_modifiers(wparam),
    }
}

/// What a character message emits: the decoded code point as a one-character
/// text insertion, unless it is the no-character sentinel, not a Unicode
/// scalar value, or a control character.
pub open spec fn char_events(wparam: usize) -> Seq<EventV> {
    let code = wparam as u32;
    if code != UNICODE_NOCHAR && is_unicode_scalar(code) && !is_control_code(code) {
        seq![EventV::Text { text: seq![code as char] }]
    } else {
        Seq::empty()
    }
}

/// What a wheel message emits: a zoom event when the ctrl bit is set in the
/// state parameter, zooming in exactly for a positive native delta; a scroll
/// event with vertical-only delta otherwise.
pub open spec fn wheel_events(wparam: usize) -> Seq<EventV> {
    if wparam & MK_CONTROL != 0 {
        seq![EventV::Zoom { zoom_in: wheel_native_delta(wparam) > 0 }]
    } else {
        seq![EventV::MouseWheel { scaled_delta: wheel_scaled_delta(wparam) }]
    }
}

/// What a key-down message emits: nothing for an unmapped code; otherwise a
/// key-down event, preceded by the clipboard's content as a text insertion
/// for ctrl+paste (when the content is there and non-empty), or by a copy or
/// cut event for ctrl+copy and ctrl+cut.
pub open spec fn keydown_events(umsg: u32, wparam: usize, lparam: isize, probe: OsProbeV) -> Seq<EventV> {
    match key_of_vk(wparam) {
        None => Seq::empty(),
        Some(key) => {
            let m = key_modifiers(umsg, probe.ctrl_down, probe.shift_down);
            let key_ev = EventV::Key { pressed: true, modifiers: m, key, repeat: repeat_flag(lparam) };
            let extra: Seq<EventV> = if key == Key::V && m.ctrl {
                match probe.clipboard {
                    Some(s) => if s.len() > 0 {
                        seq![EventV::Text { text: s }]
                    } else {
                        Seq::empty()
                    },
                    None => Seq::empty(),
                }
            } else if key == Key::C && m.ctrl {
                seq![EventV::Copy]
            } else if key == Key::X && m.ctrl {
                seq![EventV::Cut]
            } else {
                Seq::empty()
            };
            extra.push(key_ev)
        },
    }
}

/// What a key-up message emits: a key-up event if the code resolves.
pub open spec fn keyup_events(umsg: u32, wparam: usize, lparam: isize, probe: OsProbeV) -> Seq<EventV> {
    match key_of_vk(wparam) {
        None => Seq::empty(),
        Some(key) => seq![
            EventV::Key {
                pressed: false,
                modifiers: key_modifiers(umsg, probe.ctrl_down, probe.shift_down),
                key,
                repeat: repeat_flag(lparam),
            },
        ],
    }
}

/// The events one message appends to the queue, in order.
pub open spec fn emitted(umsg: u32, wparam: usize, lparam: isize, probe: OsProbeV) -> Seq<EventV> {
    if umsg == WM_MOUSEMOVE {
        seq![EventV::PointerMoved { x: pos_x(lparam), y: pos_y(lparam) }]
    } else if umsg == WM_LBUTTONDOWN || umsg == WM_LBUTTONDBLCLK {
        seq![button_event(wparam, lparam, PointerButton::Primary, true)]
    } else if umsg == WM_LBUTTONUP {
        seq![button_event(wparam, lparam, PointerButton::Primary, false)]
    } else if umsg == WM_RBUTTONDOWN || umsg == WM_RBUTTONDBLCLK {
        seq![button_event(wparam, lparam, PointerButton::Secondary, true)]
    } else if umsg == WM_RBUTTONUP {
        seq![button_event(wparam, lparam, PointerButton::Secondary, false)]
    } else if umsg == WM_MBUTTONDOWN || umsg == WM_MBUTTONDBLCLK {
        seq![button_event(wparam, lparam, PointerButton::Middle, true)]
    } else if umsg == WM_MBUTTONUP {
        seq![button_event(wparam, lparam, PointerButton::Middle, false)]
    } else if umsg == WM_XBUTTONDOWN || umsg == WM_XBUTTONDBLCLK {
        seq![button_event(wparam, lparam, xbutton_of(wparam), true)]
    } else if umsg == WM_XBUTTONUP {
        seq![button_event(wparam, lparam, xbutton_of(wparam), false)]
    } else if umsg == WM_CHAR || umsg == WM_UNICHAR {
        char_events(wparam)
    } else if umsg == WM_MOUSEWHEEL || umsg == WM_MOUSEHWHEEL {
        wheel_events(wparam)
    } else if umsg == WM_KEYDOWN || umsg == WM_SYSKEYDOWN {
        keydown_events(umsg, wparam, lparam, probe)
    } else if umsg == WM_KEYUP || umsg == WM_SYSKEYUP {
        keyup_events(umsg, wparam, lparam, probe)
    } else {
        Seq::empty()
    }
}

/// The modifier snapshot after one message: key messages store a fresh
/// snapshot; mouse messages refine an existing snapshot but never
/// originate one; other messages leave it alone.
pub open spec fn next_modifiers(cur: Option<Modifiers>, umsg: u32, wparam: usize, probe: OsProbeV) -> Option<Modifiers> {
    if is_mouse_msg(umsg) {
        match cur {
            Some(_) => Some(mouse_modifiers(wparam)),
            None => None,
        }
    } else if is_key_msg(umsg) {
        Some(key_modifiers(umsg, probe.ctrl_down, probe.shift_down))
    } else {
        cur
    }
}

/// The classification one message gets.
pub open spec fn classify(umsg: u32, wparam: usize) -> InputResult {
    if umsg == WM_MOUSEMOVE {
        InputResult::MouseMove
    } else if umsg == WM_LBUTTONDOWN || umsg == WM_LBUTTONDBLCLK || umsg == WM_LBUTTONUP {
        InputResult::MouseLeft
    } else if umsg == WM_RBUTTONDOWN || umsg == WM_RBUTTONDBLCLK || umsg == WM_RBUTTONUP {
        InputResult::MouseRight
    } else if umsg == WM_MBUTTONDOWN || umsg == WM_MBUTTONDBLCLK || umsg == WM_MBUTTONUP
        || umsg == WM_XBUTTONDOWN || umsg == WM_XBUTTONDBLCLK || umsg == WM_XBUTTONUP {
        InputResult::MouseMiddle
    } else if umsg == WM_CHAR || umsg == WM_UNICHAR {
        InputResult::Character
    } else if umsg == WM_MOUSEWHEEL || umsg == WM_MOUSEHWHEEL {
        if wparam & MK_CONTROL != 0 {
            InputResult::Zoom
        } else {
            InputResult::Scroll
        }
    } else if is_key_msg(umsg) {
        InputResult::Key
    } else {
        InputResult::Unknown
    }
}

/// A collector with its event queue drained.
pub open spec fn drained(c: CollectorV) -> CollectorV {
    CollectorV { events: Seq::empty(), ..c }
}

/// The modifier snapshot a drain reports: the last observed one, or the
/// neutral snapshot while none was observed yet.
pub open spec fn observed_modifiers(m: Option<Modifiers>) -> Modifiers {
    match m {
        Some(x) => x,
        None => no_modifiers(),
    }
}

/// What one drain returns and leaves behind: the buffered events in
/// arrival order, and the collector with an empty queue.
pub open spec fn collect_model(c: CollectorV) -> (Seq<EventV>, CollectorV) {
    (c.events, drained(c))
}

impl InputCollector {
    /// Creates a collector bound to the window whose coordinate space raw
    /// positions are expressed in.
    pub fn new(hwnd: usize) -> (r: Self)
        ensures
            r@ == fresh_collector(hwnd),
    {
        let r = InputCollector { hwnd, events: Vec::new(), modifiers: None };
        proof {
            assert(r@.events =~= fresh_collector(hwnd).events);
            assert(r@ =~= fresh_collector(hwnd));
        }
        r
    }

    /// Appends one event to the queue.
    fn push_event(&mut self, e: Event)
        ensures
            final(self)@.hwnd == old(self)@.hwnd,
            final(self)@.modifiers == old(self)@.modifiers,
            final(self)@.events == old(self)@.events.push(e@),
    {
        let ghost before = self.events@;
        self.events.push(e);
        proof {
            assert(events_view(before.push(e)) =~= events_view(before).push(e@));
        }
    }

    /// Refines the modifier snapshot, but only where one was already
    /// observed: mouse events never originate the snapshot.
    fn alter_modifiers(&mut self, new: Modifiers)
        ensures
            final(self)@.hwnd == old(self)@.hwnd,
            final(self)@.events == old(self)@.events,
            final(self)@.modifiers == (match old(self)@.modifiers {
                Some(_) => Some(new),
                None => None::<Modifiers>,
            }),
    {
        if self.modifiers.is_some() {
            self.modifiers = Some(new);
        }
    }

    /// Pure dispatch over message identity: appends the message's semantic
    /// events to the queue, updates the modifier snapshot, and classifies
    /// the message.  `probe` carries what only the caller can observe of
    /// the operating system: the live ctrl and shift key state and the
    /// clipboard content for a paste.
    pub fn process(&mut self, umsg: u32, wparam: usize, lparam: isize, probe: OsProbe) -> (r: InputResult)
        requires
            is_xbutton_msg(umsg) ==> (wparam >> 16) & (XBUTTON1 | XBUTTON2) != 0,
        ensures
            final(self)@.hwnd == old(self)@.hwnd,
            final(self)@.events == old(self)@.events + emitted(umsg, wparam, lparam, probe@),
            final(self)@.modifiers == next_modifiers(old(self)@.modifiers, umsg, wparam, probe@),
            r == classify(umsg, wparam),
    {
        let ghost before = self@.events;
        let ghost one = emitted(umsg, wparam, lparam, probe@);
        if umsg == WM_MOUSEMOVE {
            self.alter_modifiers(get_mouse_modifiers(wparam));
            let (x, y) = get_pos(lparam);
            self.push_event(Event::PointerMoved { x, y });
            proof {
                assert(self@.events =~= before + one);
            }
            InputResult::MouseMove
        } else if umsg == WM_LBUTTONDOWN || umsg == WM_LBUTTONDBLCLK {
            self.push_button(wparam, lparam, PointerButton::Primary, true);
            proof {
                assert(self@.events =~= before + one);
            }
            InputResult::MouseLeft
        } else if umsg == WM_LBUTTONUP {
            self.push_button(wparam, lparam, PointerButton::Primary, false);
            proof {
                assert(self@.events =~= before + one);
            }
            InputResult::MouseLeft
        } else if umsg == WM_RBUTTONDOWN || umsg == WM_RBUTTONDBLCLK {
            self.push_button(wparam, lparam, PointerButton::Secondary, true);
            proof {
                assert(self@.events =~= before + one);
            }
            InputResult::MouseRight
        } else if umsg == WM_RBUTTONUP {
            self.push_button(wparam, lparam, PointerButton::Secondary, false);
            proof {
                assert(self@.events =~= before + one);
            }
            InputResult::MouseRight
        } else if umsg == WM_MBUTTONDOWN || umsg == WM_MBUTTONDBLCLK {
            self.push_button(wparam, lparam, PointerButton::Middle, true);
            proof {
                assert(self@.events =~= before + one);
            }
            InputResult::MouseMiddle
        } else if umsg == WM_MBUTTONUP {
            self.push_button(wparam, lparam, PointerButton::Middle, false);
            proof {
                assert(self@.events =~= before + one);
            }
            InputResult::MouseMiddle
        } else if umsg == WM_XBUTTONDOWN || umsg == WM_XBUTTONDBLCLK {
            let button = if (wparam >> 16) & XBUTTON1 != 0 {
                PointerButton::Extra1
            } else {
                PointerButton::Extra2
            };
            self.push_button(wparam, lparam, button, true);
            proof {
                assert(self@.events =~= before + one);
            }
            InputResult::MouseMiddle
        } else if umsg == WM_XBUTTONUP {
            let button = if (wparam >> 16) & XBUTTON1 != 0 {
                PointerButton::Extra1
            } else {
                PointerButton::Extra2
            };
            self.push_button(wparam, lparam, button, false);
            proof {
                assert(self@.events =~= before + one);
            }
            InputResult::MouseMiddle
        } else if umsg == WM_CHAR || umsg == WM_UNICHAR {
            let code: u32 = #[verifier::truncate] (wparam as u32);
            if code != UNICODE_NOCHAR {
                match char_from_u32(code) {
                    Some(ch) => {
                        if !(code < 0x20 || (0x7F <= code && code <= 0x9F)) {
                            let text = char_to_string(ch);
                            self.push_event(Event::Text { text });
                        }
                    },
                    None => {},
                }
            }
            proof {
                assert(self@.events =~= before + one);
            }
            InputResult::Character
        } else if umsg == WM_MOUSEWHEEL || umsg == WM_MOUSEHWHEEL {
            self.alter_modifiers(get_mouse_modifiers(wparam));
            if wparam & MK_CONTROL != 0 {
                let native = get_wheel_native_delta(wparam);
                self.push_event(Event::Zoom { zoom_in: native > 0 });
                proof {
                    assert(self@.events =~= before + one);
                }
                InputResult::Zoom
            } else {
                let scaled_delta = get_wheel_scaled_delta(wparam);
                self.push_event(Event::MouseWheel { scaled_delta });
                proof {
                    assert(self@.events =~= before + one);
                }
                InputResult::Scroll
            }
        } else if umsg == WM_KEYDOWN || umsg == WM_SYSKEYDOWN {
            let modifiers = get_key_modifiers(umsg, probe.ctrl_down, probe.shift_down);
            self.modifiers = Some(modifiers);
            match get_key(wparam) {
                Some(key) => {
                    if key == Key::V && modifiers.ctrl {
                        match probe.clipboard {
                            Some(text) => {
                                if !text.as_str().is_empty() {
                                    self.push_event(Event::Text { text });
                                }
                            },
                            None => {},
                        }
                    }
                    if key == Key::C && modifiers.ctrl {
                        self.push_event(Event::Copy);
                    }
                    if key == Key::X && modifiers.ctrl {
                        self.push_event(Event::Cut);
                    }
                    let repeat = lparam & KF_REPEAT > 0;
                    self.push_event(Event::Key { pressed: true, modifiers, key, repeat });
                },
                None => {},
            }
            proof {
                assert(self@.events =~= before + one);
            }
            InputResult::Key
        } else if umsg == WM_KEYUP || umsg == WM_SYSKEYUP {
            let modifiers = get_key_modifiers(umsg, probe.ctrl_down, probe.shift_down);
            self.modifiers = Some(modifiers);
            match get_key(wparam) {
                Some(key) => {
                    let repeat = lparam & KF_REPEAT > 0;
                    self.push_event(Event::Key { pressed: false, modifiers, key, repeat });
                },
                None => {},
            }
            proof {
                assert(self@.events =~= before + one);
            }
            InputResult::Key
        } else {
            proof {
                assert(self@.events =~= before + one);
            }
            InputResult::Unknown
        }
    }

    /// Appends the pointer-button event of one button message, refining the
    /// modifier snapshot from the message's button-state bits.
    fn push_button(&mut self, wparam: usize, lparam: isize, button: PointerButton, pressed: bool)
        ensures
            final(self)@.hwnd == old(self)@.hwnd,
            final(self)@.events == old(self)@.events.push(button_event(wparam, lparam, button, pressed)),
            final(self)@.modifiers == (match old(self)@.modifiers {
                Some(_) => Some(mouse_modifiers(wparam)),
                None => None::<Modifiers>,
            }),
    {
        let modifiers = get_mouse_modifiers(wparam);
        self.alter_modifiers(modifiers);
        let (x, y) = get_pos(lparam);
        self.push_event(Event::PointerButton { x, y, button, pressed, modifiers });
    }

    /// Atomically drains the queue into an input snapshot: the buffered
    /// events leave in arrival order, the queue becomes empty, and the
    /// snapshot carries the current modifier snapshot (neutral while none
    /// was observed), the screen size and the time the caller measured.
    pub fn collect_input(&mut self, time_ticks: u64, screen_w: u32, screen_h: u32) -> (r: InputSnapshot)
        ensures
            final(self)@ == drained(old(self)@),
            events_view(r.events@) == old(self)@.events,
            r.modifiers == observed_modifiers(old(self)@.modifiers),
            r.screen_w == screen_w,
            r.screen_h == screen_h,
            r.time_ticks == time_ticks,
    {
        let modifiers = match self.modifiers {
            Some(m) => m,
            None => Modifiers { alt: false, ctrl: false, shift: false, mac_cmd: false, command: false },
        };
        let mut taken: Vec<Event> = Vec::new();
        core::mem::swap(&mut self.events, &mut taken);
        proof {
            assert(events_view(Seq::<Event>::empty()) =~= Seq::<EventV>::empty());
            assert(self@ =~= drained(old(self)@));
        }
        InputSnapshot { modifiers, events: taken, screen_w, screen_h, time_ticks }
    }
}

/// Every recognized pointer message emits exactly one event, and the
/// position that event carries is the position parameter's low 16 bits and
/// high 16 bits reinterpreted as signed values, independent of the message
/// subtype.
pub proof fn lemma_pointer_position_uniform(umsg: u32, wparam: usize, lparam: isize, probe: OsProbeV)
    requires
        is_pointer_msg(umsg),
    ensures
        emitted(umsg, wparam, lparam, probe).len() == 1,
        event_pos(emitted(umsg, wparam, lparam, probe)[0]) == Some((pos_x(lparam), pos_y(lparam))),
{
}

/// Draining is exactly-once: a second drain with no message processed in
/// between returns an empty event sequence.
pub proof fn lemma_drain_exactly_once(c: CollectorV)
    ensures
        collect_model(collect_model(c).1).0 == Seq::<EventV>::empty(),
{
}

/// A key message whose virtual-key code resolves to no semantic key queues
/// no event at all.
pub proof fn lemma_unmapped_key_emits_nothing(umsg: u32, wparam: usize, lparam: isize, probe: OsProbeV)
    requires
        is_key_msg(umsg),
        key_of_vk(wparam) is None,
    ensures
        emitted(umsg, wparam, lparam, probe) == Seq::<EventV>::empty(),
{
}

/// Ctrl+paste with non-empty clipboard content emits exactly one
/// text-insertion event in addition to the key-down event; with empty or
/// absent clipboard content it emits the key-down event alone.
pub proof fn lemma_paste_emits_one_text(umsg: u32, wparam: usize, lparam: isize, probe: OsProbeV)
    requires
        umsg == WM_KEYDOWN || umsg == WM_SYSKEYDOWN,
        key_of_vk(wparam) == Some(Key::V),
        probe.ctrl_down,
    ensures
        ({
            let key_ev = EventV::Key {
                pressed: true,
                modifiers: key_modifiers(umsg, probe.ctrl_down, probe.shift_down),
                key: Key::V,
                repeat: repeat_flag(lparam),
            };
            match probe.clipboard {
                Some(s) => if s.len() > 0 {
                    emitted(umsg, wparam, lparam, probe) == seq![EventV::Text { text: s }, key_ev]
                } else {
                    emitted(umsg, wparam, lparam, probe) == seq![key_ev]
                },
                None => emitted(umsg, wparam, lparam, probe) == seq![key_ev],
            }
        }),
{
    let key_ev = EventV::Key {
        pressed: true,
        modifiers: key_modifiers(umsg, probe.ctrl_down, probe.shift_down),
        key: Key::V,
        repeat: repeat_flag(lparam),
    };
    match probe.clipboard {
        Some(s) => if s.len() > 0 {
            assert(emitted(umsg, wparam, lparam, probe) =~= seq![EventV::Text { text: s }, key_ev]);
        } else {
            assert(emitted(umsg, wparam, lparam, probe) =~= seq![key_ev]);
        },
        None => {
            assert(emitted(umsg, wparam, lparam, probe) =~= seq![key_ev]);
        },
    }
}

} // verus!
