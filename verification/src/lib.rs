//! Overlay host and input collector for interleaving an immediate-mode UI
//! frame into a foreign window's presentation loop.
//!
//! The library holds the logic that can be stated and proved over plain
//! values: the translation of raw window messages into semantic input
//! events, the per-frame drain of the event queue into an input snapshot,
//! and the render lifecycle of the overlay host (window rebinding, the
//! client-size cache, and the save/switch/restore protocol for the GPU
//! context, modelled by [`host::GlState`]).  Everything that talks to the
//! operating system, the GPU or the UI engine reaches the library as plain
//! values, or is driven through the [`host::FrameDriver`] trait that the
//! embedding application implements.

pub mod collector;
pub mod decode;
pub mod events;
pub mod host;

pub use collector::{InputCollector, InputSnapshot, OsProbe};
pub use events::{Event, InputResult, Key, Modifiers, PointerButton};
pub use host::{FrameDriver, FrameEnv, FrameOutput, FrameReport, GlState, OverlayHost};
