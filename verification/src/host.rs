//! The overlay host: owner of the private GPU context handle, the input
//! collector and the client-size cache, with the per-frame render
//! lifecycle and the window-procedure entry point.

use vstd::prelude::*;
use crate::collector::{
    CollectorV, InputCollector, InputSnapshot, OsProbe, classify, drained, emitted, fresh_collector,
    is_xbutton_msg, next_modifiers,
};
use crate::decode::{WM_SIZE, XBUTTON1, XBUTTON2};
use crate::events::InputResult;

verus! {

/// Model of the GPU-context register of the calling thread: the handle of
/// the rendering context currently current there, with 0 standing for no
/// context.  The embedding application keeps it in step with the real
/// context switches it performs on the library's behalf.
#[derive(Clone, Copy, Debug, PartialEq, Eq, Structural)]
pub struct GlState {
    pub current: usize,
}

/// What one frame presents to the host: the window owning the presented
/// device context, the live client size of that window, and the current
/// monotonic time in units of 100 nanoseconds.
#[derive(Clone, Copy, Debug, PartialEq, Eq, Structural)]
pub struct FrameEnv {
    pub presented_window: usize,
    pub client_width: u32,
    pub client_height: u32,
    pub time_ticks: u64,
}

/// What one UI-engine pass produced, as far as the render lifecycle
/// decides on it: whether the shape set came back empty, and the text the
/// platform output asks to place on the clipboard (empty for none).
#[derive(Clone, Debug, PartialEq)]
pub struct FrameOutput {
    pub shapes_empty: bool,
    pub copied_text: String,
}

/// The embedding application's side of one frame: it performs the real
/// GPU context switches, runs one UI-engine pass over the input snapshot,
/// writes the clipboard, and submits the tessellated frame to the painter.
/// Nothing is assumed of these operations; the host's own contract speaks
/// only of the decisions it makes around them.
pub trait FrameDriver {
    /// Make the given rendering context current on the calling thread
    /// (0 for no context).
    fn make_current(&mut self, ctx: usize);

    /// Run one UI-engine pass over the snapshot and retain the produced
    /// shapes and texture deltas for a following `paint` call.
    fn run_frame(&mut self, input: InputSnapshot) -> FrameOutput;

    /// Best-effort clipboard write; failures are swallowed.
    fn write_clipboard(&mut self, text: &str);

    /// Tessellate and submit the retained frame at the given client size.
    /// Called only while the private context is current.
    fn paint(&mut self, width: u32, height: u32);
}

/// Mathematical model of an [`OverlayHost`].
pub struct HostV {
    pub window: usize,
    pub gl_context: usize,
    pub client_width: u32,
    pub client_height: u32,
    pub rect_polled: bool,
    pub collector: CollectorV,
}

/// The overlay host state: one instance per injected process, guarded by
/// the embedding application's exclusive lock.
pub struct OverlayHost {
    window: usize,
    gl_context: usize,
    client_width: u32,
    client_height: u32,
    rect_polled: bool,
    collector: InputCollector,
}

impl View for OverlayHost {
    type V = HostV;

    closed spec fn view(&self) -> HostV {
        HostV {
            window: self.window,
            gl_context: self.gl_context,
            client_width: self.client_width,
            client_height: self.client_height,
            rect_polled: self.rect_polled,
            collector: self.collector@,
        }
    }
}

impl OverlayHost {
    /// Establishes the host over its private rendering context and the
    /// window first presented, with a fresh collector and a client-size
    /// cache not yet computed.
    pub fn new(gl_context: usize, window: usize) -> (r: Self)
        ensures
            r@ == (HostV {
                window,
                gl_context,
                client_width: 0,
                client_height: 0,
                rect_polled: false,
                collector: fresh_collector(window),
            }),
    {
        OverlayHost {
            window,
            gl_context,
            client_width: 0,
            client_height: 0,
            rect_polled: false,
            collector: InputCollector::new(window),
        }
    }

    /// Returns the window currently being overlaid.
    pub fn get_window(&self) -> (r: usize)
        ensures
            r == self@.window,
    {
        self.window
    }

    /// The per-frame critical path, called once per host presentation
    /// call.  Rebinds to the presented window if its identity changed
    /// (fresh collector, fresh client-size cache), switches the thread to
    /// the private rendering context, drains the collector into one input
    /// snapshot and runs one UI-engine pass over it, writes requested
    /// non-empty clipboard text, paints unless the shape set came back
    /// empty (resolving the client-size cache lazily once), and restores
    /// on every path the context that was current before the call.
    pub fn render<D: FrameDriver>(&mut self, driver: &mut D, gl: &mut GlState, env: FrameEnv) -> (r: FrameReport)
        ensures
            final(gl).current == old(gl).current,
            final(self)@ == render_step(old(self)@, env, r.output.shapes_empty),
            r.rebound == (env.presented_window != old(self)@.window),
            r.painted == !r.output.shapes_empty,
            r.paint_size == (if r.painted {
                Some((final(self)@.client_width, final(self)@.client_height))
            } else {
                None::<(u32, u32)>
            }),
            r.clipboard_written == (r.output.copied_text@.len() > 0),
    {
        let rebound = env.presented_window != self.window;
        if rebound {
            self.window = env.presented_window;
            self.collector = InputCollector::new(env.presented_window);
            self.client_width = env.client_width;
            self.client_height = env.client_height;
        }
        let saved: usize = gl.current;
        driver.make_current(self.gl_context);
        gl.current = self.gl_context;
        let input = self.collector.collect_input(env.time_ticks, env.client_width, env.client_height);
        let output = driver.run_frame(input);
        let clipboard_written = !output.copied_text.as_str().is_empty();
        if clipboard_written {
            driver.write_clipboard(output.copied_text.as_str());
        }
        if output.shapes_empty {
            driver.make_current(saved);
            gl.current = saved;
            return FrameReport {
                rebound,
                painted: false,
                paint_size: None,
                clipboard_written,
                output,
            };
        }
        if !self.rect_polled {
            self.client_width = env.client_width;
            self.client_height = env.client_height;
            self.rect_polled = true;
        }
        driver.paint(self.client_width, self.client_height);
        let paint_size = Some((self.client_width, self.client_height));
        driver.make_current(saved);
        gl.current = saved;
        FrameReport { rebound, painted: true, paint_size, clipboard_written, output }
    }

    /// Window-procedure entry point: forwards the raw message to the
    /// collector, and updates the client-size cache eagerly on a resize
    /// notification, for which the caller queries the live client size.
    /// The caller decides from the UI engine whether to suppress
    /// forwarding the message to the original procedure.
    pub fn wnd_proc(&mut self, umsg: u32, wparam: usize, lparam: isize, probe: OsProbe, resized: Option<(u32, u32)>) -> (r: InputResult)
        requires
            is_xbutton_msg(umsg) ==> (wparam >> 16) & (XBUTTON1 | XBUTTON2) != 0,
            umsg == WM_SIZE ==> resized is Some,
        ensures
            final(self)@.window == old(self)@.window,
            final(self)@.gl_context == old(self)@.gl_context,
            final(self)@.rect_polled == old(self)@.rect_polled,
            final(self)@.collector.hwnd == old(self)@.collector.hwnd,
            final(self)@.collector.events == old(self)@.collector.events
                + emitted(umsg, wparam, lparam, probe@),
            final(self)@.collector.modifiers == next_modifiers(
                old(self)@.collector.modifiers,
                umsg,
                wparam,
                probe@,
            ),
            (final(self)@.client_width, final(self)@.client_height) == (if umsg == WM_SIZE {
                resized->Some_0
            } else {
                (old(self)@.client_width, old(self)@.client_height)
            }),
            r == classify(umsg, wparam),
    {
        let r = self.collector.process(umsg, wparam, lparam, probe);
        if umsg == WM_SIZE {
            match resized {
                Some((w, h)) => {
                    self.client_width = w;
                    self.client_height = h;
                },
                None => {},
            }
        }
        r
    }
}

/// The state evolution of one render pass: rebind to the presented window
/// if its identity changed, drain the collector, and resolve the
/// client-size cache lazily once when the frame paints.
pub open spec fn render_step(h: HostV, env: FrameEnv, shapes_empty: bool) -> HostV {
    let h1 = if env.presented_window != h.window {
        HostV {
            window: env.presented_window,
            client_width: env.client_width,
            client_height: env.client_height,
            collector: fresh_collector(env.presented_window),
            ..h
        }
    } else {
        h
    };
    let h2 = HostV { collector: drained(h1.collector), ..h1 };
    if !shapes_empty && !h2.rect_polled {
        HostV { client_width: env.client_width, client_height: env.client_height, rect_polled: true, ..h2 }
    } else {
        h2
    }
}

/// Changing the window identity between two consecutive render passes
/// resets the cached client size to the live size of the new window and
/// discards every event queued against the old window's collector: the
/// second pass starts from a fresh, empty collector.
pub proof fn lemma_window_change_resets(h: HostV, env: FrameEnv, shapes_empty: bool)
    requires
        env.presented_window != h.window,
    ensures
        render_step(h, env, shapes_empty).window == env.presented_window,
        render_step(h, env, shapes_empty).client_width == env.client_width,
        render_step(h, env, shapes_empty).client_height == env.client_height,
        render_step(h, env, shapes_empty).collector == drained(fresh_collector(env.presented_window)),
        render_step(h, env, shapes_empty).collector.events == Seq::<crate::events::EventV>::empty(),
{
}

/// Report of one render pass: whether the host rebound to a new window,
/// whether it painted and at which client size, whether it wrote the
/// clipboard, and the UI-engine output the decisions were made on.
#[derive(Clone, Debug, PartialEq)]
pub struct FrameReport {
    pub rebound: bool,
    pub painted: bool,
    pub paint_size: Option<(u32, u32)>,
    pub clipboard_written: bool,
    pub output: FrameOutput,
}

} // verus!
