//! The macOS backend's own state: window size, the size reported over IPC,
//! focus, modifiers, the queue of input events, frame pacing, and the
//! window, renderer, input handler and display manager that it owns.

use std::time::Duration;

use vstd::prelude::*;

use crate::display::{
    has_main, has_promotion_mode, is_max_refresh_rate, table_from, DisplayManager, DisplayMode, KnownDisplay, MacOSDisplay,
    ReportedDisplay, lemma_reported_table_wf,
};
use crate::events::{F32Bits, F64Bits, MacOSInputEvent, F64_TWO_BITS};
use crate::frame_timer::{frame_duration_ns, FrameTimer, FrameTimerView};
use crate::gesture::GesturePhase;
use crate::input::{InputHandler, InputHandlerView};
use crate::input_adapter::{convert_input_event, converts_to, convertible, ConvertedEvent};
use crate::ipc::{ipc_dimension, IpcMode, IpcOutput, IpcOutputView, LogicalOutput};
use crate::keymap::{spec_keycode_to_evdev, BTN_LEFT};
use crate::modifiers::MacOSModifiers;
use crate::output::{CompositorOutput, CompositorOutputView, OutputMode, WINDOW_REFRESH};
use crate::render::{MetalRenderer, MetalRendererView, F32_ONE_BITS, F32_TENTH_BITS};
use crate::window::{CocoaWindow, CocoaWindowView};

verus! {

/// Outcome of a render request.
#[derive(Debug, Clone, Copy, PartialEq, Eq, Structural)]
pub enum RenderResult {
    /// The frame was submitted to the backend for presentation.
    Submitted,
    /// Rendering succeeded, but there was no damage.
    NoDamage,
    /// The frame was not rendered and submitted, due to an error or otherwise.
    Skipped,
}

/// Source of output ids: hands out 1, 2, 3, ... in turn, and remembers
/// (as ghost state) the ids it has handed out.
pub struct IdCounter {
    value: u64,
    issued: Ghost<Seq<u64>>,
}

impl View for IdCounter {
    type V = u64;

    closed spec fn view(&self) -> u64 {
        self.value
    }
}

impl IdCounter {
    #[verifier::type_invariant]
    spec fn wf(self) -> bool {
        &&& self.value == counter_after(1, self.issued@.len())
        &&& forall|i: int| 0 <= i < self.issued@.len() ==> #[trigger] self.issued@[i] == counter_after(1, i as nat)
    }

    /// The ids handed out so far, in order.
    pub closed spec fn issued(self) -> Seq<u64> {
        self.issued@
    }

    /// A counter whose first id is 1; no id has been handed out.
    pub fn new() -> (r: Self)
        ensures
            r@ == 1,
            r.issued() == Seq::<u64>::empty(),
    {
        proof {
            vstd::arithmetic::div_mod::lemma_small_mod(1, counter_period());
        }
        IdCounter { value: 1, issued: Ghost(Seq::empty()) }
    }

    /// Hands out the next id; the counter wraps around after `u64::MAX`.
    /// As long as fewer than 2^64 ids have been handed out, the id differs
    /// from every id this counter handed out before.
    pub fn next(&mut self) -> (r: u64)
        ensures
            r == old(self)@,
            final(self)@ == (if old(self)@ == u64::MAX { 0 } else { old(self)@ + 1 }),
            final(self).issued() == old(self).issued().push(r),
            old(self).issued().len() < counter_period() ==> !old(self).issued().contains(r),
    {
        proof {
            use_type_invariant(&*self);
        }
        let ghost before = self.issued@;
        let ghost n = before.len();
        proof {
            lemma_counter_step(1, n);
            if n < counter_period() {
                assert forall|i: int| 0 <= i < n implies before[i] != counter_after(1, n) by {
                    lemma_ids_distinct(1, i as nat, n);
                }
            }
        }
        let r = self.value;
        let next_value = self.value.wrapping_add(1);
        *self = IdCounter { value: next_value, issued: Ghost(before.push(r)) };
        proof {
            assert(self.issued@.len() == n + 1);
            assert forall|i: int| 0 <= i < self.issued@.len() implies #[trigger] self.issued@[i] == counter_after(1, i as nat) by {
                if i < n {
                    assert(self.issued@[i] == before[i]);
                }
            }
        }
        r
    }
}

/// Number of distinct counter values: 2^64.
pub open spec fn counter_period() -> nat {
    0x1_0000_0000_0000_0000
}

/// The counter value after `n` ids have been handed out from `start`.
pub open spec fn counter_after(start: u64, n: nat) -> u64 {
    ((start + n) % (counter_period() as int)) as u64
}

/// Handing out one more id moves the counter one step on, wrapping around
/// after `u64::MAX`.
pub proof fn lemma_counter_step(start: u64, n: nat)
    ensures
        counter_after(start, n + 1) == (if counter_after(start, n) == u64::MAX {
            0
        } else {
            counter_after(start, n) + 1
        }),
{
    let p = counter_period() as int;
    let a = start + n;
    vstd::arithmetic::div_mod::lemma_mod_pos_bound(a, p);
    vstd::arithmetic::div_mod::lemma_add_mod_noop(a, 1, p);
    vstd::arithmetic::div_mod::lemma_small_mod(1, p as nat);
    if a % p + 1 < p {
        vstd::arithmetic::div_mod::lemma_small_mod((a % p + 1) as nat, p as nat);
    } else {
        vstd::arithmetic::div_mod::lemma_mod_add_multiples_vanish(0, p);
        vstd::arithmetic::div_mod::lemma_small_mod(0, p as nat);
    }
}

/// Of fewer than 2^64 ids handed out in a row by one counter, no two are
/// equal: the ids handed out as the `i`-th and the `j`-th differ.
pub proof fn lemma_ids_distinct(start: u64, i: nat, j: nat)
    requires
        i < j < counter_period(),
    ensures
        counter_after(start, i) != counter_after(start, j),
{
    let p = counter_period() as int;
    vstd::arithmetic::div_mod::lemma_fundamental_div_mod(start + i, p);
    vstd::arithmetic::div_mod::lemma_fundamental_div_mod(start + j, p);
    let qi = (start + i) / p;
    let qj = (start + j) / p;
    if counter_after(start, i) == counter_after(start, j) {
        assert((start + j) - (start + i) == p * (qj - qi)) by (nonlinear_arith)
            requires
                start + i == p * qi + (start + i) % p,
                start + j == p * qj + (start + j) % p,
                (start + i) % p == (start + j) % p;
        assert(p * (qj - qi) == j - i);
        assert(false) by (nonlinear_arith)
            requires
                p * (qj - qi) == j - i,
                0 < j - i < p,
        ;
    }
}

/// Identifier of an output.
#[derive(Debug, Clone, Copy, PartialEq, Eq, Structural, Hash)]
pub struct OutputId(u64);

impl OutputId {
    /// A fresh output id from the counter.
    ///
    /// Ids are distinct among those handed out by one counter (as long as
    /// fewer than 2^64 are handed out): for ids to be unique across the
    /// process, every caller must take them from one shared `IdCounter`.
    pub fn next(counter: &mut IdCounter) -> (r: OutputId)
        ensures
            r.spec_get() == old(counter)@,
            final(counter)@ == (if old(counter)@ == u64::MAX { 0 } else { old(counter)@ + 1 }),
            final(counter).issued() == old(counter).issued().push(r.spec_get()),
            old(counter).issued().len() < counter_period() ==> !old(counter).issued().contains(r.spec_get()),
    {
        OutputId(counter.next())
    }

    /// The numeric value of the id.
    pub closed spec fn spec_get(self) -> u64 {
        self.0
    }

    /// The numeric value of the id.
    pub fn get(self) -> (r: u64)
        ensures
            r == self.spec_get(),
    {
        self.0
    }
}

/// Initial window width.
pub const INITIAL_WIDTH: i32 = 1280;
/// Initial window height.
pub const INITIAL_HEIGHT: i32 = 800;
/// Target frame rate until a faster display is found.
pub const DEFAULT_FPS: u32 = 60;

/// The state of the backend.
pub struct MacOSView {
    /// Window size in physical pixels.
    pub window_size: (i32, i32),
    /// Scale factor for HiDPI (Retina) displays.
    pub scale_factor: F64Bits,
    /// Whether the window has focus.
    pub has_focus: bool,
    /// Queued input events, oldest first.
    pub input_queue: Seq<MacOSInputEvent>,
    /// Modifier state of the latest key event.
    pub modifiers: MacOSModifiers,
    pub debug_tint_enabled: bool,
    pub frame_timer: FrameTimerView,
    /// Id of the output reported over IPC.
    pub ipc_output_id: OutputId,
    /// The output as reported over IPC.
    pub ipc_output: IpcOutputView,
    pub window: Option<CocoaWindowView>,
    pub input_handler: Option<InputHandlerView>,
    pub display_manager: Option<Map<u32, KnownDisplay>>,
    pub renderer: Option<MetalRendererView>,
    /// The compositor output that shows the window.
    pub output: CompositorOutputView,
}

impl MacOSView {
    /// The state after `e` is queued.
    pub open spec fn with_event(self, e: MacOSInputEvent) -> MacOSView {
        MacOSView { input_queue: self.input_queue.push(e), ..self }
    }
}

/// Whether an event gives a converted event (absolute motion, rotation and
/// keys without an evdev code give none).
pub open spec fn gives_event(e: MacOSInputEvent) -> bool {
    match e {
        MacOSInputEvent::Key { keycode, .. } => spec_keycode_to_evdev(keycode) is Some,
        MacOSInputEvent::PointerMotionAbsolute { .. } => false,
        MacOSInputEvent::GestureRotate { .. } => false,
        _ => true,
    }
}

/// The events of a queue that give converted events, in queue order.
pub open spec fn kept_events(q: Seq<MacOSInputEvent>) -> Seq<MacOSInputEvent>
    decreases q.len(),
{
    if q.len() == 0 {
        Seq::empty()
    } else {
        let s = kept_events(q.drop_last());
        if gives_event(q.last()) {
            s.push(q.last())
        } else {
            s
        }
    }
}

/// Queuing an event adds one converted event at the end exactly when the
/// event gives one; the events queued before convert as they did.
pub proof fn lemma_kept_events_push(q: Seq<MacOSInputEvent>, e: MacOSInputEvent)
    ensures
        kept_events(q.push(e)) == (if gives_event(e) { kept_events(q).push(e) } else { kept_events(q) }),
{
    assert(q.push(e).drop_last() =~= q);
}

/// Whether pacing for a main display that lists `modes` turns the frame
/// timer `before` into `after`: when the display offers a refresh rate above
/// 60 Hz, the timer targets the highest rate it offers, in whole hertz, and
/// keeps the time of the last frame; otherwise the timer is unchanged.
pub open spec fn paced_for_main(modes: Seq<DisplayMode>, before: FrameTimerView, after: FrameTimerView) -> bool {
    if has_promotion_mode(modes) {
        exists|r: u32|
            #[trigger] is_max_refresh_rate(modes, r) && after == (FrameTimerView {
                target_duration_ns: frame_duration_ns((r / 1000) as u32) as u64,
                ..before
            })
    } else {
        after == before
    }
}

/// Whether initialization with the display table `t` turns the frame timer
/// `before` into `after`: paced for the main display (when several are
/// main, for one of them), and unchanged when there is no main display.
pub open spec fn paced_for_displays(t: Map<u32, KnownDisplay>, before: FrameTimerView, after: FrameTimerView) -> bool {
    if has_main(t) {
        exists|id: u32| #[trigger] t.contains_key(id) && t[id].info.is_main && paced_for_main(t[id].modes, before, after)
    } else {
        after == before
    }
}

/// The IPC output of the window, which always lists at least one mode.
struct WindowIpcOutput {
    output: IpcOutput,
}

impl WindowIpcOutput {
    #[verifier::type_invariant]
    spec fn wf(self) -> bool {
        self.output@.modes.len() > 0
    }
}

/// The macOS backend.
pub struct MacOS {
    window_size: (i32, i32),
    scale_factor: F64Bits,
    has_focus: bool,
    input_queue: Vec<MacOSInputEvent>,
    modifiers: MacOSModifiers,
    debug_tint_enabled: bool,
    frame_timer: FrameTimer,
    ipc_output_id: OutputId,
    ipc_output: WindowIpcOutput,
    window: Option<CocoaWindow>,
    input_handler: Option<InputHandler>,
    display_manager: Option<DisplayManager>,
    metal_renderer: Option<MetalRenderer>,
    output: CompositorOutput,
}

impl View for MacOS {
    type V = MacOSView;

    closed spec fn view(&self) -> MacOSView {
        MacOSView {
            window_size: self.window_size,
            scale_factor: self.scale_factor,
            has_focus: self.has_focus,
            input_queue: self.input_queue@,
            modifiers: self.modifiers,
            debug_tint_enabled: self.debug_tint_enabled,
            frame_timer: self.frame_timer@,
            ipc_output_id: self.ipc_output_id,
            ipc_output: self.ipc_output.output@,
            window: match self.window {
                Some(w) => Some(w@),
                None => None,
            },
            input_handler: match self.input_handler {
                Some(h) => Some(h@),
                None => None,
            },
            display_manager: match self.display_manager {
                Some(d) => Some(d@),
                None => None,
            },
            renderer: match self.metal_renderer {
                Some(r) => Some(r@),
                None => None,
            },
            output: self.output@,
        }
    }
}

impl MacOS {
    /// Creates the backend: a 1280x800 window at scale 2 with focus, no
    /// queued event, no modifier held, no debug tint, frame pacing at 60
    /// frames per second with no frame rendered yet; the compositor output
    /// "macos" has 1280x800 at 60 Hz as current and preferred mode, and the
    /// IPC output reports a 1280x800 mode and a 1280x800 logical size. The
    /// window, renderer, input handler and display manager come with `init`.
    pub fn new(ids: &mut IdCounter) -> (r: Self)
        ensures
            r@.window_size == (INITIAL_WIDTH, INITIAL_HEIGHT),
            r@.scale_factor == F64Bits(F64_TWO_BITS),
            r@.has_focus,
            r@.input_queue == Seq::<MacOSInputEvent>::empty(),
            r@.modifiers == MacOSModifiers::none(),
            !r@.debug_tint_enabled,
            r@.frame_timer == (FrameTimerView { target_duration_ns: frame_duration_ns(DEFAULT_FPS) as u64, last_frame_ns: 0 }),
            r@.ipc_output_id.spec_get() == old(ids)@,
            final(ids)@ == (if old(ids)@ == u64::MAX { 0 } else { old(ids)@ + 1 }),
            final(ids).issued() == old(ids).issued().push(r@.ipc_output_id.spec_get()),
            old(ids).issued().len() < counter_period() ==> !old(ids).issued().contains(r@.ipc_output_id.spec_get()),
            r@.ipc_output == IpcOutput::window_view(1280, 800),
            r@.window is None,
            r@.input_handler is None,
            r@.display_manager is None,
            r@.renderer is None,
            r@.output == CompositorOutput::window_view(INITIAL_WIDTH, INITIAL_HEIGHT),
    {
        MacOS {
            window_size: (INITIAL_WIDTH, INITIAL_HEIGHT),
            scale_factor: F64Bits(F64_TWO_BITS),
            has_focus: true,
            input_queue: Vec::new(),
            modifiers: MacOSModifiers::default(),
            debug_tint_enabled: false,
            frame_timer: FrameTimer::new(DEFAULT_FPS),
            ipc_output_id: OutputId::next(ids),
            ipc_output: WindowIpcOutput { output: IpcOutput::for_window(1280, 800) },
            window: None,
            input_handler: None,
            display_manager: None,
            metal_renderer: None,
            output: CompositorOutput::for_window(INITIAL_WIDTH, INITIAL_HEIGHT),
        }
    }

    /// Completes initialization: the display manager takes the displays that
    /// the platform reports; if the main display offers a refresh rate above
    /// 60 Hz (ProMotion), frame pacing targets its highest refresh rate (see
    /// `paced_for_displays`); the window (titled "niri", of the window's
    /// size), the renderer and a started input handler are created.
    pub fn init(&mut self, displays: Vec<ReportedDisplay>)
        ensures
            final(self)@.display_manager matches Some(t) && t == table_from(displays@.map_values(|d: ReportedDisplay| d@))
                && paced_for_displays(t, old(self)@.frame_timer, final(self)@.frame_timer),
            final(self)@.window == Some(CocoaWindowView {
                width: old(self)@.window_size.0 as u32,
                height: old(self)@.window_size.1 as u32,
                scale_factor: F64Bits(F64_TWO_BITS),
                is_visible: true,
                needs_redraw: false,
            }),
            final(self)@.renderer == Some(MetalRendererView {
                clear_color: [F32Bits(F32_TENTH_BITS), F32Bits(F32_TENTH_BITS), F32Bits(F32_TENTH_BITS), F32Bits(F32_ONE_BITS)],
                vsync_enabled: true,
                target_fps: 60,
                debug_tint: false,
                frame_count: 0,
            }),
            final(self)@.input_handler == Some(InputHandlerView {
                queue: Seq::empty(),
                modifiers: MacOSModifiers::none(),
                devices: Map::empty(),
                active: true,
            }),
            final(self)@.window_size == old(self)@.window_size,
            final(self)@.scale_factor == old(self)@.scale_factor,
            final(self)@.has_focus == old(self)@.has_focus,
            final(self)@.input_queue == old(self)@.input_queue,
            final(self)@.modifiers == old(self)@.modifiers,
            final(self)@.debug_tint_enabled == old(self)@.debug_tint_enabled,
            final(self)@.ipc_output_id == old(self)@.ipc_output_id,
            final(self)@.ipc_output == old(self)@.ipc_output,
            final(self)@.output == old(self)@.output,
    {
        let ghost reported = displays@;
        let dm = DisplayManager::new(displays);
        let ghost t = dm@;
        let ghost before = self.frame_timer@;
        proof {
            lemma_reported_table_wf(reported);
        }
        match dm.get_main_display() {
            Some(main_display) => {
                let ghost id = choose|id: u32| #[trigger] t.contains_key(id) && t[id].info == main_display@
                    && main_display@.is_main;
                assert(main_display.id == id);
                if dm.supports_promotion(main_display.id) {
                    let max_rate = dm.max_refresh_rate(main_display.id);
                    proof {
                        let k = choose|k: int| 0 <= k < t[id].modes.len() && #[trigger] t[id].modes[k].refresh_rate > 60_000;
                        assert(t[id].modes[k].refresh_rate <= max_rate);
                    }
                    let max_fps = max_rate / 1000;
                    self.frame_timer.set_target_fps(max_fps);
                    assert(paced_for_main(t[id].modes, before, self.frame_timer@));
                } else {
                    assert(paced_for_main(t[id].modes, before, self.frame_timer@));
                }
            },
            None => {},
        }
        assert(paced_for_displays(t, before, self.frame_timer@));
        self.display_manager = Some(dm);
        match CocoaWindow::new("niri", self.window_size.0 as u32, self.window_size.1 as u32) {
            Ok(window) => {
                self.window = Some(window);
            },
            Err(_) => {},
        }
        match MetalRenderer::new() {
            Ok(renderer) => {
                self.metal_renderer = Some(renderer);
            },
            Err(_) => {},
        }
        let mut input_handler = InputHandler::new();
        input_handler.start();
        self.input_handler = Some(input_handler);
    }

    /// The compositor output that shows the window.
    pub fn output(&self) -> (r: &CompositorOutput)
        ensures
            r@ == self@.output,
    {
        &self.output
    }

    /// The seat name: "macos".
    pub fn seat_name(&self) -> (r: String)
        ensures
            r@ == "macos"@,
    {
        "macos".to_owned()
    }

    /// Renders a frame at `now_ns` (a monotonic clock reading no earlier
    /// than the last frame): when a frame is not due yet the frame is
    /// skipped and nothing changes; otherwise the frame is recorded at
    /// `now_ns`, the window (if any) is asked to redraw, and the frame counts
    /// as submitted.
    pub fn render(&mut self, now_ns: u64) -> (r: RenderResult)
        requires
            old(self)@.frame_timer.last_frame_ns <= now_ns,
        ensures
            !old(self)@.frame_timer.due(now_ns) ==> r == RenderResult::Skipped && final(self)@ == old(self)@,
            old(self)@.frame_timer.due(now_ns) ==> r == RenderResult::Submitted && final(self)@ == (MacOSView {
                frame_timer: FrameTimerView { last_frame_ns: now_ns, ..old(self)@.frame_timer },
                window: match old(self)@.window {
                    Some(w) => Some(CocoaWindowView { needs_redraw: true, ..w }),
                    None => None,
                },
                ..old(self)@
            }),
    {
        if !self.frame_timer.should_render(now_ns) {
            return RenderResult::Skipped;
        }
        self.frame_timer.frame_rendered(now_ns);
        match self.window.take() {
            Some(mut window) => {
                window.request_redraw();
                self.window = Some(window);
            },
            None => {},
        }
        RenderResult::Submitted
    }

    /// The frame timer.
    pub fn frame_timer(&self) -> (r: &FrameTimer)
        ensures
            r@ == self@.frame_timer,
    {
        &self.frame_timer
    }

    /// Toggles the debug tint.
    pub fn toggle_debug_tint(&mut self)
        ensures
            final(self)@ == (MacOSView { debug_tint_enabled: !old(self)@.debug_tint_enabled, ..old(self)@ }),
    {
        self.debug_tint_enabled = !self.debug_tint_enabled;
    }

    /// Whether the debug tint is on.
    pub fn debug_tint_enabled(&self) -> (r: bool)
        ensures
            r == self@.debug_tint_enabled,
    {
        self.debug_tint_enabled
    }

    /// Records a window resize: the window size, the current mode of the
    /// compositor output (at 60 Hz), and the first mode and the logical size
    /// of the IPC output follow the new size (see `IpcOutput::resize`).
    pub fn handle_resize(&mut self, width: i32, height: i32)
        ensures
            final(self)@ == (MacOSView {
                window_size: (width, height),
                ipc_output: IpcOutputView {
                    modes: old(self)@.ipc_output.modes.update(
                        0,
                        IpcMode {
                            width: ipc_dimension(width),
                            height: ipc_dimension(height),
                            ..old(self)@.ipc_output.modes[0]
                        },
                    ),
                    logical: match old(self)@.ipc_output.logical {
                        Some(l) => Some(LogicalOutput { width: width as u32, height: height as u32, ..l }),
                        None => None,
                    },
                    ..old(self)@.ipc_output
                },
                output: CompositorOutputView {
                    current_mode: Some(OutputMode { width, height, refresh: WINDOW_REFRESH }),
                    ..old(self)@.output
                },
                ..old(self)@
            }),
    {
        self.window_size = (width, height);
        self.output.change_current_mode(OutputMode { width, height, refresh: WINDOW_REFRESH });
        let mut slot = WindowIpcOutput { output: IpcOutput::for_window(0, 0) };
        std::mem::swap(&mut slot, &mut self.ipc_output);
        proof {
            use_type_invariant(&slot);
        }
        let WindowIpcOutput { output: mut ipc } = slot;
        ipc.resize(width, height);
        self.ipc_output = WindowIpcOutput { output: ipc };
    }

    /// The window size in physical pixels.
    pub fn window_size(&self) -> (r: (i32, i32))
        ensures
            r == self@.window_size,
    {
        self.window_size
    }

    /// The output reported over IPC, with its id.
    pub fn ipc_output(&self) -> (r: (OutputId, IpcOutput))
        ensures
            r.0 == self@.ipc_output_id,
            r.1@ == self@.ipc_output,
    {
        (self.ipc_output_id, self.ipc_output.output.clone())
    }

    /// Records a key event: the modifier state becomes `modifiers`, and the
    /// key event is queued.
    pub fn handle_key_event(&mut self, keycode: u16, pressed: bool, modifiers: MacOSModifiers)
        ensures
            final(self)@ == (MacOSView {
                modifiers,
                ..old(self)@.with_event(MacOSInputEvent::Key { keycode, pressed, modifiers })
            }),
    {
        self.modifiers = modifiers;
        self.input_queue.push(MacOSInputEvent::Key { keycode, pressed, modifiers });
    }

    /// The modifier state of the latest key event.
    pub fn modifiers(&self) -> (r: MacOSModifiers)
        ensures
            r == self@.modifiers,
    {
        self.modifiers
    }

    /// Queues relative pointer motion.
    pub fn handle_pointer_motion(&mut self, dx: F64Bits, dy: F64Bits)
        ensures
            final(self)@ == old(self)@.with_event(MacOSInputEvent::PointerMotion { dx, dy }),
    {
        self.input_queue.push(MacOSInputEvent::PointerMotion { dx, dy });
    }

    /// Queues a pointer button press or release.
    pub fn handle_pointer_button(&mut self, button: u32, pressed: bool)
        ensures
            final(self)@ == old(self)@.with_event(MacOSInputEvent::PointerButton { button, pressed }),
    {
        self.input_queue.push(MacOSInputEvent::PointerButton { button, pressed });
    }

    /// Queues a scroll.
    pub fn handle_scroll(&mut self, horizontal: F64Bits, vertical: F64Bits, is_trackpad: bool)
        ensures
            final(self)@ == old(self)@.with_event(MacOSInputEvent::PointerAxis { horizontal, vertical, is_trackpad }),
    {
        self.input_queue.push(MacOSInputEvent::PointerAxis { horizontal, vertical, is_trackpad });
    }

    /// Queues a pinch gesture.
    pub fn handle_pinch_gesture(&mut self, scale: F64Bits, phase: GesturePhase)
        ensures
            final(self)@ == old(self)@.with_event(MacOSInputEvent::GesturePinch { scale, phase }),
    {
        self.input_queue.push(MacOSInputEvent::GesturePinch { scale, phase });
    }

    /// Queues a swipe gesture.
    pub fn handle_swipe_gesture(&mut self, dx: F64Bits, dy: F64Bits, fingers: u32, phase: GesturePhase)
        ensures
            final(self)@ == old(self)@.with_event(MacOSInputEvent::GestureSwipe { dx, dy, fingers, phase }),
    {
        self.input_queue.push(MacOSInputEvent::GestureSwipe { dx, dy, fingers, phase });
    }

    /// Queues a rotation gesture.
    pub fn handle_rotate_gesture(&mut self, angle: F64Bits, phase: GesturePhase)
        ensures
            final(self)@ == old(self)@.with_event(MacOSInputEvent::GestureRotate { angle, phase }),
    {
        self.input_queue.push(MacOSInputEvent::GestureRotate { angle, phase });
    }

    /// Records whether the window has focus.
    pub fn handle_focus_change(&mut self, focused: bool)
        ensures
            final(self)@ == (MacOSView { has_focus: focused, ..old(self)@ }),
    {
        self.has_focus = focused;
    }

    /// Whether the window has focus.
    pub fn has_focus(&self) -> (r: bool)
        ensures
            r == self@.has_focus,
    {
        self.has_focus
    }

    /// Takes all queued input events, oldest first.
    pub fn drain_input_events(&mut self) -> (r: Vec<MacOSInputEvent>)
        ensures
            r@ == old(self)@.input_queue,
            final(self)@ == (MacOSView { input_queue: Seq::empty(), ..old(self)@ }),
    {
        let mut taken: Vec<MacOSInputEvent> = Vec::new();
        std::mem::swap(&mut taken, &mut self.input_queue);
        taken
    }

    /// Whether every queued event can be converted (no queued button number
    /// is so large that its evdev code would not fit in 32 bits).
    pub fn queued_events_convertible(&self) -> (r: bool)
        ensures
            r == forall|i: int| 0 <= i < self@.input_queue.len() ==> convertible(#[trigger] self@.input_queue[i]),
    {
        let mut i: usize = 0;
        while i < self.input_queue.len()
            invariant
                i <= self.input_queue.len(),
                forall|q: int| 0 <= q < i ==> convertible(#[trigger] self@.input_queue[q]),
            decreases self.input_queue.len() - i,
        {
            match self.input_queue[i] {
                MacOSInputEvent::PointerButton { button, .. } => {
                    if button > u32::MAX - BTN_LEFT {
                        assert(!convertible(self@.input_queue[i as int]));
                        return false;
                    }
                },
                _ => {},
            }
            i = i + 1;
        }
        true
    }

    /// Takes all queued input events and converts them, at `time`, in queue
    /// order; events that convert to nothing are dropped.
    pub fn process_input_events(&mut self, time: Duration) -> (r: Vec<ConvertedEvent>)
        requires
            forall|i: int| 0 <= i < old(self)@.input_queue.len() ==> convertible(#[trigger] old(self)@.input_queue[i]),
        ensures
            final(self)@ == (MacOSView { input_queue: Seq::empty(), ..old(self)@ }),
            r.len() == kept_events(old(self)@.input_queue).len(),
            forall|j: int| 0 <= j < r.len() ==> converts_to(kept_events(old(self)@.input_queue)[j], time, Some(#[trigger] r@[j])),
    {
        let raw_events = self.drain_input_events();
        let ghost q = raw_events@;
        let mut out: Vec<ConvertedEvent> = Vec::new();
        let mut i: usize = 0;
        while i < raw_events.len()
            invariant
                i <= raw_events.len(),
                q == raw_events@,
                forall|k: int| 0 <= k < q.len() ==> convertible(#[trigger] q[k]),
                out.len() == kept_events(q.subrange(0, i as int)).len(),
                forall|j: int| 0 <= j < out.len() ==> converts_to(kept_events(q.subrange(0, i as int))[j], time, Some(#[trigger] out@[j])),
            decreases raw_events.len() - i,
        {
            let e = raw_events[i];
            let ghost before = kept_events(q.subrange(0, i as int));
            proof {
                assert(q.subrange(0, i + 1).drop_last() =~= q.subrange(0, i as int));
                assert(q.subrange(0, i + 1).last() == e);
            }
            let c = convert_input_event(e, time);
            match c {
                Some(ev) => {
                    proof {
                        assert(gives_event(e));
                        assert(kept_events(q.subrange(0, i + 1)) == before.push(e));
                    }
                    out.push(ev);
                },
                None => {
                    proof {
                        assert(!gives_event(e));
                        assert(kept_events(q.subrange(0, i + 1)) == before);
                    }
                },
            }
            i = i + 1;
        }
        proof {
            assert(q.subrange(0, i as int) =~= q);
        }
        out
    }

    /// Moves the events queued by the input handler (if there is one) to the
    /// end of the backend's queue.
    pub fn poll_input(&mut self)
        ensures
            old(self)@.input_handler matches Some(h) ==> final(self)@ == (MacOSView {
                input_queue: old(self)@.input_queue + h.queue,
                input_handler: Some(InputHandlerView { queue: Seq::empty(), ..h }),
                ..old(self)@
            }),
            old(self)@.input_handler is None ==> final(self)@ == old(self)@,
    {
        match self.input_handler.take() {
            Some(mut handler) => {
                let mut events = handler.drain_events();
                self.input_queue.append(&mut events);
                self.input_handler = Some(handler);
            },
            None => {},
        }
    }

    /// The scale factor.
    pub fn scale_factor(&self) -> (r: F64Bits)
        ensures
            r == self@.scale_factor,
    {
        self.scale_factor
    }

    /// Stores a new scale factor (deciding whether a change is large enough
    /// to apply is left to the caller).
    pub fn store_scale_factor(&mut self, scale: F64Bits)
        ensures
            final(self)@ == (MacOSView { scale_factor: scale, ..old(self)@ }),
    {
        self.scale_factor = scale;
    }

    /// The displays connected to the system, as the display manager
    /// enumerates them (see `DisplayManager::enumerate_displays`).
    pub fn enumerate_displays() -> (r: Vec<MacOSDisplay>)
        ensures
            r.len() == 1,
            r[0].display_id == 0,
            r[0].name@ == "Simulated Display"@,
            r[0].physical_size_mm == Some((344u32, 215u32)),
            r[0].resolution == (2560u32, 1600u32),
            r[0].refresh_rate == 60_000,
            r[0].scale_factor == F64Bits(F64_TWO_BITS),
            r[0].is_main,
    {
        DisplayManager::enumerate_displays()
    }
}

/// An event is kept when the queue is processed exactly when it converts to
/// an event: absolute motion, rotation and keys without an evdev code are
/// dropped, all else is kept.
pub proof fn lemma_kept_exactly_when_converted(e: MacOSInputEvent, time: Duration, r: Option<ConvertedEvent>)
    requires
        converts_to(e, time, r),
    ensures
        gives_event(e) <==> r is Some,
{
}

/// Whether `r` is the rate of some listed mode and no listed mode is faster.
pub open spec fn highest_listed_rate(modes: Seq<DisplayMode>, r: u32) -> bool {
    &&& forall|i: int| 0 <= i < modes.len() ==> #[trigger] modes[i].refresh_rate <= r
    &&& exists|i: int| 0 <= i < modes.len() && #[trigger] modes[i].refresh_rate == r
}

/// Pacing for a main display: when some mode runs faster than 60 Hz, the
/// frame timer targets one frame per `1_000_000_000 / (r / 1000)` ns, where
/// `r` is the highest refresh rate (in millihertz) that the display lists,
/// and the time of the last frame is kept; otherwise the timer is unchanged.
pub proof fn lemma_paced_for_main(modes: Seq<DisplayMode>, before: FrameTimerView, after: FrameTimerView)
    requires
        paced_for_main(modes, before, after),
    ensures
        (exists|i: int| 0 <= i < modes.len() && #[trigger] modes[i].refresh_rate > 60_000) ==> exists|r: u32|
            #[trigger] highest_listed_rate(modes, r) && after.target_duration_ns == 1_000_000_000int / ((r / 1000) as int)
                && after.last_frame_ns == before.last_frame_ns,
        !(exists|i: int| 0 <= i < modes.len() && #[trigger] modes[i].refresh_rate > 60_000) ==> after == before,
{
    if exists|i: int| 0 <= i < modes.len() && #[trigger] modes[i].refresh_rate > 60_000 {
        let k = choose|i: int| 0 <= i < modes.len() && #[trigger] modes[i].refresh_rate > 60_000;
        assert(has_promotion_mode(modes));
        let r = choose|r: u32|
            #[trigger] is_max_refresh_rate(modes, r) && after == (FrameTimerView {
                target_duration_ns: frame_duration_ns((r / 1000) as u32) as u64,
                ..before
            });
        assert(modes[k].refresh_rate <= r);
        assert(r / 1000 >= 60);
        assert(highest_listed_rate(modes, r));
    }
}

} // verus!
