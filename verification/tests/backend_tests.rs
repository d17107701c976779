use std::time::Duration;

use niri_macos::backend::{IdCounter, MacOS, OutputId, RenderResult};
use niri_macos::display::{DisplayBounds, DisplayMode, MacOSDisplay, ReportedDisplay};
use niri_macos::events::{F32Bits, F64Bits, MacOSInputEvent};
use niri_macos::gesture::GesturePhase;
use niri_macos::input_adapter::ConvertedEvent;
use niri_macos::ipc::Transform;
use niri_macos::modifiers::MacOSModifiers;
use niri_macos::output::OutputMode;
use niri_macos::render::{MetalRenderer, RenderElement, RenderStats};
use niri_macos::signals::{shutdown_signals, ShutdownSignal};
use niri_macos::window::{CocoaWindow, MacOSWindowHandle};

fn bits(v: f64) -> F64Bits {
    F64Bits(v.to_bits())
}

#[test]
fn test_render_element() {
    let element = RenderElement {
        x: bits(0.0),
        y: bits(0.0),
        width: bits(100.0),
        height: bits(100.0),
        opacity: F32Bits(1.0f32.to_bits()),
        texture_id: None,
    };

    assert_eq!(f64::from_bits(element.width.0), 100.0);
    assert_eq!(f32::from_bits(element.opacity.0), 1.0);
}

#[test]
fn test_render_stats() {
    let stats = RenderStats::default();
    assert_eq!(stats.draw_calls, 0);
    assert_eq!(stats.triangles, 0);
}

#[test]
fn test_window_stub() {
    // This test runs on any platform
    let window = CocoaWindow::new("Test", 800, 600).unwrap();
    assert_eq!(window.size(), (800, 600));
    assert!(f64::from_bits(window.scale_factor().0) > 0.0);
}

#[test]
fn window_flags() {
    let mut window = CocoaWindow::new("w", 10, 20).unwrap();
    assert!(window.is_visible());
    assert!(!window.needs_redraw());
    window.request_redraw();
    assert!(window.needs_redraw());
    window.clear_redraw_flag();
    assert!(!window.needs_redraw());
    window.hide_window();
    assert!(!window.is_visible());
    window.show();
    assert!(window.is_visible());
    window.set_title("other");
    assert_eq!(window.size(), (10, 20));
    let handle = MacOSWindowHandle::new("niri", 800, 600);
    assert_eq!(handle.size(), (800, 600));
    assert_eq!(f64::from_bits(handle.scale_factor().0), 2.0);
}

#[test]
fn renderer_state() {
    let mut r = MetalRenderer::new().unwrap();
    assert_eq!(r.frame_count(), 0);
    let ctx = r.begin_frame(()).unwrap();
    r.render_frame(&ctx, &[]);
    r.end_frame(ctx);
    let ctx = r.begin_frame(()).unwrap();
    r.render_frame(&ctx, &[]);
    r.end_frame(ctx);
    assert_eq!(r.frame_count(), 2);
    r.set_vsync(false);
    r.set_target_fps(120);
    r.set_debug_tint(true);
    r.set_clear_color([F32Bits(0), F32Bits(0), F32Bits(0), F32Bits(1.0f32.to_bits())]);
    let s = r.stats();
    assert_eq!((s.draw_calls, s.triangles, s.textures_used), (0, 0, 0));
    assert_eq!(f64::from_bits(s.frame_time_ms.0), 0.0);
}

#[test]
fn output_ids() {
    let mut counter = IdCounter::new();
    let a = OutputId::next(&mut counter);
    let b = OutputId::next(&mut counter);
    assert_eq!(a.get(), 1);
    assert_eq!(b.get(), 2);
    assert_ne!(a, b);
}

#[test]
fn signals_to_handle() {
    assert_eq!(
        shutdown_signals(),
        vec![ShutdownSignal::Interrupt, ShutdownSignal::Terminate, ShutdownSignal::Hangup]
    );
}

fn reported(id: u32, is_main: bool, rates: &[u32]) -> ReportedDisplay {
    ReportedDisplay {
        display: MacOSDisplay {
            display_id: id,
            name: "Main".to_string(),
            physical_size_mm: None,
            resolution: (2560, 1600),
            refresh_rate: 60_000,
            scale_factor: bits(2.0),
            is_main,
        },
        bounds: DisplayBounds { x: bits(0.0), y: bits(0.0), width: bits(2560.0), height: bits(1600.0) },
        is_retina: true,
        modes: rates
            .iter()
            .map(|&r| DisplayMode { width: 2560, height: 1600, refresh_rate: r, bits_per_pixel: 32, is_retina: true })
            .collect(),
    }
}

fn main_display() -> ReportedDisplay {
    reported(7, true, &[60_000])
}

fn ipc_sizes(m: &MacOS) -> ((u16, u16), Option<(u32, u32)>) {
    let (_, out) = m.ipc_output();
    ((out.modes[0].width, out.modes[0].height), out.logical.map(|l| (l.width, l.height)))
}

#[test]
fn backend_lifecycle() {
    let mut ids = IdCounter::new();
    let mut m = MacOS::new(&mut ids);
    assert_eq!(m.window_size(), (1280, 800));
    assert_eq!(m.seat_name(), "macos");
    assert!(m.has_focus());
    assert_eq!(f64::from_bits(m.scale_factor().0), 2.0);
    assert_eq!(ipc_sizes(&m), ((1280, 800), Some((1280, 800))));
    let (id, out) = m.ipc_output();
    assert_eq!(id.get(), 1);
    assert_eq!(out.name, "macos");
    assert_eq!(out.make, "Apple");
    assert_eq!(out.model, "macOS Window");
    assert!(out.serial.is_none() && out.physical_size.is_none());
    assert_eq!(out.modes.len(), 1);
    assert_eq!(out.modes[0].refresh_rate, 60_000);
    assert!(out.modes[0].is_preferred);
    assert_eq!(out.current_mode, Some(0));
    assert!(out.is_custom_mode && !out.vrr_supported && !out.vrr_enabled);
    let logical = out.logical.unwrap();
    assert_eq!((logical.x, logical.y), (0, 0));
    assert_eq!(f64::from_bits(logical.scale.0), 1.0);
    assert_eq!(logical.transform, Transform::Normal);
    // The next backend gets the next output id.
    assert_eq!(MacOS::new(&mut ids).ipc_output().0.get(), 2);
    let output = m.output();
    assert_eq!(output.name(), "macos");
    let (make, model, serial) = output.make_model_serial();
    assert_eq!((make.as_str(), model.as_str(), serial.as_str()), ("Apple", "macOS Window", "niri-macos-001"));
    assert_eq!(output.physical_size_mm(), (0, 0));
    let initial = OutputMode { width: 1280, height: 800, refresh: 60_000 };
    assert_eq!(output.current_mode(), Some(initial));
    assert_eq!(output.preferred_mode(), Some(initial));
    m.init(vec![main_display()]);
    assert_eq!(m.frame_timer().target_duration_ns(), 16_666_666);
    let displays = MacOS::enumerate_displays();
    assert_eq!(displays.len(), 1);
    assert_eq!(displays[0].physical_size_mm, Some((344, 215)));
    assert_eq!(f64::from_bits(displays[0].scale_factor.0), 2.0);

    // Frame pacing at 60 Hz: the first frame is due 1/60 s after time 0.
    assert!(m.render(1_000) == RenderResult::Skipped);
    assert!(m.render(20_000_000) == RenderResult::Submitted);
    assert!(m.render(20_000_000) == RenderResult::Skipped);
    assert!(m.render(30_000_000) == RenderResult::Skipped);
    assert!(m.render(36_666_666) == RenderResult::Submitted);

    m.toggle_debug_tint();
    assert!(m.debug_tint_enabled());
    m.toggle_debug_tint();
    assert!(!m.debug_tint_enabled());

    m.handle_focus_change(false);
    assert!(!m.has_focus());

    m.handle_resize(-5, 70_000);
    assert_eq!(m.window_size(), (-5, 70_000));
    assert_eq!(ipc_sizes(&m), ((0, 4464), Some((u32::MAX - 4, 70_000))));
    m.handle_resize(1920, 1080);
    assert_eq!(ipc_sizes(&m), ((1920, 1080), Some((1920, 1080))));
    assert_eq!(m.output().current_mode(), Some(OutputMode { width: 1920, height: 1080, refresh: 60_000 }));
    assert_eq!(m.output().preferred_mode(), Some(initial));
    assert_eq!(m.ipc_output().1.modes[0].refresh_rate, 60_000);

    m.store_scale_factor(bits(1.0));
    assert_eq!(f64::from_bits(m.scale_factor().0), 1.0);
}

#[test]
fn backend_input_queue() {
    let mut m = MacOS::new(&mut IdCounter::new());
    let mods = MacOSModifiers { shift: true, ctrl: false, alt: false, logo: true, caps_lock: false };
    m.handle_key_event(0x00, true, mods);
    assert!(m.modifiers().shift && m.modifiers().logo);
    m.handle_key_event(0xFF, true, MacOSModifiers::default());
    m.handle_pointer_motion(bits(1.0), bits(2.0));
    m.handle_pointer_button(0, true);
    m.handle_scroll(bits(0.0), bits(1.0), false);
    m.handle_pinch_gesture(bits(1.2), GesturePhase::Begin);
    m.handle_swipe_gesture(bits(1.0), bits(0.0), 3, GesturePhase::Update);
    m.handle_rotate_gesture(bits(0.3), GesturePhase::End);
    let converted = m.process_input_events(Duration::from_millis(5));
    // The unknown key and the rotation give nothing.
    assert_eq!(converted.len(), 6);
    assert!(matches!(converted[0], ConvertedEvent::Keyboard(_)));
    assert!(matches!(converted[1], ConvertedEvent::PointerMotion(_)));
    assert!(matches!(converted[2], ConvertedEvent::PointerButton(_)));
    assert!(matches!(converted[3], ConvertedEvent::PointerAxis(_)));
    assert!(matches!(converted[4], ConvertedEvent::GesturePinch(_)));
    assert!(matches!(converted[5], ConvertedEvent::GestureSwipe(_)));
    assert!(m.drain_input_events().is_empty());

    m.handle_pointer_button(2, false);
    let drained = m.drain_input_events();
    assert_eq!(drained.len(), 1);
    assert!(matches!(drained[0], MacOSInputEvent::PointerButton { button: 2, pressed: false }));

    // Without an input handler, polling changes nothing.
    m.poll_input();
    assert!(m.drain_input_events().is_empty());
    m.init(Vec::new());
    m.poll_input();
    assert!(m.drain_input_events().is_empty());
}

#[test]
fn init_follows_promotion_display() {
    // The main display offers 120 Hz: frames are paced at 120 Hz.
    let mut m = MacOS::new(&mut IdCounter::new());
    m.init(vec![reported(1, false, &[144_000]), reported(2, true, &[60_000, 120_000, 90_000])]);
    assert_eq!(m.frame_timer().target_duration_ns(), 1_000_000_000 / 120);
    // A fast display that is not the main one changes nothing.
    let mut m = MacOS::new(&mut IdCounter::new());
    m.init(vec![reported(1, false, &[144_000]), reported(2, true, &[60_000])]);
    assert_eq!(m.frame_timer().target_duration_ns(), 1_000_000_000 / 60);
    // No main display: nothing changes either.
    let mut m = MacOS::new(&mut IdCounter::new());
    m.init(vec![reported(1, false, &[144_000])]);
    assert_eq!(m.frame_timer().target_duration_ns(), 1_000_000_000 / 60);
    // A rate above 60 Hz that is not a whole number of hertz is rounded down.
    let mut m = MacOS::new(&mut IdCounter::new());
    m.init(vec![reported(2, true, &[119_880])]);
    assert_eq!(m.frame_timer().target_duration_ns(), 1_000_000_000 / 119);
}

#[test]
fn output_ids_do_not_repeat() {
    let mut ids = IdCounter::new();
    let mut seen = std::collections::HashSet::new();
    for _ in 0..1000 {
        let id = MacOS::new(&mut ids).ipc_output().0.get();
        assert!(seen.insert(id));
    }
    assert_eq!(seen.len(), 1000);
}

#[test]
fn queued_events_convertible_check() {
    let mut m = MacOS::new(&mut IdCounter::new());
    assert!(m.queued_events_convertible());
    m.handle_pointer_button(u32::MAX - 0x110, true);
    assert!(m.queued_events_convertible());
    m.handle_pointer_button(u32::MAX - 0x10F, true);
    assert!(!m.queued_events_convertible());
    m.drain_input_events();
    assert!(m.queued_events_convertible());
}

#[test]
fn resize_after_resize_keeps_one_ipc_mode() {
    let mut m = MacOS::new(&mut IdCounter::new());
    m.handle_resize(100, 200);
    m.handle_resize(300, 400);
    let (_, out) = m.ipc_output();
    assert_eq!(out.modes.len(), 1);
    assert_eq!((out.modes[0].width, out.modes[0].height), (300, 400));
}
