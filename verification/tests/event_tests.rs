use std::time::Duration;

use niri_macos::event_source::MacOSEventSource;
use niri_macos::events::{F64Bits, MacOSInputEvent, TimestampedEvent};
use niri_macos::gesture::GesturePhase;
use niri_macos::input_adapter::{
    convert_input_event, AxisSource, ButtonState, ConvertedEvent, DeviceCapability, KeyState, MacOSDevice,
};
use niri_macos::modifiers::MacOSModifiers;

fn bits(v: f64) -> F64Bits {
    F64Bits(v.to_bits())
}

#[test]
fn test_event_source_creation() {
    let mut source = MacOSEventSource::new(3, 4);
    assert_eq!(source.pending(), 0);
    assert!(source.drain_events().is_empty());
    assert_eq!((source.read_pipe(), source.write_pipe()), (3, 4));
}

#[test]
fn event_loop_test_event_queuing() {
    let mut source = MacOSEventSource::new(3, 4);

    source.queue_event(MacOSInputEvent::PointerMotion { dx: bits(1.0), dy: bits(2.0) });

    let events = source.drain_events();
    assert_eq!(events.len(), 1);

    // Queue should be empty after draining
    assert!(source.drain_events().is_empty());
}

#[test]
fn event_source_batches() {
    let mut source = MacOSEventSource::new(3, 4);
    assert!(source.process_events().is_none());
    source.queue_event(MacOSInputEvent::PointerButton { button: 0, pressed: true });
    source.queue_events(vec![
        MacOSInputEvent::PointerButton { button: 1, pressed: true },
        MacOSInputEvent::PointerButton { button: 2, pressed: false },
    ]);
    assert_eq!(source.pending(), 3);
    let batch = source.process_events().unwrap();
    let buttons: Vec<u32> = batch
        .iter()
        .map(|e| match e {
            MacOSInputEvent::PointerButton { button, .. } => *button,
            _ => panic!("unexpected event"),
        })
        .collect();
    assert_eq!(buttons, vec![0, 1, 2]);
    assert!(source.process_events().is_none());
}

#[test]
fn test_device_creation() {
    let device = MacOSDevice::new();
    assert!(device.has_capability(DeviceCapability::Keyboard));
    assert!(device.has_capability(DeviceCapability::Pointer));
}

#[test]
fn test_keyboard_device() {
    let device = MacOSDevice::keyboard();
    assert!(device.has_capability(DeviceCapability::Keyboard));
    assert!(!device.has_capability(DeviceCapability::Pointer));
}

#[test]
fn device_details() {
    let device = MacOSDevice::default();
    assert_eq!(device.name(), "macOS Input");
    assert_eq!(device.id(), "macOS Input");
    assert!(device.has_capability(DeviceCapability::Touch));
    assert!(!device.has_capability(DeviceCapability::Gesture));
    assert_eq!(device.usb_id(), Some((0x05AC, 0x0001)));
    let pointer = MacOSDevice::pointer();
    assert_eq!(pointer.name(), "macOS Pointer");
    assert!(pointer.has_capability(DeviceCapability::Pointer));
    assert!(!pointer.has_capability(DeviceCapability::Keyboard));
    assert_eq!(pointer.clone().name(), "macOS Pointer");
}

#[test]
fn test_event_conversion_key() {
    let event = MacOSInputEvent::Key {
        keycode: 0x00, // A
        pressed: true,
        modifiers: MacOSModifiers::default(),
    };

    let converted = convert_input_event(event, Duration::ZERO);
    assert!(matches!(converted, Some(ConvertedEvent::Keyboard(_))));
}

#[test]
fn test_event_conversion_motion() {
    let event = MacOSInputEvent::PointerMotion { dx: bits(10.0), dy: bits(20.0) };

    let converted = convert_input_event(event, Duration::ZERO);
    assert!(matches!(converted, Some(ConvertedEvent::PointerMotion(_))));
}

#[test]
fn test_event_conversion_button() {
    let event = MacOSInputEvent::PointerButton { button: 0, pressed: true };

    let converted = convert_input_event(event, Duration::ZERO);
    if let Some(ConvertedEvent::PointerButton(e)) = converted {
        assert_eq!(e.button, 0x110); // BTN_LEFT
        assert_eq!(e.state, ButtonState::Pressed);
    } else {
        panic!("Expected PointerButton event");
    }
}

#[test]
fn conversion_details() {
    let t = Duration::from_millis(1234);
    match convert_input_event(
        MacOSInputEvent::Key { keycode: 0x31, pressed: false, modifiers: MacOSModifiers::default() },
        t,
    ) {
        Some(ConvertedEvent::Keyboard(k)) => {
            assert_eq!(k.key_code(), 57);
            assert_eq!(k.state(), KeyState::Released);
            assert_eq!(k.time(), t);
            assert_eq!(k.device().name(), "macOS Keyboard");
        }
        _ => panic!("expected a keyboard event"),
    }
    // Unknown keys, absolute motion and rotation give nothing.
    assert!(convert_input_event(
        MacOSInputEvent::Key { keycode: 0xFF, pressed: true, modifiers: MacOSModifiers::default() },
        t
    )
    .is_none());
    assert!(convert_input_event(MacOSInputEvent::PointerMotionAbsolute { x: bits(1.0), y: bits(2.0) }, t).is_none());
    assert!(convert_input_event(MacOSInputEvent::GestureRotate { angle: bits(0.5), phase: GesturePhase::Begin }, t)
        .is_none());
    match convert_input_event(MacOSInputEvent::PointerAxis { horizontal: bits(0.0), vertical: bits(3.0), is_trackpad: true }, t) {
        Some(ConvertedEvent::PointerAxis(a)) => {
            assert_eq!(a.source(), AxisSource::Finger);
            assert_eq!(f64::from_bits(a.vertical.0), 3.0);
            assert_eq!(a.device().name(), "macOS Pointer");
        }
        _ => panic!("expected an axis event"),
    }
    match convert_input_event(MacOSInputEvent::PointerAxis { horizontal: bits(1.0), vertical: bits(0.0), is_trackpad: false }, t) {
        Some(ConvertedEvent::PointerAxis(a)) => assert_eq!(a.source(), AxisSource::Wheel),
        _ => panic!("expected an axis event"),
    }
    match convert_input_event(MacOSInputEvent::PointerButton { button: 4, pressed: false }, t) {
        Some(ConvertedEvent::PointerButton(b)) => {
            assert_eq!(b.button_code(), 0x114);
            assert_eq!(b.state(), ButtonState::Released);
        }
        _ => panic!("expected a button event"),
    }
    match convert_input_event(MacOSInputEvent::GesturePinch { scale: bits(1.5), phase: GesturePhase::Update }, t) {
        Some(ConvertedEvent::GesturePinch(p)) => {
            assert_eq!(f64::from_bits(p.scale.0), 1.5);
            assert_eq!(p.phase, GesturePhase::Update);
        }
        _ => panic!("expected a pinch event"),
    }
    match convert_input_event(
        MacOSInputEvent::GestureSwipe { dx: bits(2.0), dy: bits(-2.0), fingers: 3, phase: GesturePhase::End },
        t,
    ) {
        Some(ConvertedEvent::GestureSwipe(s)) => {
            assert_eq!(s.fingers, 3);
            assert_eq!(s.phase, GesturePhase::End);
            assert_eq!(s.time(), t);
        }
        _ => panic!("expected a swipe event"),
    }
    match convert_input_event(MacOSInputEvent::PointerMotion { dx: bits(-1.0), dy: bits(0.5) }, t) {
        Some(ConvertedEvent::PointerMotion(m)) => {
            assert_eq!(f64::from_bits(m.delta_x().0), -1.0);
            assert_eq!(f64::from_bits(m.delta_y_unaccel().0), 0.5);
        }
        _ => panic!("expected a motion event"),
    }
}

#[test]
fn timestamped_event() {
    let e = TimestampedEvent::new(7u32, Duration::from_secs(3));
    assert_eq!(e.event, 7);
    assert_eq!(e.time, Duration::from_secs(3));
}
