use niri_macos::events::{F64Bits, MacOSInputEvent};
use niri_macos::gesture::GesturePhase;
use niri_macos::input::{InputDeviceType, InputHandler};
use niri_macos::modifiers::{
    modifier_flags_to_modifiers, MacOSModifiers, CAPS_LOCK, COMMAND, CONTROL, MODIFIER_MASK, OPTION, SHIFT,
};

fn bits(v: f64) -> F64Bits {
    F64Bits(v.to_bits())
}

#[test]
fn test_gesture_phase_equality() {
    assert_eq!(GesturePhase::Begin, GesturePhase::Begin);
    assert_ne!(GesturePhase::Begin, GesturePhase::End);
}

#[test]
fn test_modifiers_default() {
    let mods = MacOSModifiers::default();
    assert!(!mods.shift);
    assert!(!mods.ctrl);
    assert!(!mods.alt);
    assert!(!mods.logo);
    assert!(!mods.caps_lock);
}

#[test]
fn test_modifier_conversion() {
    let flags = SHIFT | COMMAND;
    let mods = modifier_flags_to_modifiers(flags);

    assert!(mods.shift);
    assert!(mods.logo);
    assert!(!mods.ctrl);
    assert!(!mods.alt);
    assert!(!mods.caps_lock);
}

#[test]
fn modifier_flags_each_bit() {
    let m = modifier_flags_to_modifiers(CAPS_LOCK);
    assert!(m.caps_lock && !m.shift && !m.ctrl && !m.alt && !m.logo);
    let m = modifier_flags_to_modifiers(CONTROL | OPTION);
    assert!(!m.caps_lock && !m.shift && m.ctrl && m.alt && !m.logo);
    let m = modifier_flags_to_modifiers(MODIFIER_MASK);
    assert!(m.caps_lock && m.shift && m.ctrl && m.alt && m.logo);
    // Bits outside the modifier flags do not count.
    let m = modifier_flags_to_modifiers(!MODIFIER_MASK);
    assert!(!m.caps_lock && !m.shift && !m.ctrl && !m.alt && !m.logo);
    let a = modifier_flags_to_modifiers(0xDEAD_BEEF_1234_5678);
    let b = modifier_flags_to_modifiers(0xDEAD_BEEF_1234_5678 & MODIFIER_MASK);
    assert_eq!((a.shift, a.ctrl, a.alt, a.logo, a.caps_lock), (b.shift, b.ctrl, b.alt, b.logo, b.caps_lock));
}

#[test]
fn gesture_phase_from_raw() {
    assert_eq!(GesturePhase::from(0), GesturePhase::Begin);
    assert_eq!(GesturePhase::from(1), GesturePhase::Begin);
    assert_eq!(GesturePhase::from(2), GesturePhase::Update);
    assert_eq!(GesturePhase::from(4), GesturePhase::Update);
    assert_eq!(GesturePhase::from(8), GesturePhase::End);
    assert_eq!(GesturePhase::from(16), GesturePhase::Cancelled);
    assert_eq!(GesturePhase::from(3), GesturePhase::Update);
    assert_eq!(GesturePhase::from(-1), GesturePhase::Update);
}

#[test]
fn test_input_handler_creation() {
    let handler = InputHandler::new();
    assert!(!handler.is_active());
    assert!(handler.devices().is_empty());
}

#[test]
fn input_test_event_queuing() {
    let mut handler = InputHandler::new();

    handler.process_key_event(0x00, true, SHIFT);
    handler.process_mouse_move(bits(10.0), bits(20.0));

    let events = handler.drain_events();
    assert_eq!(events.len(), 2);
}

#[test]
fn input_handler_keeps_order_and_modifiers() {
    let mut handler = InputHandler::default();
    handler.start();
    assert!(handler.is_active());
    handler.start();
    assert!(handler.is_active());
    handler.process_key_event(0x24, true, CONTROL);
    assert!(handler.modifiers().ctrl);
    handler.process_mouse_button(1, false);
    handler.process_scroll(bits(0.5), bits(-1.5), true);
    handler.process_pinch(bits(1.1), GesturePhase::Update);
    handler.process_swipe(bits(3.0), bits(4.0), 3, GesturePhase::End);
    handler.process_rotation(bits(0.25), GesturePhase::Begin);
    handler.process_mouse_move_absolute(bits(100.0), bits(200.0));
    let events = handler.drain_events();
    assert_eq!(events.len(), 7);
    match events[0] {
        MacOSInputEvent::Key { keycode, pressed, modifiers } => {
            assert_eq!(keycode, 0x24);
            assert!(pressed);
            assert!(modifiers.ctrl && !modifiers.shift);
        }
        _ => panic!("first event should be the key"),
    }
    match events[2] {
        MacOSInputEvent::PointerAxis { horizontal, vertical, is_trackpad } => {
            assert_eq!(f64::from_bits(horizontal.0), 0.5);
            assert_eq!(f64::from_bits(vertical.0), -1.5);
            assert!(is_trackpad);
        }
        _ => panic!("third event should be the scroll"),
    }
    assert!(matches!(events[6], MacOSInputEvent::PointerMotionAbsolute { .. }));
    // Draining again gives nothing.
    assert!(handler.drain_events().is_empty());
    handler.stop();
    assert!(!handler.is_active());
    handler.stop();
    assert!(!handler.is_active());
    assert_ne!(InputDeviceType::Keyboard, InputDeviceType::Mouse);
}
