use niri_macos::keymap::{macos_button_to_evdev, macos_keycode_to_evdev};

#[test]
fn macos_test_keycode_translation() {
    // Test some common keys
    assert_eq!(macos_keycode_to_evdev(0x00), Some(30)); // A
    assert_eq!(macos_keycode_to_evdev(0x24), Some(28)); // Return
    assert_eq!(macos_keycode_to_evdev(0x35), Some(1)); // Escape
    assert_eq!(macos_keycode_to_evdev(0x31), Some(57)); // Space

    // Unknown keycode
    assert_eq!(macos_keycode_to_evdev(0xFF), None);
}

#[test]
fn macos_test_button_translation() {
    assert_eq!(macos_button_to_evdev(0), 0x110); // Left
    assert_eq!(macos_button_to_evdev(1), 0x111); // Right
    assert_eq!(macos_button_to_evdev(2), 0x112); // Middle
}

#[test]
fn mod_test_keycode_translation() {
    assert_eq!(macos_keycode_to_evdev(0x00), Some(30));
    assert_eq!(macos_keycode_to_evdev(0x24), Some(28));
    assert_eq!(macos_keycode_to_evdev(0x35), Some(1));
    assert_eq!(macos_keycode_to_evdev(0x31), Some(57));
    assert_eq!(macos_keycode_to_evdev(0xFF), None);
}

#[test]
fn mod_test_button_translation() {
    assert_eq!(macos_button_to_evdev(0), 0x110);
    assert_eq!(macos_button_to_evdev(1), 0x111);
    assert_eq!(macos_button_to_evdev(2), 0x112);
}

#[test]
fn extra_buttons_follow_btn_side() {
    // BTN_SIDE, BTN_EXTRA, ...
    assert_eq!(macos_button_to_evdev(3), 0x113);
    assert_eq!(macos_button_to_evdev(4), 0x114);
    assert_eq!(macos_button_to_evdev(10), 0x11A);
    // The largest button number whose code still fits.
    assert_eq!(macos_button_to_evdev(u32::MAX - 0x110), u32::MAX);
}

#[test]
fn keycode_table_edges() {
    // Letters, digits, function keys and arrows.
    assert_eq!(macos_keycode_to_evdev(0x0C), Some(16)); // Q
    assert_eq!(macos_keycode_to_evdev(0x1D), Some(11)); // 0
    assert_eq!(macos_keycode_to_evdev(0x7A), Some(59)); // F1
    assert_eq!(macos_keycode_to_evdev(0x6F), Some(88)); // F12
    assert_eq!(macos_keycode_to_evdev(0x7E), Some(103)); // Up
    assert_eq!(macos_keycode_to_evdev(0x37), Some(125)); // Left Command
    // Slash and period.
    assert_eq!(macos_keycode_to_evdev(0x2C), Some(53));
    assert_eq!(macos_keycode_to_evdev(0x2F), Some(52));
    // Gaps in the table.
    assert_eq!(macos_keycode_to_evdev(0x0A), None);
    assert_eq!(macos_keycode_to_evdev(0x34), None);
    assert_eq!(macos_keycode_to_evdev(0x36), None);
    assert_eq!(macos_keycode_to_evdev(0x7F), None);
    assert_eq!(macos_keycode_to_evdev(u16::MAX), None);
}

#[test]
fn key_codes_stay_below_button_codes() {
    for k in 0..=u16::MAX {
        if let Some(code) = macos_keycode_to_evdev(k) {
            assert!(code >= 1 && code <= 125);
            assert!(code < macos_button_to_evdev(0));
        }
    }
}

#[test]
fn known_keys_get_distinct_codes() {
    let mut seen = std::collections::HashMap::new();
    for k in 0..=u16::MAX {
        if let Some(code) = macos_keycode_to_evdev(k) {
            assert!(seen.insert(code, k).is_none(), "code {} given twice", code);
        }
    }
    assert_eq!(seen.len(), 76);
}
