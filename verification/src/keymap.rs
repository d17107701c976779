//! Translation of macOS virtual key codes and mouse button numbers to the
//! Linux evdev codes that Wayland clients expect.

use vstd::prelude::*;

verus! {

/// The evdev key code of a macOS virtual key code, for the keys that the
/// translation table knows.
pub open spec fn spec_keycode_to_evdev(k: u16) -> Option<u32> {
    if k == 0x00 { Some(30u32) }
    else if k == 0x01 { Some(31u32) }
    else if k == 0x02 { Some(32u32) }
    else if k == 0x03 { Some(33u32) }
    else if k == 0x04 { Some(35u32) }
    else if k == 0x05 { Some(34u32) }
    else if k == 0x06 { Some(44u32) }
    else if k == 0x07 { Some(45u32) }
    else if k == 0x08 { Some(46u32) }
    else if k == 0x09 { Some(47u32) }
    else if k == 0x0B { Some(48u32) }
    else if k == 0x0C { Some(16u32) }
    else if k == 0x0D { Some(17u32) }
    else if k == 0x0E { Some(18u32) }
    else if k == 0x0F { Some(19u32) }
    else if k == 0x10 { Some(21u32) }
    else if k == 0x11 { Some(20u32) }
    else if k == 0x12 { Some(2u32) }
    else if k == 0x13 { Some(3u32) }
    else if k == 0x14 { Some(4u32) }
    else if k == 0x15 { Some(5u32) }
    else if k == 0x16 { Some(7u32) }
    else if k == 0x17 { Some(6u32) }
    else if k == 0x18 { Some(13u32) }
    else if k == 0x19 { Some(10u32) }
    else if k == 0x1A { Some(8u32) }
    else if k == 0x1B { Some(12u32) }
    else if k == 0x1C { Some(9u32) }
    else if k == 0x1D { Some(11u32) }
    else if k == 0x1E { Some(27u32) }
    else if k == 0x1F { Some(24u32) }
    else if k == 0x20 { Some(22u32) }
    else if k == 0x21 { Some(26u32) }
    else if k == 0x22 { Some(23u32) }
    else if k == 0x23 { Some(25u32) }
    else if k == 0x24 { Some(28u32) }
    else if k == 0x25 { Some(38u32) }
    else if k == 0x26 { Some(36u32) }
    else if k == 0x27 { Some(40u32) }
    else if k == 0x28 { Some(37u32) }
    else if k == 0x29 { Some(39u32) }
    else if k == 0x2A { Some(43u32) }
    else if k == 0x2B { Some(51u32) }
    else if k == 0x2C { Some(53u32) }
    else if k == 0x2D { Some(49u32) }
    else if k == 0x2E { Some(50u32) }
    else if k == 0x2F { Some(52u32) }
    else if k == 0x30 { Some(15u32) }
    else if k == 0x31 { Some(57u32) }
    else if k == 0x32 { Some(41u32) }
    else if k == 0x33 { Some(14u32) }
    else if k == 0x35 { Some(1u32) }
    else if k == 0x37 { Some(125u32) }
    else if k == 0x38 { Some(42u32) }
    else if k == 0x39 { Some(58u32) }
    else if k == 0x3A { Some(56u32) }
    else if k == 0x3B { Some(29u32) }
    else if k == 0x3C { Some(54u32) }
    else if k == 0x3D { Some(100u32) }
    else if k == 0x3E { Some(97u32) }
    else if k == 0x7A { Some(59u32) }
    else if k == 0x78 { Some(60u32) }
    else if k == 0x63 { Some(61u32) }
    else if k == 0x76 { Some(62u32) }
    else if k == 0x60 { Some(63u32) }
    else if k == 0x61 { Some(64u32) }
    else if k == 0x62 { Some(65u32) }
    else if k == 0x64 { Some(66u32) }
    else if k == 0x65 { Some(67u32) }
    else if k == 0x6D { Some(68u32) }
    else if k == 0x67 { Some(87u32) }
    else if k == 0x6F { Some(88u32) }
    else if k == 0x7B { Some(105u32) }
    else if k == 0x7C { Some(106u32) }
    else if k == 0x7D { Some(108u32) }
    else if k == 0x7E { Some(103u32) }
    else { None }
}

/// Translates a macOS virtual key code to a Linux evdev key code, or `None`
/// for a key code that the table does not know.
pub fn macos_keycode_to_evdev(macos_keycode: u16) -> (r: Option<u32>)
    ensures
        r == spec_keycode_to_evdev(macos_keycode),
{
    let code: u32 = match macos_keycode {
        0x00 => 30,
        0x01 => 31,
        0x02 => 32,
        0x03 => 33,
        0x04 => 35,
        0x05 => 34,
        0x06 => 44,
        0x07 => 45,
        0x08 => 46,
        0x09 => 47,
        0x0B => 48,
        0x0C => 16,
        0x0D => 17,
        0x0E => 18,
        0x0F => 19,
        0x10 => 21,
        0x11 => 20,
        0x12 => 2,
        0x13 => 3,
        0x14 => 4,
        0x15 => 5,
        0x16 => 7,
        0x17 => 6,
        0x18 => 13,
        0x19 => 10,
        0x1A => 8,
        0x1B => 12,
        0x1C => 9,
        0x1D => 11,
        0x1E => 27,
        0x1F => 24,
        0x20 => 22,
        0x21 => 26,
        0x22 => 23,
        0x23 => 25,
        0x24 => 28,
        0x25 => 38,
        0x26 => 36,
        0x27 => 40,
        0x28 => 37,
        0x29 => 39,
        0x2A => 43,
        0x2B => 51,
        0x2C => 53,
        0x2D => 49,
        0x2E => 50,
        0x2F => 52,
        0x30 => 15,
        0x31 => 57,
        0x32 => 41,
        0x33 => 14,
        0x35 => 1,
        0x37 => 125,
        0x38 => 42,
        0x39 => 58,
        0x3A => 56,
        0x3B => 29,
        0x3C => 54,
        0x3D => 100,
        0x3E => 97,
        0x7A => 59,
        0x78 => 60,
        0x63 => 61,
        0x76 => 62,
        0x60 => 63,
        0x61 => 64,
        0x62 => 65,
        0x64 => 66,
        0x65 => 67,
        0x6D => 68,
        0x67 => 87,
        0x6F => 88,
        0x7B => 105,
        0x7C => 106,
        0x7D => 108,
        0x7E => 103,
        _ => return None,
    };
    Some(code)
}

/// macOS virtual key codes (`kVK_*` of the Carbon `Events.h` header), by
/// key label.
pub const KVK_ANSI_A: u16 = 0x00;
pub const KVK_ANSI_S: u16 = 0x01;
pub const KVK_ANSI_D: u16 = 0x02;
pub const KVK_ANSI_F: u16 = 0x03;
pub const KVK_ANSI_H: u16 = 0x04;
pub const KVK_ANSI_G: u16 = 0x05;
pub const KVK_ANSI_Z: u16 = 0x06;
pub const KVK_ANSI_X: u16 = 0x07;
pub const KVK_ANSI_C: u16 = 0x08;
pub const KVK_ANSI_V: u16 = 0x09;
pub const KVK_ANSI_B: u16 = 0x0B;
pub const KVK_ANSI_Q: u16 = 0x0C;
pub const KVK_ANSI_W: u16 = 0x0D;
pub const KVK_ANSI_E: u16 = 0x0E;
pub const KVK_ANSI_R: u16 = 0x0F;
pub const KVK_ANSI_Y: u16 = 0x10;
pub const KVK_ANSI_T: u16 = 0x11;
pub const KVK_ANSI_1: u16 = 0x12;
pub const KVK_ANSI_2: u16 = 0x13;
pub const KVK_ANSI_3: u16 = 0x14;
pub const KVK_ANSI_4: u16 = 0x15;
pub const KVK_ANSI_6: u16 = 0x16;
pub const KVK_ANSI_5: u16 = 0x17;
pub const KVK_ANSI_EQUAL: u16 = 0x18;
pub const KVK_ANSI_9: u16 = 0x19;
pub const KVK_ANSI_7: u16 = 0x1A;
pub const KVK_ANSI_MINUS: u16 = 0x1B;
pub const KVK_ANSI_8: u16 = 0x1C;
pub const KVK_ANSI_0: u16 = 0x1D;
pub const KVK_ANSI_RIGHT_BRACKET: u16 = 0x1E;
pub const KVK_ANSI_O: u16 = 0x1F;
pub const KVK_ANSI_U: u16 = 0x20;
pub const KVK_ANSI_LEFT_BRACKET: u16 = 0x21;
pub const KVK_ANSI_I: u16 = 0x22;
pub const KVK_ANSI_P: u16 = 0x23;
pub const KVK_RETURN: u16 = 0x24;
pub const KVK_ANSI_L: u16 = 0x25;
pub const KVK_ANSI_J: u16 = 0x26;
pub const KVK_ANSI_QUOTE: u16 = 0x27;
pub const KVK_ANSI_K: u16 = 0x28;
pub const KVK_ANSI_SEMICOLON: u16 = 0x29;
pub const KVK_ANSI_BACKSLASH: u16 = 0x2A;
pub const KVK_ANSI_COMMA: u16 = 0x2B;
pub const KVK_ANSI_SLASH: u16 = 0x2C;
pub const KVK_ANSI_N: u16 = 0x2D;
pub const KVK_ANSI_M: u16 = 0x2E;
pub const KVK_ANSI_PERIOD: u16 = 0x2F;
pub const KVK_TAB: u16 = 0x30;
pub const KVK_SPACE: u16 = 0x31;
pub const KVK_ANSI_GRAVE: u16 = 0x32;
pub const KVK_DELETE: u16 = 0x33;
pub const KVK_ESCAPE: u16 = 0x35;
pub const KVK_COMMAND: u16 = 0x37;
pub const KVK_SHIFT: u16 = 0x38;
pub const KVK_CAPS_LOCK: u16 = 0x39;
pub const KVK_OPTION: u16 = 0x3A;
pub const KVK_CONTROL: u16 = 0x3B;
pub const KVK_RIGHT_SHIFT: u16 = 0x3C;
pub const KVK_RIGHT_OPTION: u16 = 0x3D;
pub const KVK_RIGHT_CONTROL: u16 = 0x3E;
pub const KVK_F1: u16 = 0x7A;
pub const KVK_F2: u16 = 0x78;
pub const KVK_F3: u16 = 0x63;
pub const KVK_F4: u16 = 0x76;
pub const KVK_F5: u16 = 0x60;
pub const KVK_F6: u16 = 0x61;
pub const KVK_F7: u16 = 0x62;
pub const KVK_F8: u16 = 0x64;
pub const KVK_F9: u16 = 0x65;
pub const KVK_F10: u16 = 0x6D;
pub const KVK_F11: u16 = 0x67;
pub const KVK_F12: u16 = 0x6F;
pub const KVK_LEFT_ARROW: u16 = 0x7B;
pub const KVK_RIGHT_ARROW: u16 = 0x7C;
pub const KVK_DOWN_ARROW: u16 = 0x7D;
pub const KVK_UP_ARROW: u16 = 0x7E;

/// Linux evdev key codes (`KEY_*` of `input-event-codes.h`), by key label.
pub const KEY_ESC: u32 = 1;
pub const KEY_1: u32 = 2;
pub const KEY_2: u32 = 3;
pub const KEY_3: u32 = 4;
pub const KEY_4: u32 = 5;
pub const KEY_5: u32 = 6;
pub const KEY_6: u32 = 7;
pub const KEY_7: u32 = 8;
pub const KEY_8: u32 = 9;
pub const KEY_9: u32 = 10;
pub const KEY_0: u32 = 11;
pub const KEY_MINUS: u32 = 12;
pub const KEY_EQUAL: u32 = 13;
pub const KEY_BACKSPACE: u32 = 14;
pub const KEY_TAB: u32 = 15;
pub const KEY_Q: u32 = 16;
pub const KEY_W: u32 = 17;
pub const KEY_E: u32 = 18;
pub const KEY_R: u32 = 19;
pub const KEY_T: u32 = 20;
pub const KEY_Y: u32 = 21;
pub const KEY_U: u32 = 22;
pub const KEY_I: u32 = 23;
pub const KEY_O: u32 = 24;
pub const KEY_P: u32 = 25;
pub const KEY_LEFTBRACE: u32 = 26;
pub const KEY_RIGHTBRACE: u32 = 27;
pub const KEY_ENTER: u32 = 28;
pub const KEY_LEFTCTRL: u32 = 29;
pub const KEY_A: u32 = 30;
pub const KEY_S: u32 = 31;
pub const KEY_D: u32 = 32;
pub const KEY_F: u32 = 33;
pub const KEY_G: u32 = 34;
pub const KEY_H: u32 = 35;
pub const KEY_J: u32 = 36;
pub const KEY_K: u32 = 37;
pub const KEY_L: u32 = 38;
pub const KEY_SEMICOLON: u32 = 39;
pub const KEY_APOSTROPHE: u32 = 40;
pub const KEY_GRAVE: u32 = 41;
pub const KEY_LEFTSHIFT: u32 = 42;
pub const KEY_BACKSLASH: u32 = 43;
pub const KEY_Z: u32 = 44;
pub const KEY_X: u32 = 45;
pub const KEY_C: u32 = 46;
pub const KEY_V: u32 = 47;
pub const KEY_B: u32 = 48;
pub const KEY_N: u32 = 49;
pub const KEY_M: u32 = 50;
pub const KEY_COMMA: u32 = 51;
pub const KEY_DOT: u32 = 52;
pub const KEY_SLASH: u32 = 53;
pub const KEY_RIGHTSHIFT: u32 = 54;
pub const KEY_LEFTALT: u32 = 56;
pub const KEY_SPACE: u32 = 57;
pub const KEY_CAPSLOCK: u32 = 58;
pub const KEY_F1: u32 = 59;
pub const KEY_F2: u32 = 60;
pub const KEY_F3: u32 = 61;
pub const KEY_F4: u32 = 62;
pub const KEY_F5: u32 = 63;
pub const KEY_F6: u32 = 64;
pub const KEY_F7: u32 = 65;
pub const KEY_F8: u32 = 66;
pub const KEY_F9: u32 = 67;
pub const KEY_F10: u32 = 68;
pub const KEY_F11: u32 = 87;
pub const KEY_F12: u32 = 88;
pub const KEY_RIGHTCTRL: u32 = 97;
pub const KEY_RIGHTALT: u32 = 100;
pub const KEY_UP: u32 = 103;
pub const KEY_LEFT: u32 = 105;
pub const KEY_RIGHT: u32 = 106;
pub const KEY_DOWN: u32 = 108;
pub const KEY_LEFTMETA: u32 = 125;

/// Each macOS key that the table knows translates to the evdev code of the
/// key with the same label.
pub proof fn lemma_keycode_table_by_label()
    ensures
        spec_keycode_to_evdev(KVK_ANSI_A) == Some(KEY_A),
        spec_keycode_to_evdev(KVK_ANSI_S) == Some(KEY_S),
        spec_keycode_to_evdev(KVK_ANSI_D) == Some(KEY_D),
        spec_keycode_to_evdev(KVK_ANSI_F) == Some(KEY_F),
        spec_keycode_to_evdev(KVK_ANSI_H) == Some(KEY_H),
        spec_keycode_to_evdev(KVK_ANSI_G) == Some(KEY_G),
        spec_keycode_to_evdev(KVK_ANSI_Z) == Some(KEY_Z),
        spec_keycode_to_evdev(KVK_ANSI_X) == Some(KEY_X),
        spec_keycode_to_evdev(KVK_ANSI_C) == Some(KEY_C),
        spec_keycode_to_evdev(KVK_ANSI_V) == Some(KEY_V),
        spec_keycode_to_evdev(KVK_ANSI_B) == Some(KEY_B),
        spec_keycode_to_evdev(KVK_ANSI_Q) == Some(KEY_Q),
        spec_keycode_to_evdev(KVK_ANSI_W) == Some(KEY_W),
        spec_keycode_to_evdev(KVK_ANSI_E) == Some(KEY_E),
        spec_keycode_to_evdev(KVK_ANSI_R) == Some(KEY_R),
        spec_keycode_to_evdev(KVK_ANSI_Y) == Some(KEY_Y),
        spec_keycode_to_evdev(KVK_ANSI_T) == Some(KEY_T),
        spec_keycode_to_evdev(KVK_ANSI_1) == Some(KEY_1),
        spec_keycode_to_evdev(KVK_ANSI_2) == Some(KEY_2),
        spec_keycode_to_evdev(KVK_ANSI_3) == Some(KEY_3),
        spec_keycode_to_evdev(KVK_ANSI_4) == Some(KEY_4),
        spec_keycode_to_evdev(KVK_ANSI_6) == Some(KEY_6),
        spec_keycode_to_evdev(KVK_ANSI_5) == Some(KEY_5),
        spec_keycode_to_evdev(KVK_ANSI_EQUAL) == Some(KEY_EQUAL),
        spec_keycode_to_evdev(KVK_ANSI_9) == Some(KEY_9),
        spec_keycode_to_evdev(KVK_ANSI_7) == Some(KEY_7),
        spec_keycode_to_evdev(KVK_ANSI_MINUS) == Some(KEY_MINUS),
        spec_keycode_to_evdev(KVK_ANSI_8) == Some(KEY_8),
        spec_keycode_to_evdev(KVK_ANSI_0) == Some(KEY_0),
        spec_keycode_to_evdev(KVK_ANSI_RIGHT_BRACKET) == Some(KEY_RIGHTBRACE),
        spec_keycode_to_evdev(KVK_ANSI_O) == Some(KEY_O),
        spec_keycode_to_evdev(KVK_ANSI_U) == Some(KEY_U),
        spec_keycode_to_evdev(KVK_ANSI_LEFT_BRACKET) == Some(KEY_LEFTBRACE),
        spec_keycode_to_evdev(KVK_ANSI_I) == Some(KEY_I),
        spec_keycode_to_evdev(KVK_ANSI_P) == Some(KEY_P),
        spec_keycode_to_evdev(KVK_RETURN) == Some(KEY_ENTER),
        spec_keycode_to_evdev(KVK_ANSI_L) == Some(KEY_L),
        spec_keycode_to_evdev(KVK_ANSI_J) == Some(KEY_J),
        spec_keycode_to_evdev(KVK_ANSI_QUOTE) == Some(KEY_APOSTROPHE),
        spec_keycode_to_evdev(KVK_ANSI_K) == Some(KEY_K),
        spec_keycode_to_evdev(KVK_ANSI_SEMICOLON) == Some(KEY_SEMICOLON),
        spec_keycode_to_evdev(KVK_ANSI_BACKSLASH) == Some(KEY_BACKSLASH),
        spec_keycode_to_evdev(KVK_ANSI_COMMA) == Some(KEY_COMMA),
        spec_keycode_to_evdev(KVK_ANSI_SLASH) == Some(KEY_SLASH),
        spec_keycode_to_evdev(KVK_ANSI_N) == Some(KEY_N),
        spec_keycode_to_evdev(KVK_ANSI_M) == Some(KEY_M),
        spec_keycode_to_evdev(KVK_ANSI_PERIOD) == Some(KEY_DOT),
        spec_keycode_to_evdev(KVK_TAB) == Some(KEY_TAB),
        spec_keycode_to_evdev(KVK_SPACE) == Some(KEY_SPACE),
        spec_keycode_to_evdev(KVK_ANSI_GRAVE) == Some(KEY_GRAVE),
        spec_keycode_to_evdev(KVK_DELETE) == Some(KEY_BACKSPACE),
        spec_keycode_to_evdev(KVK_ESCAPE) == Some(KEY_ESC),
        spec_keycode_to_evdev(KVK_COMMAND) == Some(KEY_LEFTMETA),
        spec_keycode_to_evdev(KVK_SHIFT) == Some(KEY_LEFTSHIFT),
        spec_keycode_to_evdev(KVK_CAPS_LOCK) == Some(KEY_CAPSLOCK),
        spec_keycode_to_evdev(KVK_OPTION) == Some(KEY_LEFTALT),
        spec_keycode_to_evdev(KVK_CONTROL) == Some(KEY_LEFTCTRL),
        spec_keycode_to_evdev(KVK_RIGHT_SHIFT) == Some(KEY_RIGHTSHIFT),
        spec_keycode_to_evdev(KVK_RIGHT_OPTION) == Some(KEY_RIGHTALT),
        spec_keycode_to_evdev(KVK_RIGHT_CONTROL) == Some(KEY_RIGHTCTRL),
        spec_keycode_to_evdev(KVK_F1) == Some(KEY_F1),
        spec_keycode_to_evdev(KVK_F2) == Some(KEY_F2),
        spec_keycode_to_evdev(KVK_F3) == Some(KEY_F3),
        spec_keycode_to_evdev(KVK_F4) == Some(KEY_F4),
        spec_keycode_to_evdev(KVK_F5) == Some(KEY_F5),
        spec_keycode_to_evdev(KVK_F6) == Some(KEY_F6),
        spec_keycode_to_evdev(KVK_F7) == Some(KEY_F7),
        spec_keycode_to_evdev(KVK_F8) == Some(KEY_F8),
        spec_keycode_to_evdev(KVK_F9) == Some(KEY_F9),
        spec_keycode_to_evdev(KVK_F10) == Some(KEY_F10),
        spec_keycode_to_evdev(KVK_F11) == Some(KEY_F11),
        spec_keycode_to_evdev(KVK_F12) == Some(KEY_F12),
        spec_keycode_to_evdev(KVK_LEFT_ARROW) == Some(KEY_LEFT),
        spec_keycode_to_evdev(KVK_RIGHT_ARROW) == Some(KEY_RIGHT),
        spec_keycode_to_evdev(KVK_DOWN_ARROW) == Some(KEY_DOWN),
        spec_keycode_to_evdev(KVK_UP_ARROW) == Some(KEY_UP),
{
}

/// The keys that the table knows are exactly the labelled keys above: any
/// other macOS key code translates to nothing.
pub proof fn lemma_keycode_table_known_keys(k: u16)
    ensures
        spec_keycode_to_evdev(k) is Some <==> (
            k == KVK_ANSI_A ||
            k == KVK_ANSI_S ||
            k == KVK_ANSI_D ||
            k == KVK_ANSI_F ||
            k == KVK_ANSI_H ||
            k == KVK_ANSI_G ||
            k == KVK_ANSI_Z ||
            k == KVK_ANSI_X ||
            k == KVK_ANSI_C ||
            k == KVK_ANSI_V ||
            k == KVK_ANSI_B ||
            k == KVK_ANSI_Q ||
            k == KVK_ANSI_W ||
            k == KVK_ANSI_E ||
            k == KVK_ANSI_R ||
            k == KVK_ANSI_Y ||
            k == KVK_ANSI_T ||
            k == KVK_ANSI_1 ||
            k == KVK_ANSI_2 ||
            k == KVK_ANSI_3 ||
            k == KVK_ANSI_4 ||
            k == KVK_ANSI_6 ||
            k == KVK_ANSI_5 ||
            k == KVK_ANSI_EQUAL ||
            k == KVK_ANSI_9 ||
            k == KVK_ANSI_7 ||
            k == KVK_ANSI_MINUS ||
            k == KVK_ANSI_8 ||
            k == KVK_ANSI_0 ||
            k == KVK_ANSI_RIGHT_BRACKET ||
            k == KVK_ANSI_O ||
            k == KVK_ANSI_U ||
            k == KVK_ANSI_LEFT_BRACKET ||
            k == KVK_ANSI_I ||
            k == KVK_ANSI_P ||
            k == KVK_RETURN ||
            k == KVK_ANSI_L ||
            k == KVK_ANSI_J ||
            k == KVK_ANSI_QUOTE ||
            k == KVK_ANSI_K ||
            k == KVK_ANSI_SEMICOLON ||
            k == KVK_ANSI_BACKSLASH ||
            k == KVK_ANSI_COMMA ||
            k == KVK_ANSI_SLASH ||
            k == KVK_ANSI_N ||
            k == KVK_ANSI_M ||
            k == KVK_ANSI_PERIOD ||
            k == KVK_TAB ||
            k == KVK_SPACE ||
            k == KVK_ANSI_GRAVE ||
            k == KVK_DELETE ||
            k == KVK_ESCAPE ||
            k == KVK_COMMAND ||
            k == KVK_SHIFT ||
            k == KVK_CAPS_LOCK ||
            k == KVK_OPTION ||
            k == KVK_CONTROL ||
            k == KVK_RIGHT_SHIFT ||
            k == KVK_RIGHT_OPTION ||
            k == KVK_RIGHT_CONTROL ||
            k == KVK_F1 ||
            k == KVK_F2 ||
            k == KVK_F3 ||
            k == KVK_F4 ||
            k == KVK_F5 ||
            k == KVK_F6 ||
            k == KVK_F7 ||
            k == KVK_F8 ||
            k == KVK_F9 ||
            k == KVK_F10 ||
            k == KVK_F11 ||
            k == KVK_F12 ||
            k == KVK_LEFT_ARROW ||
            k == KVK_RIGHT_ARROW ||
            k == KVK_DOWN_ARROW ||
            k == KVK_UP_ARROW
        ),
{
}

/// Base of the evdev button codes (`BTN_LEFT`).
pub const BTN_LEFT: u32 = 0x110;

/// The evdev button code of a macOS mouse button number: left (0), right (1)
/// and middle (2) map to `BTN_LEFT`, `BTN_RIGHT` and `BTN_MIDDLE`, and every
/// further button `n` to `BTN_SIDE + (n - 3)`.
pub open spec fn spec_button_to_evdev(b: u32) -> int {
    if b == 0 {
        0x110
    } else if b == 1 {
        0x111
    } else if b == 2 {
        0x112
    } else {
        0x113 + (b - 3)
    }
}

/// Translates a macOS mouse button number to a Linux evdev button code.
///
/// The code of button `n` is `0x110 + n`; a button number so large that the
/// code would not fit in a `u32` is refused by `requires`.
pub fn macos_button_to_evdev(macos_button: u32) -> (r: u32)
    requires
        macos_button <= u32::MAX - BTN_LEFT,
    ensures
        r == spec_button_to_evdev(macos_button),
{
    match macos_button {
        0 => 0x110,
        1 => 0x111,
        2 => 0x112,
        n => 0x113 + (n - 3),
    }
}

/// Every button code is `BTN_LEFT` plus the button number, so distinct
/// buttons get distinct codes and the order of button numbers is kept.
pub proof fn lemma_button_codes_ordered(a: u32, b: u32)
    ensures
        spec_button_to_evdev(a) == BTN_LEFT + a,
        a < b ==> spec_button_to_evdev(a) < spec_button_to_evdev(b),
        a != b ==> spec_button_to_evdev(a) != spec_button_to_evdev(b),
{
}

/// Distinct macOS keys that the table knows translate to distinct evdev
/// keys.
pub proof fn lemma_keycode_translation_injective(a: u16, b: u16)
    requires
        a != b,
        spec_keycode_to_evdev(a) is Some,
        spec_keycode_to_evdev(b) is Some,
    ensures
        spec_keycode_to_evdev(a) != spec_keycode_to_evdev(b),
{
}

/// A translated key code is a key code (between 1 and 125), never one of the
/// button codes, which start at `BTN_LEFT`.
pub proof fn lemma_key_codes_below_buttons(k: u16, b: u32)
    ensures
        spec_keycode_to_evdev(k) matches Some(code) ==> 1 <= code <= 125,
        spec_keycode_to_evdev(k) matches Some(code) ==> code < spec_button_to_evdev(b),
{
}

} // verus!
