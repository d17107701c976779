//! Modifier key state and its decoding from `NSEvent` modifier flags.

use vstd::prelude::*;

verus! {

/// `NSEvent` modifier flag for Caps Lock.
pub const CAPS_LOCK: u64 = 0x1_0000;
/// `NSEvent` modifier flag for Shift.
pub const SHIFT: u64 = 0x2_0000;
/// `NSEvent` modifier flag for Control.
pub const CONTROL: u64 = 0x4_0000;
/// `NSEvent` modifier flag for Option (Alt).
pub const OPTION: u64 = 0x8_0000;
/// `NSEvent` modifier flag for Command (Logo/Super).
pub const COMMAND: u64 = 0x10_0000;

/// The five modifier flags taken together.
pub const MODIFIER_MASK: u64 = 0x1F_0000;

/// Modifier key state.
#[derive(Debug, Clone, Copy)]
pub struct MacOSModifiers {
    pub shift: bool,
    pub ctrl: bool,
    /// The Option key.
    pub alt: bool,
    /// The Command key.
    pub logo: bool,
    pub caps_lock: bool,
}

impl MacOSModifiers {
    /// The state in which no modifier is held.
    pub open spec fn none() -> MacOSModifiers {
        MacOSModifiers { shift: false, ctrl: false, alt: false, logo: false, caps_lock: false }
    }
}

impl Default for MacOSModifiers {
    /// No modifier held.
    fn default() -> (r: Self)
        ensures
            r == MacOSModifiers::none(),
    {
        MacOSModifiers { shift: false, ctrl: false, alt: false, logo: false, caps_lock: false }
    }
}

/// The modifier state that a set of `NSEvent` modifier flags describes: each
/// modifier is held exactly when its flag bit is set.
pub open spec fn spec_flags_to_modifiers(flags: u64) -> MacOSModifiers {
    MacOSModifiers {
        caps_lock: flags & CAPS_LOCK != 0,
        shift: flags & SHIFT != 0,
        ctrl: flags & CONTROL != 0,
        alt: flags & OPTION != 0,
        logo: flags & COMMAND != 0,
    }
}

/// Converts `NSEvent` modifier flags to a `MacOSModifiers` value.
pub fn modifier_flags_to_modifiers(flags: u64) -> (r: MacOSModifiers)
    ensures
        r == spec_flags_to_modifiers(flags),
{
    MacOSModifiers {
        caps_lock: (flags & CAPS_LOCK) != 0,
        shift: (flags & SHIFT) != 0,
        ctrl: (flags & CONTROL) != 0,
        alt: (flags & OPTION) != 0,
        logo: (flags & COMMAND) != 0,
    }
}

/// Only the five modifier bits count: flags that agree on them decode to the
/// same modifier state, whatever the other bits hold.
pub proof fn lemma_modifiers_ignore_other_bits(flags: u64)
    ensures
        spec_flags_to_modifiers(flags) == spec_flags_to_modifiers(flags & MODIFIER_MASK),
{
    assert(flags & 0x1_0000u64 != 0 <==> (flags & 0x1F_0000u64) & 0x1_0000u64 != 0) by (bit_vector);
    assert(flags & 0x2_0000u64 != 0 <==> (flags & 0x1F_0000u64) & 0x2_0000u64 != 0) by (bit_vector);
    assert(flags & 0x4_0000u64 != 0 <==> (flags & 0x1F_0000u64) & 0x4_0000u64 != 0) by (bit_vector);
    assert(flags & 0x8_0000u64 != 0 <==> (flags & 0x1F_0000u64) & 0x8_0000u64 != 0) by (bit_vector);
    assert(flags & 0x10_0000u64 != 0 <==> (flags & 0x1F_0000u64) & 0x10_0000u64 != 0) by (bit_vector);
}

/// Each modifier flag turns on its own modifier and no other: the flags of a
/// union of modifiers decode to exactly those modifiers.
pub proof fn lemma_modifier_flags_independent(
    shift: bool,
    ctrl: bool,
    alt: bool,
    logo: bool,
    caps_lock: bool,
)
    ensures
        spec_flags_to_modifiers(
            (if shift { SHIFT } else { 0 }) | (if ctrl { CONTROL } else { 0 }) | (if alt { OPTION } else { 0 })
                | (if logo { COMMAND } else { 0 }) | (if caps_lock { CAPS_LOCK } else { 0 }),
        ) == (MacOSModifiers { shift, ctrl, alt, logo, caps_lock }),
{
    let s: u64 = if shift { 0x2_0000 } else { 0 };
    let c: u64 = if ctrl { 0x4_0000 } else { 0 };
    let a: u64 = if alt { 0x8_0000 } else { 0 };
    let l: u64 = if logo { 0x10_0000 } else { 0 };
    let k: u64 = if caps_lock { 0x1_0000 } else { 0 };
    let f: u64 = s | c | a | l | k;
    assert(f & 0x2_0000u64 != 0 <==> s != 0) by (bit_vector)
        requires
            f == s | c | a | l | k,
            s == 0 || s == 0x2_0000u64,
            c == 0 || c == 0x4_0000u64,
            a == 0 || a == 0x8_0000u64,
            l == 0 || l == 0x10_0000u64,
            k == 0 || k == 0x1_0000u64,
    ;
    assert(f & 0x4_0000u64 != 0 <==> c != 0) by (bit_vector)
        requires
            f == s | c | a | l | k,
            s == 0 || s == 0x2_0000u64,
            c == 0 || c == 0x4_0000u64,
            a == 0 || a == 0x8_0000u64,
            l == 0 || l == 0x10_0000u64,
            k == 0 || k == 0x1_0000u64,
    ;
    assert(f & 0x8_0000u64 != 0 <==> a != 0) by (bit_vector)
        requires
            f == s | c | a | l | k,
            s == 0 || s == 0x2_0000u64,
            c == 0 || c == 0x4_0000u64,
            a == 0 || a == 0x8_0000u64,
            l == 0 || l == 0x10_0000u64,
            k == 0 || k == 0x1_0000u64,
    ;
    assert(f & 0x10_0000u64 != 0 <==> l != 0) by (bit_vector)
        requires
            f == s | c | a | l | k,
            s == 0 || s == 0x2_0000u64,
            c == 0 || c == 0x4_0000u64,
            a == 0 || a == 0x8_0000u64,
            l == 0 || l == 0x10_0000u64,
            k == 0 || k == 0x1_0000u64,
    ;
    assert(f & 0x1_0000u64 != 0 <==> k != 0) by (bit_vector)
        requires
            f == s | c | a | l | k,
            s == 0 || s == 0x2_0000u64,
            c == 0 || c == 0x4_0000u64,
            a == 0 || a == 0x8_0000u64,
            l == 0 || l == 0x10_0000u64,
            k == 0 || k == 0x1_0000u64,
    ;
}

/// Each modifier follows its own `NSEvent` flag bit: Caps Lock bit 16,
/// Shift bit 17, Control bit 18, Option bit 19 and Command bit 20.
pub proof fn lemma_modifier_flag_bits(flags: u64)
    ensures
        spec_flags_to_modifiers(flags).caps_lock <==> flags & 0x1_0000 != 0,
        spec_flags_to_modifiers(flags).shift <==> flags & 0x2_0000 != 0,
        spec_flags_to_modifiers(flags).ctrl <==> flags & 0x4_0000 != 0,
        spec_flags_to_modifiers(flags).alt <==> flags & 0x8_0000 != 0,
        spec_flags_to_modifiers(flags).logo <==> flags & 0x10_0000 != 0,
{
}

} // verus!
