//! Input events as the macOS side reports them.
//!
//! Coordinates, deltas, scales and angles are floating-point values on the
//! macOS side. The library carries them through unchanged as the IEEE-754
//! bit patterns of those values ([`F64Bits`]), and never computes with them.

use std::time::Duration;

use vstd::prelude::*;

use crate::gesture::GesturePhase;
use crate::modifiers::MacOSModifiers;

verus! {

/// The IEEE-754 bit pattern of an `f64` value (as `f64::to_bits` gives it).
#[derive(Debug, Clone, Copy, PartialEq, Eq, Structural)]
pub struct F64Bits(pub u64);

/// The IEEE-754 bit pattern of an `f32` value (as `f32::to_bits` gives it).
#[derive(Debug, Clone, Copy, PartialEq, Eq, Structural)]
pub struct F32Bits(pub u32);

/// Bit pattern of the `f64` value 2.0.
pub const F64_TWO_BITS: u64 = 0x4000_0000_0000_0000;

/// Input event types from macOS.
#[derive(Debug, Clone, Copy)]
pub enum MacOSInputEvent {
    /// Keyboard key press or release.
    Key { keycode: u16, pressed: bool, modifiers: MacOSModifiers },
    /// Relative mouse or trackpad movement.
    PointerMotion { dx: F64Bits, dy: F64Bits },
    /// Absolute pointer position.
    PointerMotionAbsolute { x: F64Bits, y: F64Bits },
    /// Mouse button press or release.
    PointerButton { button: u32, pressed: bool },
    /// Scroll wheel or trackpad scroll.
    PointerAxis {
        horizontal: F64Bits,
        vertical: F64Bits,
        /// Whether the scroll comes from a trackpad (smooth scrolling).
        is_trackpad: bool,
    },
    /// Trackpad pinch gesture (zoom).
    GesturePinch { scale: F64Bits, phase: GesturePhase },
    /// Trackpad swipe gesture.
    GestureSwipe { dx: F64Bits, dy: F64Bits, fingers: u32, phase: GesturePhase },
    /// Trackpad rotation gesture.
    GestureRotate { angle: F64Bits, phase: GesturePhase },
}

/// An event together with the time at which it happened.
pub struct TimestampedEvent<E> {
    pub event: E,
    pub time: Duration,
}

impl<E> TimestampedEvent<E> {
    /// Pairs an event with its time.
    pub fn new(event: E, time: Duration) -> (r: Self)
        ensures
            r.event == event,
            r.time == time,
    {
        Self { event, time }
    }
}

} // verus!
