//! Trackpad gesture phases.

use vstd::prelude::*;
use vstd::std_specs::convert::FromSpecImpl;

verus! {

/// Phase of a trackpad gesture.
#[derive(Debug, Clone, Copy, PartialEq, Eq, Structural)]
pub enum GesturePhase {
    Begin,
    Update,
    End,
    Cancelled,
}

/// The gesture phase of an `NSEventPhase` value: none (0) and began (1)
/// begin a gesture, stationary (2) and changed (4) update it, ended (8) ends
/// it, cancelled (16) cancels it, and any other value counts as an update.
pub open spec fn spec_phase_from_raw(phase: i32) -> GesturePhase {
    if phase == 0 || phase == 1 {
        GesturePhase::Begin
    } else if phase == 8 {
        GesturePhase::End
    } else if phase == 16 {
        GesturePhase::Cancelled
    } else {
        GesturePhase::Update
    }
}

impl From<i32> for GesturePhase {
    fn from(phase: i32) -> (r: Self) {
        match phase {
            0 => GesturePhase::Begin,
            1 => GesturePhase::Begin,
            2 => GesturePhase::Update,
            4 => GesturePhase::Update,
            8 => GesturePhase::End,
            16 => GesturePhase::Cancelled,
            _ => GesturePhase::Update,
        }
    }
}

impl FromSpecImpl<i32> for GesturePhase {
    open spec fn obeys_from_spec() -> bool {
        true
    }

    open spec fn from_spec(v: i32) -> GesturePhase {
        spec_phase_from_raw(v)
    }
}

/// `NSEventPhaseNone`.
pub const NS_EVENT_PHASE_NONE: i32 = 0;
/// `NSEventPhaseBegan`.
pub const NS_EVENT_PHASE_BEGAN: i32 = 1;
/// `NSEventPhaseStationary`.
pub const NS_EVENT_PHASE_STATIONARY: i32 = 2;
/// `NSEventPhaseChanged`.
pub const NS_EVENT_PHASE_CHANGED: i32 = 4;
/// `NSEventPhaseEnded`.
pub const NS_EVENT_PHASE_ENDED: i32 = 8;
/// `NSEventPhaseCancelled`.
pub const NS_EVENT_PHASE_CANCELLED: i32 = 16;

/// A gesture begins with no phase or the began phase, updates while
/// stationary or changed, ends with the ended phase and is cancelled with the
/// cancelled phase; any other phase value counts as an update.
pub proof fn lemma_gesture_phase_by_event_phase(phase: i32)
    ensures
        spec_phase_from_raw(NS_EVENT_PHASE_NONE) == GesturePhase::Begin,
        spec_phase_from_raw(NS_EVENT_PHASE_BEGAN) == GesturePhase::Begin,
        spec_phase_from_raw(NS_EVENT_PHASE_STATIONARY) == GesturePhase::Update,
        spec_phase_from_raw(NS_EVENT_PHASE_CHANGED) == GesturePhase::Update,
        spec_phase_from_raw(NS_EVENT_PHASE_ENDED) == GesturePhase::End,
        spec_phase_from_raw(NS_EVENT_PHASE_CANCELLED) == GesturePhase::Cancelled,
        phase != NS_EVENT_PHASE_NONE && phase != NS_EVENT_PHASE_BEGAN && phase != NS_EVENT_PHASE_ENDED && phase
            != NS_EVENT_PHASE_CANCELLED ==> spec_phase_from_raw(phase) == GesturePhase::Update,
{
}

} // verus!
