//! The input handler: the queue of input events reported by the window, the
//! current modifier state, and the known input devices.

use std::collections::HashMap;

use vstd::prelude::*;
use vstd::std_specs::iter::IteratorSpec;

use crate::events::{F64Bits, MacOSInputEvent};
use crate::gesture::GesturePhase;
use crate::modifiers::{modifier_flags_to_modifiers, spec_flags_to_modifiers, MacOSModifiers};

verus! {

/// Input device types.
#[derive(Debug, Clone, Copy, PartialEq, Eq, Structural)]
pub enum InputDeviceType {
    Keyboard,
    Mouse,
    Trackpad,
    Tablet,
    Gamepad,
    Unknown,
}

/// Input device information.
#[derive(Debug)]
pub struct InputDevice {
    pub id: u64,
    pub name: String,
    pub vendor_id: u32,
    pub product_id: u32,
    pub device_type: InputDeviceType,
}

/// The contents of an `InputDevice`, with the name as a sequence of chars.
pub struct InputDeviceView {
    pub id: u64,
    pub name: Seq<char>,
    pub vendor_id: u32,
    pub product_id: u32,
    pub device_type: InputDeviceType,
}

impl View for InputDevice {
    type V = InputDeviceView;

    open spec fn view(&self) -> InputDeviceView {
        InputDeviceView {
            id: self.id,
            name: self.name@,
            vendor_id: self.vendor_id,
            product_id: self.product_id,
            device_type: self.device_type,
        }
    }
}

impl Clone for InputDevice {
    fn clone(&self) -> (r: Self)
        ensures
            r@ == self@,
    {
        InputDevice {
            id: self.id,
            name: self.name.clone(),
            vendor_id: self.vendor_id,
            product_id: self.product_id,
            device_type: self.device_type,
        }
    }
}

/// The state of an input handler.
pub struct InputHandlerView {
    /// Events reported and not yet drained, oldest first.
    pub queue: Seq<MacOSInputEvent>,
    /// The modifier state of the latest key event.
    pub modifiers: MacOSModifiers,
    /// Connected input devices, by device id.
    pub devices: Map<u64, InputDeviceView>,
    /// Whether the handler listens for events.
    pub active: bool,
}

impl InputHandlerView {
    /// The state after `e` is reported: `e` joins the end of the queue.
    pub open spec fn with_event(self, e: MacOSInputEvent) -> InputHandlerView {
        InputHandlerView { queue: self.queue.push(e), ..self }
    }
}

/// Whether `d` is a device of the table.
pub open spec fn is_known_device(t: Map<u64, InputDeviceView>, d: InputDeviceView) -> bool {
    exists|id: u64| #[trigger] t.contains_key(id) && t[id] == d
}

/// Manages the input devices and the events they report.
pub struct InputHandler {
    event_queue: Vec<MacOSInputEvent>,
    modifiers: MacOSModifiers,
    devices: HashMap<u64, InputDevice>,
    is_active: bool,
}

impl View for InputHandler {
    type V = InputHandlerView;

    closed spec fn view(&self) -> InputHandlerView {
        InputHandlerView {
            queue: self.event_queue@,
            modifiers: self.modifiers,
            devices: self.devices@.map_values(|d: InputDevice| d@),
            active: self.is_active,
        }
    }
}

impl InputHandler {
    /// Creates an input handler: no queued event, no modifier held, no known
    /// device, not listening yet.
    pub fn new() -> (r: Self)
        ensures
            r@.queue == Seq::<MacOSInputEvent>::empty(),
            r@.modifiers == MacOSModifiers::none(),
            r@.devices == Map::<u64, InputDeviceView>::empty(),
            !r@.active,
    {
        let r = InputHandler {
            event_queue: Vec::new(),
            modifiers: MacOSModifiers::default(),
            devices: HashMap::new(),
            is_active: false,
        };
        assert(r@.devices =~= Map::<u64, InputDeviceView>::empty());
        r
    }

    /// Starts listening for input events; starting an active handler changes
    /// nothing.
    pub fn start(&mut self)
        ensures
            final(self)@ == (InputHandlerView { active: true, ..old(self)@ }),
    {
        if self.is_active {
            return;
        }
        self.is_active = true;
    }

    /// Stops listening for input events; stopping an inactive handler changes
    /// nothing.
    pub fn stop(&mut self)
        ensures
            final(self)@ == (InputHandlerView { active: false, ..old(self)@ }),
    {
        if !self.is_active {
            return;
        }
        self.is_active = false;
    }

    /// Whether the handler listens for events.
    pub fn is_active(&self) -> (r: bool)
        ensures
            r == self@.active,
    {
        self.is_active
    }

    /// Takes all queued events, oldest first, leaving the queue empty.
    pub fn drain_events(&mut self) -> (r: Vec<MacOSInputEvent>)
        ensures
            r@ == old(self)@.queue,
            final(self)@ == (InputHandlerView { queue: Seq::empty(), ..old(self)@ }),
    {
        let mut taken: Vec<MacOSInputEvent> = Vec::new();
        std::mem::swap(&mut taken, &mut self.event_queue);
        taken
    }

    /// The current modifier state.
    pub fn modifiers(&self) -> (r: MacOSModifiers)
        ensures
            r == self@.modifiers,
    {
        self.modifiers
    }

    /// The connected devices, each once (in no particular order).
    pub fn devices(&self) -> (r: Vec<InputDevice>)
        ensures
            r.len() == self@.devices.len(),
            forall|i: int| 0 <= i < r.len() ==> is_known_device(self@.devices, #[trigger] r@[i]@),
            forall|id: u64| #[trigger] self@.devices.contains_key(id) ==> exists|i: int| 0 <= i < r.len() && r@[i]@
                == self@.devices[id],
    {
        broadcast use vstd::std_specs::hash::group_hash_axioms;
        let ghost all = vstd::std_specs::hash::spec_values_iter(&self.devices).remaining().unref();
        let mut r: Vec<InputDevice> = Vec::new();
        for d in it: self.devices.values()
            invariant
                all == vstd::std_specs::hash::spec_values_iter(&self.devices).remaining().unref(),
                it.seq().unref() == all,
                r.len() == it.index(),
                forall|i: int| 0 <= i < r.len() ==> (#[trigger] r@[i])@ == all[i]@,
        {
            r.push(d.clone());
        }
        proof {
            assert(all.to_set() == self.devices@.values());
            assert(self@.devices.dom() =~= self.devices@.dom());
            assert forall|i: int| 0 <= i < r.len() implies is_known_device(self@.devices, #[trigger] r@[i]@) by {
                assert(all.to_set().contains(all[i]));
                let id = choose|id: u64| self.devices@.contains_key(id) && self.devices@[id] == all[i];
                assert(self@.devices.contains_key(id) && self@.devices[id] == r@[i]@);
            }
            assert forall|id: u64| #[trigger] self@.devices.contains_key(id) implies exists|i: int| 0 <= i < r.len()
                && r@[i]@ == self@.devices[id] by {
                assert(self.devices@.values().contains(self.devices@[id]));
                assert(all.to_set().contains(self.devices@[id]));
                let i = choose|i: int| 0 <= i < all.len() && all[i] == self.devices@[id];
                assert(r@[i]@ == self@.devices[id]);
            }
        }
        r
    }

    /// Records a key event: the modifier state becomes the one that the
    /// `NSEvent` modifier flags describe, and the key event (with that state)
    /// joins the queue.
    pub fn process_key_event(&mut self, keycode: u16, pressed: bool, modifier_flags: u64)
        ensures
            final(self)@ == (InputHandlerView {
                modifiers: spec_flags_to_modifiers(modifier_flags),
                ..old(self)@.with_event(
                    MacOSInputEvent::Key { keycode, pressed, modifiers: spec_flags_to_modifiers(modifier_flags) },
                )
            }),
    {
        let modifiers = modifier_flags_to_modifiers(modifier_flags);
        self.modifiers = modifiers;
        self.event_queue.push(MacOSInputEvent::Key { keycode, pressed, modifiers });
    }

    /// Records relative pointer motion.
    pub fn process_mouse_move(&mut self, dx: F64Bits, dy: F64Bits)
        ensures
            final(self)@ == old(self)@.with_event(MacOSInputEvent::PointerMotion { dx, dy }),
    {
        self.event_queue.push(MacOSInputEvent::PointerMotion { dx, dy });
    }

    /// Records an absolute pointer position.
    pub fn process_mouse_move_absolute(&mut self, x: F64Bits, y: F64Bits)
        ensures
            final(self)@ == old(self)@.with_event(MacOSInputEvent::PointerMotionAbsolute { x, y }),
    {
        self.event_queue.push(MacOSInputEvent::PointerMotionAbsolute { x, y });
    }

    /// Records a mouse button press or release.
    pub fn process_mouse_button(&mut self, button: u32, pressed: bool)
        ensures
            final(self)@ == old(self)@.with_event(MacOSInputEvent::PointerButton { button, pressed }),
    {
        self.event_queue.push(MacOSInputEvent::PointerButton { button, pressed });
    }

    /// Records a scroll.
    pub fn process_scroll(&mut self, dx: F64Bits, dy: F64Bits, is_trackpad: bool)
        ensures
            final(self)@ == old(self)@.with_event(
                MacOSInputEvent::PointerAxis { horizontal: dx, vertical: dy, is_trackpad },
            ),
    {
        self.event_queue.push(MacOSInputEvent::PointerAxis { horizontal: dx, vertical: dy, is_trackpad });
    }

    /// Records a pinch gesture.
    pub fn process_pinch(&mut self, scale: F64Bits, phase: GesturePhase)
        ensures
            final(self)@ == old(self)@.with_event(MacOSInputEvent::GesturePinch { scale, phase }),
    {
        self.event_queue.push(MacOSInputEvent::GesturePinch { scale, phase });
    }

    /// Records a swipe gesture.
    pub fn process_swipe(&mut self, dx: F64Bits, dy: F64Bits, fingers: u32, phase: GesturePhase)
        ensures
            final(self)@ == old(self)@.with_event(MacOSInputEvent::GestureSwipe { dx, dy, fingers, phase }),
    {
        self.event_queue.push(MacOSInputEvent::GestureSwipe { dx, dy, fingers, phase });
    }

    /// Records a rotation gesture.
    pub fn process_rotation(&mut self, angle: F64Bits, phase: GesturePhase)
        ensures
            final(self)@ == old(self)@.with_event(MacOSInputEvent::GestureRotate { angle, phase }),
    {
        self.event_queue.push(MacOSInputEvent::GestureRotate { angle, phase });
    }
}

impl Default for InputHandler {
    fn default() -> (r: Self)
        ensures
            r@.queue == Seq::<MacOSInputEvent>::empty(),
            r@.modifiers == MacOSModifiers::none(),
            r@.devices == Map::<u64, InputDeviceView>::empty(),
            !r@.active,
    {
        Self::new()
    }
}

/// The queue is first in, first out: events reported one after another are
/// drained in the order they were reported, after those already queued.
pub proof fn lemma_events_drain_in_order(v: InputHandlerView, e1: MacOSInputEvent, e2: MacOSInputEvent)
    ensures
        v.with_event(e1).with_event(e2).queue == v.queue + seq![e1, e2],
{
    assert(v.with_event(e1).with_event(e2).queue =~= v.queue + seq![e1, e2]);
}

} // verus!
