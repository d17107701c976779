//! Translation of macOS input events into the events that the compositor's
//! input handling consumes (key codes and button codes in evdev numbering,
//! press/release states, scroll sources), each tagged with a virtual device.

use std::time::Duration;

use vstd::prelude::*;

use crate::events::{F64Bits, MacOSInputEvent};
use crate::gesture::GesturePhase;
use crate::modifiers::MacOSModifiers;
use crate::keymap::{macos_button_to_evdev, macos_keycode_to_evdev, spec_button_to_evdev, spec_keycode_to_evdev, BTN_LEFT};

verus! {

/// A capability that an input device can have.
#[derive(Debug, Clone, Copy, PartialEq, Eq, Structural, Hash)]
pub enum DeviceCapability {
    Keyboard,
    Pointer,
    Touch,
    TabletTool,
    TabletPad,
    Gesture,
    Switch,
}

/// State of a key.
#[derive(Debug, Clone, Copy, PartialEq, Eq, Structural)]
pub enum KeyState {
    Released,
    Pressed,
}

/// State of a pointer button.
#[derive(Debug, Clone, Copy, PartialEq, Eq, Structural)]
pub enum ButtonState {
    Released,
    Pressed,
}

/// Source of a scroll event.
#[derive(Debug, Clone, Copy, PartialEq, Eq, Structural)]
pub enum AxisSource {
    Finger,
    Continuous,
    Wheel,
    WheelTilt,
}

/// The key state of a press (`true`) or a release (`false`).
pub open spec fn key_state_of(pressed: bool) -> KeyState {
    if pressed { KeyState::Pressed } else { KeyState::Released }
}

/// The button state of a press (`true`) or a release (`false`).
pub open spec fn button_state_of(pressed: bool) -> ButtonState {
    if pressed { ButtonState::Pressed } else { ButtonState::Released }
}

/// Virtual macOS input device.
#[derive(Debug, PartialEq, Eq, Hash)]
pub struct MacOSDevice {
    name: String,
    capabilities: Vec<DeviceCapability>,
}

/// What a device is: its name and its capabilities, in order.
pub struct MacOSDeviceView {
    pub name: Seq<char>,
    pub capabilities: Seq<DeviceCapability>,
}

impl View for MacOSDevice {
    type V = MacOSDeviceView;

    closed spec fn view(&self) -> MacOSDeviceView {
        MacOSDeviceView { name: self.name@, capabilities: self.capabilities@ }
    }
}

fn copy_capabilities(v: &Vec<DeviceCapability>) -> (r: Vec<DeviceCapability>)
    ensures
        r@ == v@,
{
    let mut r: Vec<DeviceCapability> = Vec::new();
    let mut i: usize = 0;
    while i < v.len()
        invariant
            i <= v.len(),
            r@ == v@.subrange(0, i as int),
        decreases v.len() - i,
    {
        r.push(v[i]);
        i = i + 1;
    }
    assert(r@ =~= v@);
    r
}

impl MacOSDevice {
    /// The device that stands for all macOS input: keyboard, pointer, touch.
    pub open spec fn all_input_view() -> MacOSDeviceView {
        MacOSDeviceView {
            name: "macOS Input"@,
            capabilities: seq![DeviceCapability::Keyboard, DeviceCapability::Pointer, DeviceCapability::Touch],
        }
    }

    /// The keyboard device.
    pub open spec fn keyboard_view() -> MacOSDeviceView {
        MacOSDeviceView { name: "macOS Keyboard"@, capabilities: seq![DeviceCapability::Keyboard] }
    }

    /// The pointer device (mouse and trackpad).
    pub open spec fn pointer_view() -> MacOSDeviceView {
        MacOSDeviceView { name: "macOS Pointer"@, capabilities: seq![DeviceCapability::Pointer] }
    }

    /// Creates the virtual device that represents all macOS input.
    pub fn new() -> (r: Self)
        ensures
            r@ == Self::all_input_view(),
    {
        let r = Self {
            name: "macOS Input".to_owned(),
            capabilities: vec![DeviceCapability::Keyboard, DeviceCapability::Pointer, DeviceCapability::Touch],
        };
        assert(r.capabilities@ =~= seq![DeviceCapability::Keyboard, DeviceCapability::Pointer, DeviceCapability::Touch]);
        r
    }

    /// Creates a keyboard device.
    pub fn keyboard() -> (r: Self)
        ensures
            r@ == Self::keyboard_view(),
    {
        let r = Self { name: "macOS Keyboard".to_owned(), capabilities: vec![DeviceCapability::Keyboard] };
        assert(r.capabilities@ =~= seq![DeviceCapability::Keyboard]);
        r
    }

    /// Creates a pointer device (mouse/trackpad).
    pub fn pointer() -> (r: Self)
        ensures
            r@ == Self::pointer_view(),
    {
        let r = Self { name: "macOS Pointer".to_owned(), capabilities: vec![DeviceCapability::Pointer] };
        assert(r.capabilities@ =~= seq![DeviceCapability::Pointer]);
        r
    }

    /// The device's identifier, which is its name.
    pub fn id(&self) -> (r: String)
        ensures
            r@ == self@.name,
    {
        self.name.clone()
    }

    /// The device's name.
    pub fn name(&self) -> (r: String)
        ensures
            r@ == self@.name,
    {
        self.name.clone()
    }

    /// Whether the device has the given capability.
    pub fn has_capability(&self, capability: DeviceCapability) -> (r: bool)
        ensures
            r == self@.capabilities.contains(capability),
    {
        let mut i: usize = 0;
        while i < self.capabilities.len()
            invariant
                i <= self.capabilities.len(),
                forall|j: int| 0 <= j < i ==> self.capabilities@[j] != capability,
            decreases self.capabilities.len() - i,
        {
            if self.capabilities[i] == capability {
                assert(self.capabilities@[i as int] == capability);
                return true;
            }
            i = i + 1;
        }
        false
    }

    /// USB vendor and product id: Apple's vendor id with a generic product id.
    pub fn usb_id(&self) -> (r: Option<(u32, u32)>)
        ensures
            r == Some((0x05ACu32, 0x0001u32)),
    {
        Some((0x05AC, 0x0001))
    }
}

impl Clone for MacOSDevice {
    fn clone(&self) -> (r: Self)
        ensures
            r@ == self@,
    {
        MacOSDevice { name: self.name.clone(), capabilities: copy_capabilities(&self.capabilities) }
    }
}

impl Default for MacOSDevice {
    fn default() -> (r: Self)
        ensures
            r@ == Self::all_input_view(),
    {
        Self::new()
    }
}

/// Keyboard event.
pub struct MacOSKeyboardEvent {
    pub keycode: u32,
    pub state: KeyState,
    pub time: Duration,
    pub device: MacOSDevice,
}

impl MacOSKeyboardEvent {
    pub fn time(&self) -> (r: Duration)
        ensures
            r == self.time,
    {
        self.time
    }

    pub fn device(&self) -> (r: MacOSDevice)
        ensures
            r@ == self.device@,
    {
        self.device.clone()
    }

    pub fn key_code(&self) -> (r: u32)
        ensures
            r == self.keycode,
    {
        self.keycode
    }

    pub fn state(&self) -> (r: KeyState)
        ensures
            r == self.state,
    {
        self.state
    }
}

/// Relative pointer motion event.
pub struct MacOSPointerMotionEvent {
    pub dx: F64Bits,
    pub dy: F64Bits,
    pub time: Duration,
    pub device: MacOSDevice,
}

impl MacOSPointerMotionEvent {
    pub fn time(&self) -> (r: Duration)
        ensures
            r == self.time,
    {
        self.time
    }

    pub fn device(&self) -> (r: MacOSDevice)
        ensures
            r@ == self.device@,
    {
        self.device.clone()
    }

    pub fn delta_x(&self) -> (r: F64Bits)
        ensures
            r == self.dx,
    {
        self.dx
    }

    pub fn delta_y(&self) -> (r: F64Bits)
        ensures
            r == self.dy,
    {
        self.dy
    }

    /// The unaccelerated horizontal delta, which is the delta itself.
    pub fn delta_x_unaccel(&self) -> (r: F64Bits)
        ensures
            r == self.dx,
    {
        self.dx
    }

    /// The unaccelerated vertical delta, which is the delta itself.
    pub fn delta_y_unaccel(&self) -> (r: F64Bits)
        ensures
            r == self.dy,
    {
        self.dy
    }
}

/// Pointer button event.
pub struct MacOSPointerButtonEvent {
    pub button: u32,
    pub state: ButtonState,
    pub time: Duration,
    pub device: MacOSDevice,
}

impl MacOSPointerButtonEvent {
    pub fn time(&self) -> (r: Duration)
        ensures
            r == self.time,
    {
        self.time
    }

    pub fn device(&self) -> (r: MacOSDevice)
        ensures
            r@ == self.device@,
    {
        self.device.clone()
    }

    pub fn button_code(&self) -> (r: u32)
        ensures
            r == self.button,
    {
        self.button
    }

    pub fn state(&self) -> (r: ButtonState)
        ensures
            r == self.state,
    {
        self.state
    }
}

/// Scroll event.
pub struct MacOSPointerAxisEvent {
    pub horizontal: F64Bits,
    pub vertical: F64Bits,
    pub is_trackpad: bool,
    pub time: Duration,
    pub device: MacOSDevice,
}

impl MacOSPointerAxisEvent {
    pub fn time(&self) -> (r: Duration)
        ensures
            r == self.time,
    {
        self.time
    }

    pub fn device(&self) -> (r: MacOSDevice)
        ensures
            r@ == self.device@,
    {
        self.device.clone()
    }

    /// Trackpad scrolling is finger scrolling; anything else is a wheel.
    pub fn source(&self) -> (r: AxisSource)
        ensures
            r == (if self.is_trackpad { AxisSource::Finger } else { AxisSource::Wheel }),
    {
        if self.is_trackpad {
            AxisSource::Finger
        } else {
            AxisSource::Wheel
        }
    }
}

/// Pinch gesture event.
pub struct MacOSGesturePinchEvent {
    pub scale: F64Bits,
    pub phase: GesturePhase,
    pub time: Duration,
    pub device: MacOSDevice,
}

impl MacOSGesturePinchEvent {
    pub fn time(&self) -> (r: Duration)
        ensures
            r == self.time,
    {
        self.time
    }

    pub fn device(&self) -> (r: MacOSDevice)
        ensures
            r@ == self.device@,
    {
        self.device.clone()
    }
}

/// Swipe gesture event.
pub struct MacOSGestureSwipeEvent {
    pub dx: F64Bits,
    pub dy: F64Bits,
    pub fingers: u32,
    pub phase: GesturePhase,
    pub time: Duration,
    pub device: MacOSDevice,
}

impl MacOSGestureSwipeEvent {
    pub fn time(&self) -> (r: Duration)
        ensures
            r == self.time,
    {
        self.time
    }

    pub fn device(&self) -> (r: MacOSDevice)
        ensures
            r@ == self.device@,
    {
        self.device.clone()
    }
}

/// A converted event.
pub enum ConvertedEvent {
    Keyboard(MacOSKeyboardEvent),
    PointerMotion(MacOSPointerMotionEvent),
    PointerButton(MacOSPointerButtonEvent),
    PointerAxis(MacOSPointerAxisEvent),
    GesturePinch(MacOSGesturePinchEvent),
    GestureSwipe(MacOSGestureSwipeEvent),
}

/// Whether an event can be converted without overflowing a button code.
pub open spec fn convertible(event: MacOSInputEvent) -> bool {
    event matches MacOSInputEvent::PointerButton { button, .. } ==> button <= u32::MAX - BTN_LEFT
}

/// What `convert_input_event` gives for `event` at `time`: key events with a
/// known key code become keyboard events of the keyboard device with the
/// evdev code; relative motion, buttons (with evdev button codes), scrolls,
/// pinches and swipes become the matching events of the pointer device;
/// absolute motion, rotation and unknown keys give nothing.
pub open spec fn converts_to(event: MacOSInputEvent, time: Duration, r: Option<ConvertedEvent>) -> bool {
    match event {
        MacOSInputEvent::Key { keycode, pressed, .. } => match spec_keycode_to_evdev(keycode) {
            Some(code) => r matches Some(ConvertedEvent::Keyboard(k)) && k.keycode == code && k.state
                == key_state_of(pressed) && k.time == time && k.device@ == MacOSDevice::keyboard_view(),
            None => r is None,
        },
        MacOSInputEvent::PointerMotion { dx, dy } => r matches Some(ConvertedEvent::PointerMotion(m))
            && m.dx == dx && m.dy == dy && m.time == time && m.device@ == MacOSDevice::pointer_view(),
        MacOSInputEvent::PointerMotionAbsolute { .. } => r is None,
        MacOSInputEvent::PointerButton { button, pressed } => r matches Some(ConvertedEvent::PointerButton(b))
            && b.button == spec_button_to_evdev(button) && b.state == button_state_of(pressed) && b.time
            == time && b.device@ == MacOSDevice::pointer_view(),
        MacOSInputEvent::PointerAxis { horizontal, vertical, is_trackpad } => r matches Some(
            ConvertedEvent::PointerAxis(a),
        ) && a.horizontal == horizontal && a.vertical == vertical && a.is_trackpad == is_trackpad && a.time
            == time && a.device@ == MacOSDevice::pointer_view(),
        MacOSInputEvent::GesturePinch { scale, phase } => r matches Some(ConvertedEvent::GesturePinch(p))
            && p.scale == scale && p.phase == phase && p.time == time && p.device@
            == MacOSDevice::pointer_view(),
        MacOSInputEvent::GestureSwipe { dx, dy, fingers, phase } => r matches Some(
            ConvertedEvent::GestureSwipe(s),
        ) && s.dx == dx && s.dy == dy && s.fingers == fingers && s.phase == phase && s.time == time
            && s.device@ == MacOSDevice::pointer_view(),
        MacOSInputEvent::GestureRotate { .. } => r is None,
    }
}

/// Converts a macOS input event into an event for the compositor.
pub fn convert_input_event(event: MacOSInputEvent, time: Duration) -> (r: Option<ConvertedEvent>)
    requires
        convertible(event),
    ensures
        converts_to(event, time, r),
{
    match event {
        MacOSInputEvent::Key { keycode, pressed, modifiers: _ } => {
            let evdev_code = match macos_keycode_to_evdev(keycode) {
                Some(c) => c,
                None => return None,
            };
            Some(
                ConvertedEvent::Keyboard(
                    MacOSKeyboardEvent {
                        keycode: evdev_code,
                        state: if pressed { KeyState::Pressed } else { KeyState::Released },
                        time,
                        device: MacOSDevice::keyboard(),
                    },
                ),
            )
        },
        MacOSInputEvent::PointerMotion { dx, dy } => {
            Some(ConvertedEvent::PointerMotion(MacOSPointerMotionEvent { dx, dy, time, device: MacOSDevice::pointer() }))
        },
        MacOSInputEvent::PointerMotionAbsolute { x: _, y: _ } => None,
        MacOSInputEvent::PointerButton { button, pressed } => {
            let evdev_button = macos_button_to_evdev(button);
            Some(
                ConvertedEvent::PointerButton(
                    MacOSPointerButtonEvent {
                        button: evdev_button,
                        state: if pressed { ButtonState::Pressed } else { ButtonState::Released },
                        time,
                        device: MacOSDevice::pointer(),
                    },
                ),
            )
        },
        MacOSInputEvent::PointerAxis { horizontal, vertical, is_trackpad } => {
            Some(
                ConvertedEvent::PointerAxis(
                    MacOSPointerAxisEvent { horizontal, vertical, is_trackpad, time, device: MacOSDevice::pointer() },
                ),
            )
        },
        MacOSInputEvent::GesturePinch { scale, phase } => {
            Some(ConvertedEvent::GesturePinch(MacOSGesturePinchEvent { scale, phase, time, device: MacOSDevice::pointer() }))
        },
        MacOSInputEvent::GestureSwipe { dx, dy, fingers, phase } => {
            Some(
                ConvertedEvent::GestureSwipe(
                    MacOSGestureSwipeEvent { dx, dy, fingers, phase, time, device: MacOSDevice::pointer() },
                ),
            )
        },
        MacOSInputEvent::GestureRotate { angle: _, phase: _ } => None,
    }
}

/// A key event of a known key converts to a keyboard event of that key's
/// evdev code that is a press exactly when the key was pressed, and a
/// release exactly when it was released, at the event's time.
pub proof fn lemma_key_event_state(
    keycode: u16,
    pressed: bool,
    modifiers: MacOSModifiers,
    time: Duration,
    r: Option<ConvertedEvent>,
)
    requires
        converts_to(MacOSInputEvent::Key { keycode, pressed, modifiers }, time, r),
        spec_keycode_to_evdev(keycode) is Some,
    ensures
        r matches Some(ConvertedEvent::Keyboard(k)) && Some(k.keycode) == spec_keycode_to_evdev(keycode) && k.time
            == time,
        r matches Some(ConvertedEvent::Keyboard(k)) && (pressed ==> k.state == KeyState::Pressed) && (!pressed
            ==> k.state == KeyState::Released),
{
}

/// A button event converts to a pointer button event with code `BTN_LEFT`
/// (0x110) plus the button number, pressed exactly when the button was
/// pressed, at the event's time.
pub proof fn lemma_button_event_state(button: u32, pressed: bool, time: Duration, r: Option<ConvertedEvent>)
    requires
        converts_to(MacOSInputEvent::PointerButton { button, pressed }, time, r),
    ensures
        r matches Some(ConvertedEvent::PointerButton(b)) && b.button == 0x110 + button && b.time == time,
        r matches Some(ConvertedEvent::PointerButton(b)) && (pressed ==> b.state == ButtonState::Pressed) && (
        !pressed ==> b.state == ButtonState::Released),
{
}

} // verus!
