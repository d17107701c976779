//! The compositor output that shows the backend's window: its name, the
//! physical properties it announces, and its current and preferred modes.

use vstd::prelude::*;

verus! {

/// A mode of the compositor output: size in physical pixels and refresh
/// rate in millihertz.
#[derive(Debug, Clone, Copy, PartialEq, Eq, Structural)]
pub struct OutputMode {
    pub width: i32,
    pub height: i32,
    pub refresh: i32,
}

/// The compositor output of the backend's window.
#[derive(Debug)]
pub struct CompositorOutput {
    name: String,
    make: String,
    model: String,
    serial_number: String,
    physical_size_mm: (i32, i32),
    current_mode: Option<OutputMode>,
    preferred_mode: Option<OutputMode>,
}

/// The state of a compositor output, with strings as sequences of chars.
pub struct CompositorOutputView {
    pub name: Seq<char>,
    pub make: Seq<char>,
    pub model: Seq<char>,
    pub serial_number: Seq<char>,
    pub physical_size_mm: (i32, i32),
    pub current_mode: Option<OutputMode>,
    pub preferred_mode: Option<OutputMode>,
}

impl View for CompositorOutput {
    type V = CompositorOutputView;

    closed spec fn view(&self) -> CompositorOutputView {
        CompositorOutputView {
            name: self.name@,
            make: self.make@,
            model: self.model@,
            serial_number: self.serial_number@,
            physical_size_mm: self.physical_size_mm,
            current_mode: self.current_mode,
            preferred_mode: self.preferred_mode,
        }
    }
}

/// Refresh rate of the window's output: 60 Hz, in millihertz.
pub const WINDOW_REFRESH: i32 = 60_000;

impl CompositorOutput {
    /// The output of a window of the given size: named "macos", made by
    /// "Apple", model "macOS Window", serial "niri-macos-001", no physical
    /// size; its current and preferred mode is the window's size at 60 Hz.
    pub open spec fn window_view(width: i32, height: i32) -> CompositorOutputView {
        CompositorOutputView {
            name: "macos"@,
            make: "Apple"@,
            model: "macOS Window"@,
            serial_number: "niri-macos-001"@,
            physical_size_mm: (0, 0),
            current_mode: Some(OutputMode { width, height, refresh: WINDOW_REFRESH }),
            preferred_mode: Some(OutputMode { width, height, refresh: WINDOW_REFRESH }),
        }
    }

    /// Creates the output of a window of the given size (see `window_view`).
    pub fn for_window(width: i32, height: i32) -> (r: CompositorOutput)
        ensures
            r@ == Self::window_view(width, height),
    {
        let mode = OutputMode { width, height, refresh: WINDOW_REFRESH };
        CompositorOutput {
            name: "macos".to_owned(),
            make: "Apple".to_owned(),
            model: "macOS Window".to_owned(),
            serial_number: "niri-macos-001".to_owned(),
            physical_size_mm: (0, 0),
            current_mode: Some(mode),
            preferred_mode: Some(mode),
        }
    }

    /// Makes `mode` the current mode; everything else is kept.
    pub fn change_current_mode(&mut self, mode: OutputMode)
        ensures
            final(self)@ == (CompositorOutputView { current_mode: Some(mode), ..old(self)@ }),
    {
        self.current_mode = Some(mode);
    }

    /// The output's name.
    pub fn name(&self) -> (r: String)
        ensures
            r@ == self@.name,
    {
        self.name.clone()
    }

    /// The make, model and serial number.
    pub fn make_model_serial(&self) -> (r: (String, String, String))
        ensures
            r.0@ == self@.make,
            r.1@ == self@.model,
            r.2@ == self@.serial_number,
    {
        (self.make.clone(), self.model.clone(), self.serial_number.clone())
    }

    /// The physical size in millimeters ((0, 0) when unknown).
    pub fn physical_size_mm(&self) -> (r: (i32, i32))
        ensures
            r == self@.physical_size_mm,
    {
        self.physical_size_mm
    }

    /// The current mode.
    pub fn current_mode(&self) -> (r: Option<OutputMode>)
        ensures
            r == self@.current_mode,
    {
        self.current_mode
    }

    /// The preferred mode.
    pub fn preferred_mode(&self) -> (r: Option<OutputMode>)
        ensures
            r == self@.preferred_mode,
    {
        self.preferred_mode
    }
}

} // verus!
