//! The description of the backend's output that is reported to IPC clients.

use vstd::prelude::*;

use crate::events::F64Bits;

verus! {

/// A mode as reported over IPC.
#[derive(Debug, Clone, Copy)]
pub struct IpcMode {
    pub width: u16,
    pub height: u16,
    /// Refresh rate in millihertz.
    pub refresh_rate: u32,
    pub is_preferred: bool,
}

/// Output transform.
#[derive(Debug, Clone, Copy, PartialEq, Eq, Structural)]
pub enum Transform {
    Normal,
    Rotate90,
    Rotate180,
    Rotate270,
    Flipped,
    Flipped90,
    Flipped180,
    Flipped270,
}

/// Logical position, size, scale and transform of an output.
#[derive(Debug, Clone, Copy)]
pub struct LogicalOutput {
    pub x: i32,
    pub y: i32,
    pub width: u32,
    pub height: u32,
    pub scale: F64Bits,
    pub transform: Transform,
}

/// An output as reported over IPC.
#[derive(Debug)]
pub struct IpcOutput {
    pub name: String,
    pub make: String,
    pub model: String,
    pub serial: Option<String>,
    /// Physical size in millimeters, where known.
    pub physical_size: Option<(u32, u32)>,
    pub modes: Vec<IpcMode>,
    /// Index of the current mode in `modes`.
    pub current_mode: Option<usize>,
    pub is_custom_mode: bool,
    pub vrr_supported: bool,
    pub vrr_enabled: bool,
    pub logical: Option<LogicalOutput>,
}

/// The contents of an `IpcOutput`, with strings as sequences of chars.
pub struct IpcOutputView {
    pub name: Seq<char>,
    pub make: Seq<char>,
    pub model: Seq<char>,
    pub serial: Option<Seq<char>>,
    pub physical_size: Option<(u32, u32)>,
    pub modes: Seq<IpcMode>,
    pub current_mode: Option<usize>,
    pub is_custom_mode: bool,
    pub vrr_supported: bool,
    pub vrr_enabled: bool,
    pub logical: Option<LogicalOutput>,
}

impl View for IpcOutput {
    type V = IpcOutputView;

    open spec fn view(&self) -> IpcOutputView {
        IpcOutputView {
            name: self.name@,
            make: self.make@,
            model: self.model@,
            serial: match self.serial {
                Some(s) => Some(s@),
                None => None,
            },
            physical_size: self.physical_size,
            modes: self.modes@,
            current_mode: self.current_mode,
            is_custom_mode: self.is_custom_mode,
            vrr_supported: self.vrr_supported,
            vrr_enabled: self.vrr_enabled,
            logical: self.logical,
        }
    }
}

fn copy_modes(v: &Vec<IpcMode>) -> (r: Vec<IpcMode>)
    ensures
        r@ == v@,
{
    let mut r: Vec<IpcMode> = Vec::new();
    let mut i: usize = 0;
    while i < v.len()
        invariant
            i <= v.len(),
            r@ == v@.subrange(0, i as int),
        decreases v.len() - i,
    {
        r.push(v[i]);
        i = i + 1;
    }
    assert(r@ =~= v@);
    r
}

impl Clone for IpcOutput {
    fn clone(&self) -> (r: Self)
        ensures
            r@ == self@,
    {
        IpcOutput {
            name: self.name.clone(),
            make: self.make.clone(),
            model: self.model.clone(),
            serial: match &self.serial {
                Some(s) => Some(s.clone()),
                None => None,
            },
            physical_size: self.physical_size,
            modes: copy_modes(&self.modes),
            current_mode: self.current_mode,
            is_custom_mode: self.is_custom_mode,
            vrr_supported: self.vrr_supported,
            vrr_enabled: self.vrr_enabled,
            logical: self.logical,
        }
    }
}

/// The IPC mode size for a window dimension: negative sizes count as zero,
/// and the value is cut to 16 bits.
pub open spec fn ipc_dimension(d: i32) -> u16 {
    (if d > 0 { d } else { 0i32 }) as u16
}

/// Bit pattern of the `f64` value 1.0.
pub const F64_ONE_BITS: u64 = 0x3FF0_0000_0000_0000;

impl IpcOutput {
    /// The output of the backend's window as first reported: named "macos",
    /// made by "Apple", model "macOS Window", no serial and no physical
    /// size; one preferred mode of the window's size at 60 Hz, which is the
    /// current mode, marked custom; no VRR; logically at the origin with the
    /// window's size, scale 1 and no transform.
    pub open spec fn window_view(width: u16, height: u16) -> IpcOutputView {
        IpcOutputView {
            name: "macos"@,
            make: "Apple"@,
            model: "macOS Window"@,
            serial: None,
            physical_size: None,
            modes: seq![IpcMode { width, height, refresh_rate: 60_000, is_preferred: true }],
            current_mode: Some(0usize),
            is_custom_mode: true,
            vrr_supported: false,
            vrr_enabled: false,
            logical: Some(LogicalOutput {
                x: 0,
                y: 0,
                width: width as u32,
                height: height as u32,
                scale: F64Bits(F64_ONE_BITS),
                transform: Transform::Normal,
            }),
        }
    }

    /// The output of the backend's window as first reported (see
    /// `window_view`).
    pub fn for_window(width: u16, height: u16) -> (r: IpcOutput)
        ensures
            r@ == Self::window_view(width, height),
    {
        let r = IpcOutput {
            name: "macos".to_owned(),
            make: "Apple".to_owned(),
            model: "macOS Window".to_owned(),
            serial: None,
            physical_size: None,
            modes: vec![IpcMode { width, height, refresh_rate: 60_000, is_preferred: true }],
            current_mode: Some(0),
            is_custom_mode: true,
            vrr_supported: false,
            vrr_enabled: false,
            logical: Some(LogicalOutput {
                x: 0,
                y: 0,
                width: width as u32,
                height: height as u32,
                scale: F64Bits(F64_ONE_BITS),
                transform: Transform::Normal,
            }),
        };
        assert(r@.modes =~= seq![IpcMode { width, height, refresh_rate: 60_000, is_preferred: true }]);
        assert(r@ == Self::window_view(width, height));
        r
    }

    /// Follows a resize of the window to `width` x `height`: the first mode
    /// takes the size (negative sizes count as zero, cut to 16 bits), and the
    /// logical size, where there is one, takes it too (cast to `u32`).
    pub fn resize(&mut self, width: i32, height: i32)
        requires
            old(self).modes.len() > 0,
        ensures
            final(self)@ == (IpcOutputView {
                modes: old(self)@.modes.update(
                    0,
                    IpcMode { width: ipc_dimension(width), height: ipc_dimension(height), ..old(self)@.modes[0] },
                ),
                logical: match old(self)@.logical {
                    Some(l) => Some(LogicalOutput { width: width as u32, height: height as u32, ..l }),
                    None => None,
                },
                ..old(self)@
            }),
    {
        let w: i32 = if width > 0 { width } else { 0 };
        let h: i32 = if height > 0 { height } else { 0 };
        let mut mode = self.modes[0];
        mode.width = w as u16;
        mode.height = h as u16;
        self.modes.set(0, mode);
        match self.logical {
            Some(l) => {
                self.logical = Some(LogicalOutput { width: width as u32, height: height as u32, ..l });
            },
            None => {},
        }
    }
}

/// A window dimension shows over IPC as itself when it fits in 16 bits, and
/// as 0 when it is negative.
pub proof fn lemma_ipc_dimension(d: i32)
    ensures
        d <= 0 ==> ipc_dimension(d) == 0,
        0 <= d <= 0xFFFF ==> ipc_dimension(d) == d,
{
}

} // verus!
