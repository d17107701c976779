//! Window state: the window in which the compositor's output is shown.
//!
//! The native window frameworks (Cocoa) are not built here, so no native
//! window is created; the library keeps the window's state: its size, scale,
//! visibility and whether a redraw was asked for.

use vstd::prelude::*;

use crate::events::{F64Bits, F64_TWO_BITS};

verus! {

/// A window with a layer-backed view for rendering.
pub struct CocoaWindow {
    width: u32,
    height: u32,
    scale_factor: F64Bits,
    is_visible: bool,
    needs_redraw: bool,
}

/// The state of a window.
pub struct CocoaWindowView {
    pub width: u32,
    pub height: u32,
    pub scale_factor: F64Bits,
    pub is_visible: bool,
    pub needs_redraw: bool,
}

impl View for CocoaWindow {
    type V = CocoaWindowView;

    closed spec fn view(&self) -> CocoaWindowView {
        CocoaWindowView {
            width: self.width,
            height: self.height,
            scale_factor: self.scale_factor,
            is_visible: self.is_visible,
            needs_redraw: self.needs_redraw,
        }
    }
}

impl CocoaWindow {
    /// Creates a window of the given size: visible, at scale 2, with no
    /// redraw requested.
    pub fn new(title: &str, width: u32, height: u32) -> (r: Result<Self, String>)
        ensures
            r matches Ok(w) && w@ == (CocoaWindowView {
                width,
                height,
                scale_factor: F64Bits(F64_TWO_BITS),
                is_visible: true,
                needs_redraw: false,
            }),
    {
        Ok(CocoaWindow { width, height, scale_factor: F64Bits(F64_TWO_BITS), is_visible: true, needs_redraw: false })
    }

    /// Requests a redraw of the window's content.
    pub fn request_redraw(&mut self)
        ensures
            final(self)@ == (CocoaWindowView { needs_redraw: true, ..old(self)@ }),
    {
        self.needs_redraw = true;
    }

    /// Whether a redraw was requested and not yet cleared.
    pub fn needs_redraw(&self) -> (r: bool)
        ensures
            r == self@.needs_redraw,
    {
        self.needs_redraw
    }

    /// Clears the redraw request.
    pub fn clear_redraw_flag(&mut self)
        ensures
            final(self)@ == (CocoaWindowView { needs_redraw: false, ..old(self)@ }),
    {
        self.needs_redraw = false;
    }

    /// Sets the window title (the title is not kept by the library).
    pub fn set_title(&self, title: &str) {
    }

    /// The window size.
    pub fn size(&self) -> (r: (u32, u32))
        ensures
            r == (self@.width, self@.height),
    {
        (self.width, self.height)
    }

    /// The backing scale factor (2.0 for Retina).
    pub fn scale_factor(&self) -> (r: F64Bits)
        ensures
            r == self@.scale_factor,
    {
        self.scale_factor
    }

    /// Shows the window.
    pub fn show(&mut self)
        ensures
            final(self)@ == (CocoaWindowView { is_visible: true, ..old(self)@ }),
    {
        self.is_visible = true;
    }

    /// Hides the window.
    pub fn hide_window(&mut self)
        ensures
            final(self)@ == (CocoaWindowView { is_visible: false, ..old(self)@ }),
    {
        self.is_visible = false;
    }

    /// Whether the window is visible.
    pub fn is_visible(&self) -> (r: bool)
        ensures
            r == self@.is_visible,
    {
        self.is_visible
    }
}

/// Handle of the native window of the backend.
pub struct MacOSWindowHandle {
    width: u32,
    height: u32,
}

/// The state of a window handle: its current size.
pub struct MacOSWindowHandleView {
    pub width: u32,
    pub height: u32,
}

impl View for MacOSWindowHandle {
    type V = MacOSWindowHandleView;

    closed spec fn view(&self) -> MacOSWindowHandleView {
        MacOSWindowHandleView { width: self.width, height: self.height }
    }
}

impl MacOSWindowHandle {
    /// Creates a window with the given title and size.
    pub fn new(title: &str, width: u32, height: u32) -> (r: Self)
        ensures
            r@ == (MacOSWindowHandleView { width, height }),
    {
        MacOSWindowHandle { width, height }
    }

    /// Requests a redraw on the next display refresh.
    pub fn request_redraw(&self) {
    }

    /// Updates the window title.
    pub fn set_title(&self, title: &str) {
    }

    /// The current window size, as width and height.
    pub fn size(&self) -> (r: (u32, u32))
        ensures
            r == (self@.width, self@.height),
    {
        (self.width, self.height)
    }

    /// The backing scale factor: 2.0.
    pub fn scale_factor(&self) -> (r: F64Bits)
        ensures
            r == F64Bits(F64_TWO_BITS),
    {
        F64Bits(F64_TWO_BITS)
    }
}

} // verus!
