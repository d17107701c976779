//! Renderer state: clear color, vsync, frame rate target, debug tint and the
//! count of rendered frames.
//!
//! The GPU frameworks (Metal) are not built here, so no GPU work is done;
//! the library keeps the renderer's state.

use vstd::prelude::*;

use crate::events::{F32Bits, F64Bits};

verus! {

/// Bit pattern of the `f32` value 0.1.
pub const F32_TENTH_BITS: u32 = 0x3DCC_CCCD;
/// Bit pattern of the `f32` value 1.0.
pub const F32_ONE_BITS: u32 = 0x3F80_0000;

/// The renderer.
pub struct MetalRenderer {
    clear_color: [F32Bits; 4],
    vsync_enabled: bool,
    target_fps: u32,
    debug_tint: bool,
    frame_count: u64,
}

/// The state of a renderer.
pub struct MetalRendererView {
    /// Clear color (RGBA).
    pub clear_color: [F32Bits; 4],
    pub vsync_enabled: bool,
    /// Target frame rate (for ProMotion displays).
    pub target_fps: u32,
    pub debug_tint: bool,
    /// Number of frames rendered.
    pub frame_count: u64,
}

impl View for MetalRenderer {
    type V = MetalRendererView;

    closed spec fn view(&self) -> MetalRendererView {
        MetalRendererView {
            clear_color: self.clear_color,
            vsync_enabled: self.vsync_enabled,
            target_fps: self.target_fps,
            debug_tint: self.debug_tint,
            frame_count: self.frame_count,
        }
    }
}

/// A render target.
#[derive(Debug)]
pub struct RenderTarget {
    pub width: u32,
    pub height: u32,
    pub scale_factor: F64Bits,
}

/// Render statistics.
#[derive(Debug, Clone, Copy)]
pub struct RenderStats {
    pub frame_time_ms: F64Bits,
    pub draw_calls: u32,
    pub triangles: u32,
    pub textures_used: u32,
}

impl RenderStats {
    /// Statistics that count nothing: zero time, no draw call, triangle or
    /// texture.
    pub open spec fn zero() -> RenderStats {
        RenderStats { frame_time_ms: F64Bits(0), draw_calls: 0, triangles: 0, textures_used: 0 }
    }
}

impl Default for RenderStats {
    fn default() -> (r: Self)
        ensures
            r == RenderStats::zero(),
    {
        RenderStats { frame_time_ms: F64Bits(0), draw_calls: 0, triangles: 0, textures_used: 0 }
    }
}

/// Resources for rendering one frame.
pub struct FrameContext {}

/// Something to be rendered (a window, a UI element, ...).
#[derive(Debug, Clone, Copy)]
pub struct RenderElement {
    pub x: F64Bits,
    pub y: F64Bits,
    pub width: F64Bits,
    pub height: F64Bits,
    pub opacity: F32Bits,
    pub texture_id: Option<u64>,
}

impl MetalRenderer {
    /// Creates a renderer: dark gray clear color (0.1, 0.1, 0.1, 1.0), vsync
    /// on, 60 frames per second, no debug tint, no frame rendered yet.
    pub fn new() -> (r: Result<Self, String>)
        ensures
            r matches Ok(m) && m@ == (MetalRendererView {
                clear_color: [F32Bits(F32_TENTH_BITS), F32Bits(F32_TENTH_BITS), F32Bits(F32_TENTH_BITS), F32Bits(F32_ONE_BITS)],
                vsync_enabled: true,
                target_fps: 60,
                debug_tint: false,
                frame_count: 0,
            }),
    {
        Ok(MetalRenderer {
            clear_color: [F32Bits(F32_TENTH_BITS), F32Bits(F32_TENTH_BITS), F32Bits(F32_TENTH_BITS), F32Bits(F32_ONE_BITS)],
            vsync_enabled: true,
            target_fps: 60,
            debug_tint: false,
            frame_count: 0,
        })
    }

    /// Configures the renderer for a layer of the given size and scale.
    pub fn configure_layer(&self, layer: (), width: u32, height: u32, scale: F64Bits) {
    }

    /// Begins a new frame.
    pub fn begin_frame(&mut self, layer: ()) -> (r: Option<FrameContext>)
        ensures
            r is Some,
            final(self)@ == old(self)@,
    {
        Some(FrameContext {})
    }

    /// Renders the frame content; one more frame is counted.
    pub fn render_frame(&mut self, ctx: &FrameContext, elements: &[RenderElement])
        requires
            old(self)@.frame_count < u64::MAX,
        ensures
            final(self)@ == (MetalRendererView { frame_count: (old(self)@.frame_count + 1) as u64, ..old(self)@ }),
    {
        self.frame_count = self.frame_count + 1;
    }

    /// Ends the frame and presents it.
    pub fn end_frame(&mut self, ctx: FrameContext)
        ensures
            final(self)@ == old(self)@,
    {
    }

    /// Sets the clear color.
    pub fn set_clear_color(&mut self, color: [F32Bits; 4])
        ensures
            final(self)@ == (MetalRendererView { clear_color: color, ..old(self)@ }),
    {
        self.clear_color = color;
    }

    /// Enables or disables vsync.
    pub fn set_vsync(&mut self, enabled: bool)
        ensures
            final(self)@ == (MetalRendererView { vsync_enabled: enabled, ..old(self)@ }),
    {
        self.vsync_enabled = enabled;
    }

    /// Sets the target frame rate (for ProMotion).
    pub fn set_target_fps(&mut self, fps: u32)
        ensures
            final(self)@ == (MetalRendererView { target_fps: fps, ..old(self)@ }),
    {
        self.target_fps = fps;
    }

    /// Enables or disables the debug tint.
    pub fn set_debug_tint(&mut self, enabled: bool)
        ensures
            final(self)@ == (MetalRendererView { debug_tint: enabled, ..old(self)@ }),
    {
        self.debug_tint = enabled;
    }

    /// Render statistics (none are measured: all zero).
    pub fn stats(&self) -> (r: RenderStats)
        ensures
            r == RenderStats::zero(),
    {
        RenderStats { frame_time_ms: F64Bits(0), draw_calls: 0, triangles: 0, textures_used: 0 }
    }

    /// Number of frames rendered.
    pub fn frame_count(&self) -> (r: u64)
        ensures
            r == self@.frame_count,
    {
        self.frame_count
    }
}

} // verus!
