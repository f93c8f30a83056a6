//! The capture request a caller builds before opening a device: prioritized
//! resolution, frame-rate and pixel-format wishes, ring-buffer depth and
//! stride alignment.

use vstd::prelude::*;

use crate::fourcc::PixelFormat;

verus! {

/// How strongly a wish binds. `Required` must be satisfied or negotiation
/// fails; the lower levels contribute additively to a candidate's score.
/// The declaration order is the strength order.
#[derive(Clone, Copy, Debug, PartialEq, Eq, PartialOrd, Ord, Structural)]
pub enum Priority {
    Low,
    Medium,
    High,
    Required,
}

impl Priority {
    /// The numeric weight of the level: 0, 50, 100 or 255.
    pub open spec fn spec_value(self) -> u8 {
        match self {
            Priority::Low => 0,
            Priority::Medium => 50,
            Priority::High => 100,
            Priority::Required => 255,
        }
    }

    /// The numeric weight of the level, as scoring uses it.
    pub fn value(&self) -> (r: u8)
        ensures
            r == self.spec_value(),
    {
        match self {
            Priority::Low => 0,
            Priority::Medium => 50,
            Priority::High => 100,
            Priority::Required => 255,
        }
    }
}

/// A builder-populated capture request, consumed once by a driver's `open`.
#[derive(Debug, Clone)]
pub struct CameraConfig {
    /// Ordered resolution wishes: `(width, height, priority)`.
    pub resolution_req: Vec<(u32, u32, Priority)>,
    /// An optional frame-rate wish.
    pub fps_req: Option<(u32, Priority)>,
    /// Ordered pixel-format wishes.
    pub format_req: Vec<(PixelFormat, Priority)>,
    /// Ring-buffer depth; 3 by default.
    pub buffer_count: usize,
    /// Forced row alignment in bytes, if any; 256 by default (for SIMD).
    pub align_stride: Option<usize>,
}

impl CameraConfig {
    /// The empty request: no wishes, 3 buffers, 256-byte stride alignment.
    pub fn new() -> (r: Self)
        ensures
            r.resolution_req@ === Seq::<(u32, u32, Priority)>::empty(),
            r.fps_req is None,
            r.format_req@ === Seq::<(PixelFormat, Priority)>::empty(),
            r.buffer_count == 3,
            r.align_stride == Some(256usize),
    {
        CameraConfig {
            resolution_req: Vec::new(),
            fps_req: None,
            format_req: Vec::new(),
            buffer_count: 3,
            align_stride: Some(256),
        }
    }

    /// Appends a resolution wish.
    pub fn resolution(self, w: u32, h: u32, p: Priority) -> (r: Self)
        ensures
            r.resolution_req@ === self.resolution_req@.push((w, h, p)),
            r.fps_req == self.fps_req,
            r.format_req@ === self.format_req@,
            r.buffer_count == self.buffer_count,
            r.align_stride == self.align_stride,
    {
        let mut c = self;
        c.resolution_req.push((w, h, p));
        c
    }

    /// Sets the frame-rate wish (at most one; a later call replaces it).
    pub fn fps(self, fps: u32, p: Priority) -> (r: Self)
        ensures
            r.resolution_req@ === self.resolution_req@,
            r.fps_req == Some((fps, p)),
            r.format_req@ === self.format_req@,
            r.buffer_count == self.buffer_count,
            r.align_stride == self.align_stride,
    {
        let mut c = self;
        c.fps_req = Some((fps, p));
        c
    }

    /// Appends a pixel-format wish.
    pub fn format(self, fmt: PixelFormat, p: Priority) -> (r: Self)
        ensures
            r.resolution_req@ === self.resolution_req@,
            r.fps_req == self.fps_req,
            r.format_req@ === self.format_req@.push((fmt, p)),
            r.buffer_count == self.buffer_count,
            r.align_stride == self.align_stride,
    {
        let mut c = self;
        c.format_req.push((fmt, p));
        c
    }

    /// Sets the ring-buffer depth.
    pub fn buffer_count(self, count: usize) -> (r: Self)
        ensures
            r.resolution_req@ === self.resolution_req@,
            r.fps_req == self.fps_req,
            r.format_req@ === self.format_req@,
            r.buffer_count == count,
            r.align_stride == self.align_stride,
    {
        let mut c = self;
        c.buffer_count = count;
        c
    }

    /// Sets the forced stride alignment in bytes.
    pub fn align_stride(self, bytes: usize) -> (r: Self)
        ensures
            r.resolution_req@ === self.resolution_req@,
            r.fps_req == self.fps_req,
            r.format_req@ === self.format_req@,
            r.buffer_count == self.buffer_count,
            r.align_stride == Some(bytes),
    {
        let mut c = self;
        c.align_stride = Some(bytes);
        c
    }
}

impl Default for CameraConfig {
    /// The same request `new` builds.
    fn default() -> (r: Self)
        ensures
            r.resolution_req@ === Seq::<(u32, u32, Priority)>::empty(),
            r.fps_req is None,
            r.format_req@ === Seq::<(PixelFormat, Priority)>::empty(),
            r.buffer_count == 3,
            r.align_stride == Some(256usize),
    {
        CameraConfig::new()
    }
}

} // verus!
