//! Frames and their invariants: the owned buffer a capture session hands out,
//! its geometry, its timestamps and its per-frame metadata.

use vstd::prelude::*;

use crate::fourcc::PixelFormat;

verus! {

/// The two clocks of a frame: the driver's raw hardware timestamp and its
/// PLL-corrected projection onto the process-local monotonic clock, both in
/// nanoseconds.
#[derive(Clone, Copy, Debug, PartialEq, Eq, Structural)]
pub struct Timestamp {
    /// The driver-provided monotonic value.
    pub hw_raw_ns: u64,
    /// The drift-corrected time on the process anchor.
    pub system_synced_ns: u64,
}

/// Per-frame sensor metadata, where the driver reports it.
#[derive(Clone, Copy, Debug, PartialEq, Eq, Structural)]
pub struct FrameMetadata {
    /// The exposure actually applied, in microseconds.
    pub actual_exposure_us: Option<u32>,
    /// The gain actually applied, in thousandths of a decibel.
    pub actual_gain_mdb: Option<i32>,
    /// Whether a hardware trigger produced this frame.
    pub trigger_fired: bool,
    /// Whether the strobe was lit during exposure.
    pub strobe_active: bool,
}

impl Default for FrameMetadata {
    /// Nothing reported, no trigger, no strobe.
    fn default() -> (r: Self)
        ensures
            r.actual_exposure_us is None,
            r.actual_gain_mdb is None,
            !r.trigger_fired,
            !r.strobe_active,
    {
        FrameMetadata {
            actual_exposure_us: None,
            actual_gain_mdb: None,
            trigger_fired: false,
            strobe_active: false,
        }
    }
}

/// One delivered frame. The session validates the geometry before handing a
/// frame out, so a well-formed frame's buffer always covers `stride` bytes
/// for each of its `height` rows unless the format is compressed (where
/// `stride` is 0 and the payload length is what the driver reported).
pub struct Frame {
    /// The image bytes.
    pub data: Vec<u8>,
    /// Width in pixels.
    pub width: u32,
    /// Height in pixels.
    pub height: u32,
    /// Bytes from one row's start to the next; 0 is legal for compressed
    /// formats.
    pub stride: usize,
    /// The pixel format of `data`.
    pub format: PixelFormat,
    /// Strictly increasing within one session; resets across a reconfigure.
    pub sequence: u64,
    /// The frame's clocks.
    pub timestamp: Timestamp,
    /// Sensor metadata.
    pub metadata: FrameMetadata,
}

impl Frame {
    /// The frame invariant: for uncompressed formats the buffer covers every
    /// row at full stride.
    pub open spec fn wf(&self) -> bool {
        self.format.spec_is_compressed() || self.data@.len() >= self.stride * self.height
    }
}

/// What a backend's buffer handle must offer; the handles here are plain
/// tokens identifying the origin of a mapped buffer.
pub trait BackendBufferHandle {
    /// A stable tag naming the backend that owns the underlying buffer.
    fn backend_tag(&self) -> u32;
}

/// The buffer-handle token of the V4L2 backend.
pub struct V4l2BufferHandle;

impl BackendBufferHandle for V4l2BufferHandle {
    fn backend_tag(&self) -> u32 {
        1
    }
}

/// The buffer-handle token of the Media Foundation backend.
pub struct MsmfBufferHandle;

impl BackendBufferHandle for MsmfBufferHandle {
    fn backend_tag(&self) -> u32 {
        2
    }
}

/// The buffer-handle token of the AVFoundation backend.
pub struct AvfBufferHandle;

impl BackendBufferHandle for AvfBufferHandle {
    fn backend_tag(&self) -> u32 {
        3
    }
}

/// The packet an AVFoundation-style delegate callback copies out of the
/// locked pixel buffer and hands to the stream.
pub struct AvfFrameData {
    /// The copied image bytes.
    pub data: Vec<u8>,
    /// Width in pixels.
    pub width: usize,
    /// Height in pixels.
    pub height: usize,
}

} // verus!
