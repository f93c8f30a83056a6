//! The error taxonomy of the capture core.

use vstd::prelude::*;

verus! {

/// Everything that can go wrong between enumeration and frame delivery.
#[derive(Debug, Clone)]
pub enum CameraError {
    /// The device vanished mid-stream; fatal to the stream, recoverable by
    /// reopening. Carries the device identifier.
    Disconnected(String),
    /// Negotiation succeeded but the driver refused to start the stream for
    /// want of bus bandwidth; the suggestion names an alternative.
    BandwidthExceeded { required_mbps: u32, limit_mbps: u32, suggestion: String },
    /// Another process holds the device; retryable.
    DeviceBusy,
    /// The ring wrapped past an unread slot and a frame was dropped;
    /// non-fatal, the next read resumes.
    BufferOverflow,
    /// No advertised candidate satisfies a `Required` constraint; fatal to
    /// `open`.
    FormatNotSupported,
    /// Only the test-only frame injection produces this.
    SimulationError(String),
    /// An OS-level error, carried verbatim as text.
    Io(String),
}

impl CameraError {
    /// The short text an error surfaces across the bridge: variants that
    /// carry a message yield it verbatim, the rest a fixed phrase.
    pub fn into_message(self) -> (r: String)
        ensures
            self matches CameraError::Disconnected(d) ==> r@ == d@,
            self matches CameraError::Io(m) ==> r@ == m@,
            self matches CameraError::SimulationError(m) ==> r@ == m@,
            (self matches CameraError::BandwidthExceeded { required_mbps, limit_mbps, suggestion }
                ==> r@ == suggestion@),
            self is DeviceBusy ==> r@ == "Device busy: exclusive access required"@,
            self is BufferOverflow ==> r@ == "Frame dropped: ring buffer overflow"@,
            self is FormatNotSupported ==> r@
                == "Format negotiation failed: no hardware support for requested constraints"@,
    {
        match self {
            CameraError::Disconnected(d) => d,
            CameraError::Io(m) => m,
            CameraError::SimulationError(m) => m,
            CameraError::BandwidthExceeded { required_mbps: _, limit_mbps: _, suggestion } => {
                suggestion
            },
            CameraError::DeviceBusy => "Device busy: exclusive access required".to_owned(),
            CameraError::BufferOverflow => "Frame dropped: ring buffer overflow".to_owned(),
            CameraError::FormatNotSupported => {
                "Format negotiation failed: no hardware support for requested constraints".to_owned()
            },
        }
    }
}

/// A classification of OS error numbers into the taxonomy above: `EBUSY`
/// means another holder, `ENODEV` / `ENXIO` mean the device is gone, and
/// every other number is an `Io` on the named device.
pub fn classify_os_error(errno: i32, device: &str) -> (r: CameraError)
    ensures
        errno == 16 ==> r == CameraError::DeviceBusy,
        (errno == 19 || errno == 6) ==> (r matches CameraError::Disconnected(d) && d@
            == device@),
        (errno != 16 && errno != 19 && errno != 6) ==> (r matches CameraError::Io(_)),
{
    if errno == 16 {
        CameraError::DeviceBusy
    } else if errno == 19 || errno == 6 {
        CameraError::Disconnected(device.to_owned())
    } else {
        CameraError::Io(device.to_owned())
    }
}

} // verus!
