//! Device identity, trigger configuration and the control-plane interfaces.
//!
//! The OS-specific probing and ioctl work lives with the embedding program;
//! here stand the data those bindings exchange with the core and the traits
//! a backend's control handles implement.

use vstd::prelude::*;

verus! {

/// What enumeration reports per camera; `id` is the opaque handle `open`
/// accepts.
#[derive(Debug, Clone)]
pub struct DeviceInfo {
    /// A user-facing display name.
    pub name: String,
    /// The unique hardware identifier (a device path or symbolic link).
    pub id: String,
    /// The backend that enumerated the device.
    pub backend: String,
    /// The hardware bus topology, where the backend reports it.
    pub bus_info: Option<String>,
}

/// Trigger modes of an industrial sensor.
#[derive(Clone, Copy, Debug, PartialEq, Eq, Structural)]
pub enum TriggerMode {
    /// Free-running acquisition, no trigger.
    Off,
    /// One frame per trigger edge.
    Standard,
    /// Exposure lasts as long as the trigger signal (bulb).
    Bulb,
}

/// Where a trigger comes from.
#[derive(Clone, Copy, Debug, PartialEq, Eq, Structural)]
pub enum TriggerSource {
    /// Software-initiated trigger.
    Software,
    /// Opto-isolated hardware line 0.
    Line0,
    /// Hardware line 1.
    Line1,
    /// Hardware line 2.
    Line2,
    /// Hardware line 3.
    Line3,
}

/// Which edge or level of the trigger signal fires.
#[derive(Clone, Copy, Debug, PartialEq, Eq, Structural)]
pub enum TriggerPolarity {
    RisingEdge,
    FallingEdge,
    HighLevel,
    LowLevel,
}

/// A hardware trigger configuration.
#[derive(Clone, Copy, Debug, PartialEq, Eq, Structural)]
pub struct TriggerConfig {
    /// The trigger mode.
    pub mode: TriggerMode,
    /// The trigger source.
    pub source: TriggerSource,
    /// The edge or level that fires.
    pub polarity: TriggerPolarity,
    /// Delay between signal and exposure start, in microseconds.
    pub delay_us: u32,
}

impl Default for TriggerConfig {
    /// Triggering off: free run, software source, rising edge, no delay.
    fn default() -> (r: Self)
        ensures
            r.mode == TriggerMode::Off,
            r.source == TriggerSource::Software,
            r.polarity == TriggerPolarity::RisingEdge,
            r.delay_us == 0,
    {
        TriggerConfig {
            mode: TriggerMode::Off,
            source: TriggerSource::Software,
            polarity: TriggerPolarity::RisingEdge,
            delay_us: 0,
        }
    }
}

/// The sensor control handle: exposure and gain.
pub trait SensorControl {
    /// Applies a manual exposure time in microseconds.
    fn set_exposure(&self, value_us: u32) -> Result<(), crate::error::CameraError>;

    /// Reads back the applied exposure time in microseconds.
    fn get_exposure(&self) -> Result<u32, crate::error::CameraError>;
}

/// The lens control handle: zoom and focus, usable concurrently with the
/// sensor handle.
pub trait LensControl {
    /// Applies an absolute zoom position.
    fn set_zoom(&self, zoom: u32) -> Result<(), crate::error::CameraError>;

    /// Applies an absolute focus position (disabling autofocus).
    fn set_focus(&self, focus: u32) -> Result<(), crate::error::CameraError>;
}

/// The control handle of backends without wired controls: every setter
/// succeeds without effect and the read-back is zero.
pub struct DummyControl;

impl SensorControl for DummyControl {
    fn set_exposure(&self, value_us: u32) -> Result<(), crate::error::CameraError> {
        let _ = value_us;
        Ok(())
    }

    fn get_exposure(&self) -> Result<u32, crate::error::CameraError> {
        Ok(0)
    }
}

impl LensControl for DummyControl {
    fn set_zoom(&self, zoom: u32) -> Result<(), crate::error::CameraError> {
        let _ = zoom;
        Ok(())
    }

    fn set_focus(&self, focus: u32) -> Result<(), crate::error::CameraError> {
        let _ = focus;
        Ok(())
    }
}

/// The backends this library knows how to drive.
#[derive(Clone, Copy, Debug, PartialEq, Eq, Structural)]
pub enum BackendType {
    /// Video4Linux2.
    V4L2,
    /// macOS AVFoundation.
    AVFoundation,
    /// No real hardware; simulation and tests.
    Dummy,
}

/// The backend this build wires as its default capture path.
pub fn default_backend() -> (r: BackendType)
    ensures
        r == BackendType::V4L2,
{
    BackendType::V4L2
}

/// The identity token of the Video4Linux2 driver.
#[derive(Debug, Clone)]
pub struct V4l2Driver;

impl V4l2Driver {
    /// The V4L2 driver token.
    pub fn new() -> Self {
        V4l2Driver
    }

    /// Which backend this driver drives.
    pub fn backend_type(&self) -> (r: BackendType)
        ensures
            r == BackendType::V4L2,
    {
        BackendType::V4L2
    }
}

impl Default for V4l2Driver {
    fn default() -> Self {
        V4l2Driver::new()
    }
}

/// The identity token of the Media Foundation driver.
#[derive(Debug, Clone)]
pub struct MsmfDriver;

impl MsmfDriver {
    /// The Media Foundation driver token.
    pub fn new() -> Self {
        MsmfDriver
    }
}

impl Default for MsmfDriver {
    fn default() -> Self {
        MsmfDriver::new()
    }
}

/// The identity token of the AVFoundation driver.
#[derive(Debug, Clone)]
pub struct AvfDriver;

impl AvfDriver {
    /// The AVFoundation driver token.
    pub fn new() -> Self {
        AvfDriver
    }

    /// Which backend this driver drives.
    pub fn backend_type(&self) -> (r: BackendType)
        ensures
            r == BackendType::AVFoundation,
    {
        BackendType::AVFoundation
    }
}

impl Default for AvfDriver {
    fn default() -> Self {
        AvfDriver::new()
    }
}

} // verus!
