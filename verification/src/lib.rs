//! A cross-platform camera capture core with verified contracts: the
//! pixel-format registry, capability negotiation, software-PLL timestamp
//! correction, the frame lifecycle and state machine of the data plane, and
//! the decision core of the synchronous facade's background worker.
//!
//! The OS bindings (ioctl plumbing, executors, windowing) live with the
//! embedding program; everything here is executable logic whose behaviour is
//! stated in `requires` / `ensures` clauses and proved.

mod bridge;
mod clock;
mod codec;
mod config;
mod convert;
mod device;
mod drawing;
mod error;
mod fourcc;
mod frame;
mod mat;
mod negotiate;
mod pixel_map;
mod stream;
mod subsystem;
mod telemetry;
mod tick;

pub use bridge::fourcc_code;
pub use bridge::pack_frame_size;
pub use bridge::parse_frame_size;
pub use bridge::Command;
pub use bridge::Response;
pub use bridge::WorkerCore;
pub use clock::ClockSynchronizer;
pub use codec::bgr_mat_from_rgb;
pub use codec::update_mat_from_frame;
pub use config::CameraConfig;
pub use config::Priority;
pub use convert::clamp;
pub use convert::mat_to_u32_buffer;
pub use convert::swap_rb_channels;
pub use convert::yuyv_to_bgr;
pub use device::default_backend;
pub use device::AvfDriver;
pub use device::BackendType;
pub use device::DeviceInfo;
pub use device::DummyControl;
pub use device::LensControl;
pub use device::MsmfDriver;
pub use device::SensorControl;
pub use device::TriggerConfig;
pub use device::TriggerMode;
pub use device::TriggerPolarity;
pub use device::TriggerSource;
pub use device::V4l2Driver;
pub use drawing::rectangle;
pub use drawing::Point;
pub use drawing::Rect;
pub use drawing::Scalar;
pub use error::classify_os_error;
pub use error::CameraError;
pub use fourcc::FourCC;
pub use fourcc::PixelFormat;
pub use frame::AvfBufferHandle;
pub use frame::AvfFrameData;
pub use frame::BackendBufferHandle;
pub use frame::Frame;
pub use frame::FrameMetadata;
pub use frame::MsmfBufferHandle;
pub use frame::Timestamp;
pub use frame::V4l2BufferHandle;
pub use mat::Mat;
pub use negotiate::calculate_score;
pub use negotiate::check_bandwidth;
pub use negotiate::negotiate;
pub use negotiate::satisfies_required;
pub use negotiate::NegotiatedFormat;
pub use pixel_map::from_mf_subtype;
pub use pixel_map::from_v4l_fourcc;
pub use pixel_map::to_mf_subtype;
pub use pixel_map::to_v4l_fourcc;
pub use stream::CaptureSession;
pub use stream::StreamState;
pub use subsystem::SubsystemRefCount;
pub use telemetry::DeviceHealthStatus;
pub use telemetry::DeviceTelemetry;
pub use telemetry::HealthIssue;
pub use tick::TickMeter;
