//! Device health and link telemetry, polled from the control plane rather
//! than carried on every frame.

use vstd::prelude::*;

verus! {

/// Threshold above which the sensor temperature is critical, in
/// thousandths of a degree Celsius.
pub const TEMP_CRITICAL_MC: i64 = 85_000;

/// Threshold above which the sensor temperature is worth a warning, in
/// thousandths of a degree Celsius.
pub const TEMP_WARNING_MC: i64 = 75_000;

/// Threshold above which the transmission-error count is worth a warning.
pub const ERRORS_WARNING: u64 = 100;

/// A periodic snapshot of a device's health counters.
#[derive(Debug, Clone, Default)]
pub struct DeviceTelemetry {
    /// Core temperature in thousandths of a degree Celsius, where the
    /// device reports one.
    pub temperature_mc: Option<i64>,
    /// Measured link throughput in megabits per second, where known.
    pub link_throughput_mbps: Option<u32>,
    /// Transport-layer error count (isochronous errors, resends).
    pub transmission_errors: u64,
    /// Frames dropped to overflow or a slow consumer.
    pub dropped_frames: u64,
    /// Frames whose payload failed validation.
    pub corrupted_frames: u64,
    /// Estimated power draw in milliwatts, where known.
    pub power_consumption_mw: Option<u32>,
}

/// A traffic-light summary of a telemetry snapshot.
#[derive(Clone, Copy, Debug, PartialEq, Eq, Structural)]
pub enum DeviceHealthStatus {
    Healthy,
    Warning(HealthIssue),
    Critical(HealthIssue),
}

/// What a non-healthy summary points at.
#[derive(Clone, Copy, Debug, PartialEq, Eq, Structural)]
pub enum HealthIssue {
    Overheating,
    BandwidthSaturation,
    HighPacketLoss,
    SensorError,
}

impl DeviceTelemetry {
    /// The summary `assess_health` computes: overheating outranks packet
    /// loss, and a reading above the critical threshold outranks a warning.
    pub open spec fn spec_health(&self) -> DeviceHealthStatus {
        if self.temperature_mc matches Some(t) && t > TEMP_CRITICAL_MC {
            DeviceHealthStatus::Critical(HealthIssue::Overheating)
        } else if self.temperature_mc matches Some(t) && t > TEMP_WARNING_MC {
            DeviceHealthStatus::Warning(HealthIssue::Overheating)
        } else if self.transmission_errors > ERRORS_WARNING {
            DeviceHealthStatus::Warning(HealthIssue::HighPacketLoss)
        } else {
            DeviceHealthStatus::Healthy
        }
    }

    /// Summarizes the snapshot as a traffic light.
    pub fn assess_health(&self) -> (r: DeviceHealthStatus)
        ensures
            r == self.spec_health(),
    {
        match self.temperature_mc {
            Some(t) => {
                if t > TEMP_CRITICAL_MC {
                    return DeviceHealthStatus::Critical(HealthIssue::Overheating);
                }
                if t > TEMP_WARNING_MC {
                    return DeviceHealthStatus::Warning(HealthIssue::Overheating);
                }
            },
            None => {},
        }
        if self.transmission_errors > ERRORS_WARNING {
            return DeviceHealthStatus::Warning(HealthIssue::HighPacketLoss);
        }
        DeviceHealthStatus::Healthy
    }
}

} // verus!
