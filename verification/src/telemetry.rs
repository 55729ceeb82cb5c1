//! Telemetry normalization: raw sensor readings from an opaque device
//! source, queried once per recompute, are turned into the plain values the
//! UI shows. A failed query degrades to zero instead of propagating.

use vstd::prelude::*;

verus! {

/// Bytes per mebibyte.
pub const BYTES_PER_MIB: u64 = 1048576;

/// Milliwatts per watt.
pub const MILLIWATTS_PER_WATT: u32 = 1000;

/// Raw readings from the device source; `None` marks a query that failed.
#[derive(Clone, Copy, Debug, PartialEq, Eq)]
pub struct TelemetryReadings {
    pub memory_used_bytes: Option<u64>,
    pub memory_free_bytes: Option<u64>,
    pub memory_total_bytes: Option<u64>,
    pub memory_utilization_pct: Option<u32>,
    pub gpu_utilization_pct: Option<u32>,
    pub temperature_c: Option<u32>,
    pub fan_speed_pct: Option<u32>,
    pub power_usage_mw: Option<u32>,
    pub memory_clock_mhz: Option<u32>,
    pub graphics_clock_mhz: Option<u32>,
    pub video_clock_mhz: Option<u32>,
}

/// The normalized values the UI shows: memory in mebibytes, power in watts,
/// the rest as read, and zero wherever the query failed.
#[derive(Clone, Copy, Debug, PartialEq, Eq, Structural)]
pub struct TelemetrySample {
    pub memory_used_mib: u64,
    pub memory_free_mib: u64,
    pub memory_total_mib: u64,
    pub memory_utilization_pct: u32,
    pub gpu_utilization_pct: u32,
    pub temperature_c: u32,
    pub fan_speed_pct: u32,
    pub power_usage_w: u32,
    pub memory_clock_mhz: u32,
    pub graphics_clock_mhz: u32,
    pub video_clock_mhz: u32,
}

/// The reading, or zero where the query failed.
pub open spec fn spec_or_zero_u64(v: Option<u64>) -> u64 {
    match v {
        Some(x) => x,
        None => 0,
    }
}

/// The reading, or zero where the query failed.
pub open spec fn spec_or_zero_u32(v: Option<u32>) -> u32 {
    match v {
        Some(x) => x,
        None => 0,
    }
}

fn or_zero_u64(v: Option<u64>) -> (r: u64)
    ensures
        r == spec_or_zero_u64(v),
{
    match v {
        Some(x) => x,
        None => 0,
    }
}

fn or_zero_u32(v: Option<u32>) -> (r: u32)
    ensures
        r == spec_or_zero_u32(v),
{
    match v {
        Some(x) => x,
        None => 0,
    }
}

impl TelemetryReadings {
    /// The sample these readings normalize to.
    pub open spec fn spec_normalize(self) -> TelemetrySample {
        TelemetrySample {
            memory_used_mib: spec_or_zero_u64(self.memory_used_bytes) / BYTES_PER_MIB,
            memory_free_mib: spec_or_zero_u64(self.memory_free_bytes) / BYTES_PER_MIB,
            memory_total_mib: spec_or_zero_u64(self.memory_total_bytes) / BYTES_PER_MIB,
            memory_utilization_pct: spec_or_zero_u32(self.memory_utilization_pct),
            gpu_utilization_pct: spec_or_zero_u32(self.gpu_utilization_pct),
            temperature_c: spec_or_zero_u32(self.temperature_c),
            fan_speed_pct: spec_or_zero_u32(self.fan_speed_pct),
            power_usage_w: spec_or_zero_u32(self.power_usage_mw) / MILLIWATTS_PER_WATT,
            memory_clock_mhz: spec_or_zero_u32(self.memory_clock_mhz),
            graphics_clock_mhz: spec_or_zero_u32(self.graphics_clock_mhz),
            video_clock_mhz: spec_or_zero_u32(self.video_clock_mhz),
        }
    }

    /// Normalizes the readings: failed queries become zero, memory scales
    /// from bytes to mebibytes, power from milliwatts to watts.
    pub fn normalize(&self) -> (r: TelemetrySample)
        ensures
            r == self.spec_normalize(),
    {
        TelemetrySample {
            memory_used_mib: or_zero_u64(self.memory_used_bytes) / BYTES_PER_MIB,
            memory_free_mib: or_zero_u64(self.memory_free_bytes) / BYTES_PER_MIB,
            memory_total_mib: or_zero_u64(self.memory_total_bytes) / BYTES_PER_MIB,
            memory_utilization_pct: or_zero_u32(self.memory_utilization_pct),
            gpu_utilization_pct: or_zero_u32(self.gpu_utilization_pct),
            temperature_c: or_zero_u32(self.temperature_c),
            fan_speed_pct: or_zero_u32(self.fan_speed_pct),
            power_usage_w: or_zero_u32(self.power_usage_mw) / MILLIWATTS_PER_WATT,
            memory_clock_mhz: or_zero_u32(self.memory_clock_mhz),
            graphics_clock_mhz: or_zero_u32(self.graphics_clock_mhz),
            video_clock_mhz: or_zero_u32(self.video_clock_mhz),
        }
    }
}

} // verus!
