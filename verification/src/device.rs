//! The messages that pass between a sensor device and the server.
//!
//! Humidities and temperature offsets are fixed-point integers in
//! thousandths; the temperature of a measurement message is in whole
//! degrees, as the device sends it.

use vstd::prelude::*;

verus! {

/// What a device reports to the server.
#[derive(Clone, Debug, PartialEq, Eq)]
pub enum DevicePayload {
    MeasurementSuccess { co2: u16, temperature: u32, humidity_milli_pct: i32 },
    Error { detail: String },
    FrcStart { target_ppm: u16 },
    FrcWarmupComplete { detail: String },
    FrcCalibrating { target_ppm: u16 },
    FrcSuccess { correction: u16 },
    FrcError { detail: String },
    SetOffsetSuccess { offset_milli_c: i32 },
    SetOffsetError { detail: String },
    GetOffsetSuccess { offset_milli_c: i32 },
    GetOffsetError { detail: String },
    Alive { uptime_seconds: u64 },
    SetDeepSleepTimeSuccess { seconds: u64 },
    GetDeepSleepTimeSuccess { seconds: u64 },
}

/// A report together with the name of the device that sent it.
#[derive(Clone, Debug, PartialEq, Eq)]
pub struct DeviceMessage {
    pub device: String,
    pub payload: DevicePayload,
}

/// What the server asks of a device.
#[derive(Clone, Copy, Debug, PartialEq, Eq, Structural)]
pub enum DeviceCommand {
    NoOp,
    StartFrc { target_ppm: u16 },
    SetTempOffset { offset_milli_c: i32 },
    GetTempOffset,
    SetDeepSleepTime { seconds: u64 },
    GetDeepSleepTime,
}

/// The CO2 concentration, in parts per million, that a forced
/// recalibration aims at when none is given.
pub fn default_frc_ppm() -> (ppm: u16)
    ensures
        ppm == 422,
{
    422
}

impl Default for DeviceCommand {
    fn default() -> (command: DeviceCommand)
        ensures
            command == DeviceCommand::NoOp,
    {
        DeviceCommand::NoOp
    }
}

impl DeviceCommand {
    /// Whether the command asks the device for anything.
    pub fn is_noop(&self) -> (idle: bool)
        ensures
            idle == (*self == DeviceCommand::NoOp),
    {
        match self {
            DeviceCommand::NoOp => true,
            _ => false,
        }
    }
}

impl DeviceMessage {
    /// The message in which `device` reports `payload`.
    pub fn new(device: String, payload: DevicePayload) -> (message: DeviceMessage)
        ensures
            message.device == device,
            message.payload == payload,
    {
        DeviceMessage { device, payload }
    }
}

impl DevicePayload {
    /// The report of a measurement.
    pub fn measurement(co2: u16, temperature: u32, humidity_milli_pct: i32) -> (payload:
        DevicePayload)
        ensures
            payload == (DevicePayload::MeasurementSuccess { co2, temperature, humidity_milli_pct }),
    {
        DevicePayload::MeasurementSuccess { co2, temperature, humidity_milli_pct }
    }

    /// The report of a failure.
    pub fn error(detail: String) -> (payload: DevicePayload)
        ensures
            payload == (DevicePayload::Error { detail }),
    {
        DevicePayload::Error { detail }
    }

    /// The report that a forced recalibration has begun.
    pub fn frc_start(target_ppm: u16) -> (payload: DevicePayload)
        ensures
            payload == (DevicePayload::FrcStart { target_ppm }),
    {
        DevicePayload::FrcStart { target_ppm }
    }

    /// The report that a forced recalibration is done.
    pub fn frc_success(correction: u16) -> (payload: DevicePayload)
        ensures
            payload == (DevicePayload::FrcSuccess { correction }),
    {
        DevicePayload::FrcSuccess { correction }
    }

    /// The report that the device is up.
    pub fn alive(uptime_seconds: u64) -> (payload: DevicePayload)
        ensures
            payload == (DevicePayload::Alive { uptime_seconds }),
    {
        DevicePayload::Alive { uptime_seconds }
    }

    /// Whether the payload reports a failure of some kind.
    pub open spec fn reports_failure(&self) -> bool {
        match self {
            DevicePayload::Error { .. } => true,
            DevicePayload::FrcError { .. } => true,
            DevicePayload::SetOffsetError { .. } => true,
            DevicePayload::GetOffsetError { .. } => true,
            _ => false,
        }
    }

    /// Whether the payload reports a failure of some kind.
    pub fn is_failure(&self) -> (failure: bool)
        ensures
            failure == self.reports_failure(),
    {
        match self {
            DevicePayload::Error { .. } => true,
            DevicePayload::FrcError { .. } => true,
            DevicePayload::SetOffsetError { .. } => true,
            DevicePayload::GetOffsetError { .. } => true,
            _ => false,
        }
    }
}

/// The whole minutes in `uptime_seconds`.
pub fn uptime_minutes(uptime_seconds: u64) -> (minutes: u64)
    ensures
        minutes == uptime_seconds / 60,
{
    uptime_seconds / 60
}

/// The whole hours in `uptime_seconds`.
pub fn uptime_hours(uptime_seconds: u64) -> (hours: u64)
    ensures
        hours == uptime_seconds / 60 / 60,
{
    uptime_seconds / 60 / 60
}

/// A temperature in whole degrees as thousandths of a degree; the largest
/// number of thousandths that there is if the degrees are more than that.
pub open spec fn degrees_as_milli(degrees: u32) -> i32 {
    if degrees * 1000 > i32::MAX {
        i32::MAX
    } else {
        (degrees * 1000) as i32
    }
}

/// A temperature in whole degrees as thousandths of a degree.
pub fn whole_degrees_to_milli(degrees: u32) -> (milli: i32)
    ensures
        milli == degrees_as_milli(degrees),
{
    let scaled: u64 = degrees as u64 * 1000;
    if scaled > i32::MAX as u64 {
        i32::MAX
    } else {
        scaled as i32
    }
}

} // verus!
