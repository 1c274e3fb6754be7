//! The decisions of the sensor device between its dealings with the
//! hardware: how long to wait for a reading, when to give up on the
//! network, and what to report.

use vstd::prelude::*;
use crate::device::DevicePayload;

verus! {

/// How often the device asks the sensor for data before it gives up.
pub const MAX_POLL_ATTEMPTS: u8 = 15;

/// How often the device tries to join the network.
pub const MAX_WIFI_ATTEMPTS: u8 = 3;

/// What to do next while waiting for the sensor.
#[derive(Clone, Copy, Debug, PartialEq, Eq, Structural)]
pub enum PollStep {
    /// Wait a second and ask again.
    Wait,
    /// Read the measurement.
    Read,
    /// Give up: the sensor took too long.
    TimedOut,
}

/// What to do next while joining the network.
#[derive(Clone, Copy, Debug, PartialEq, Eq, Structural)]
pub enum WifiStep {
    /// Go on: the device is connected.
    Proceed,
    /// Stop the radio, start it again and try once more.
    Restart,
    /// Give up.
    GiveUp,
}

/// How an attempt to take a reading ended.
#[derive(Clone, Copy, Debug, PartialEq, Eq, Structural)]
pub enum ReadOutcome {
    /// The sensor gave a reading.
    Reading { co2: u16, temperature: u32, humidity_milli_pct: i32 },
    /// The sensor had data but reading it failed.
    ReadFailed,
    /// The sensor had no data in time.
    TimedOut,
}

/// The next step after the sensor was asked `attempts` times, the last
/// answer being `ready`.
pub open spec fn poll_step_for(ready: bool, attempts: u8) -> PollStep {
    if !ready && attempts < MAX_POLL_ATTEMPTS {
        PollStep::Wait
    } else if attempts >= MAX_POLL_ATTEMPTS {
        PollStep::TimedOut
    } else {
        PollStep::Read
    }
}

/// The next step while waiting for the sensor: wait while it has no data
/// and fewer than fifteen waits are behind; after fifteen waits give up;
/// else read.
pub fn poll_step(ready: bool, attempts: u8) -> (step: PollStep)
    ensures
        step == poll_step_for(ready, attempts),
{
    if !ready && attempts < MAX_POLL_ATTEMPTS {
        PollStep::Wait
    } else if attempts >= MAX_POLL_ATTEMPTS {
        PollStep::TimedOut
    } else {
        PollStep::Read
    }
}

/// The next step after attempt number `attempt`, counted from 1, to join
/// the network.
pub open spec fn wifi_step_for(attempt: u8, connected: bool) -> WifiStep {
    if connected {
        WifiStep::Proceed
    } else if attempt < MAX_WIFI_ATTEMPTS {
        WifiStep::Restart
    } else {
        WifiStep::GiveUp
    }
}

/// The next step while joining the network: after a failed attempt the
/// radio is restarted, but the third failure is final.
pub fn wifi_step(attempt: u8, connected: bool) -> (step: WifiStep)
    ensures
        step == wifi_step_for(attempt, connected),
{
    if connected {
        WifiStep::Proceed
    } else if attempt < MAX_WIFI_ATTEMPTS {
        WifiStep::Restart
    } else {
        WifiStep::GiveUp
    }
}

/// What the device reports after an attempt to take a reading.
pub fn measurement_report(outcome: ReadOutcome) -> (payload: DevicePayload)
    ensures
        match outcome {
            ReadOutcome::Reading { co2, temperature, humidity_milli_pct } => payload == (
            DevicePayload::MeasurementSuccess { co2, temperature, humidity_milli_pct }),
            ReadOutcome::ReadFailed => payload matches DevicePayload::Error { detail } && detail@
                == "Failed to read measurement"@,
            ReadOutcome::TimedOut => payload matches DevicePayload::Error { detail } && detail@
                == "Measurement timed out"@,
        },
{
    match outcome {
        ReadOutcome::Reading { co2, temperature, humidity_milli_pct } => {
            DevicePayload::MeasurementSuccess { co2, temperature, humidity_milli_pct }
        },
        ReadOutcome::ReadFailed => DevicePayload::Error {
            detail: String::from_str("Failed to read measurement"),
        },
        ReadOutcome::TimedOut => DevicePayload::Error {
            detail: String::from_str("Measurement timed out"),
        },
    }
}

/// What the device reports after a forced recalibration: the correction,
/// or what the sensor said went wrong.
pub fn frc_report(result: Result<u16, String>) -> (payload: DevicePayload)
    ensures
        match result {
            Ok(correction) => payload == (DevicePayload::FrcSuccess { correction }),
            Err(detail) => payload == (DevicePayload::FrcError { detail }),
        },
{
    match result {
        Ok(correction) => DevicePayload::FrcSuccess { correction },
        Err(detail) => DevicePayload::FrcError { detail },
    }
}

/// What the device reports after it was asked to set the temperature
/// offset. `set_failure` is what went wrong when the offset was set,
/// `persist_failure` what went wrong when it was written to permanent
/// memory; the second counts only where the first is absent.
pub fn set_offset_report(
    offset_milli_c: i32,
    set_failure: Option<String>,
    persist_failure: Option<String>,
) -> (payload: DevicePayload)
    ensures
        match set_failure {
            Some(cause) => payload matches DevicePayload::SetOffsetError { detail } && detail@
                == "failed_to_set: "@ + cause@,
            None => match persist_failure {
                Some(cause) => payload matches DevicePayload::SetOffsetError { detail } && detail@
                    == "failed_to_persist: "@ + cause@,
                None => payload == (DevicePayload::SetOffsetSuccess { offset_milli_c }),
            },
        },
{
    match set_failure {
        Some(cause) => {
            let mut detail = String::from_str("failed_to_set: ");
            detail.append(cause.as_str());
            DevicePayload::SetOffsetError { detail }
        },
        None => match persist_failure {
            Some(cause) => {
                let mut detail = String::from_str("failed_to_persist: ");
                detail.append(cause.as_str());
                DevicePayload::SetOffsetError { detail }
            },
            None => DevicePayload::SetOffsetSuccess { offset_milli_c },
        },
    }
}

/// What the device reports after it was asked for the temperature offset.
pub fn get_offset_report(result: Result<i32, String>) -> (payload: DevicePayload)
    ensures
        match result {
            Ok(offset_milli_c) => payload == (DevicePayload::GetOffsetSuccess { offset_milli_c }),
            Err(cause) => payload matches DevicePayload::GetOffsetError { detail } && detail@
                == "failed_to_get: "@ + cause@,
        },
{
    match result {
        Ok(offset_milli_c) => DevicePayload::GetOffsetSuccess { offset_milli_c },
        Err(cause) => {
            let mut detail = String::from_str("failed_to_get: ");
            detail.append(cause.as_str());
            DevicePayload::GetOffsetError { detail }
        },
    }
}

} // verus!
