//! What to do on each event of a live feed. The caller waits for the
//! events and carries the actions out; the decisions are made here.

use vstd::prelude::*;
use crate::config::AnomalyConfig;
use crate::detector::{AnomalyDetector, DetectorView};
use crate::device::{degrees_as_milli, whole_degrees_to_milli, DeviceMessage, DevicePayload};
use crate::flags::AnomalyFlags;
use crate::measurement::Measurement;

verus! {

/// How long to wait, in seconds, before the feed is tried again after it
/// has failed.
pub const RETRY_DELAY_SECONDS: u64 = 5;

/// What the feed has brought.
#[derive(Debug, PartialEq, Eq)]
pub enum LinkEvent {
    /// A message of a device.
    Message(DeviceMessage),
    /// Something that could not be read as a message.
    Unreadable,
    /// The broker has accepted the connection.
    Connected,
    /// The broker has confirmed the subscription.
    Subscribed,
    /// The connection has failed.
    Failed,
    /// Anything else.
    Other,
}

/// What the receiver of measurements is to do.
#[derive(Debug, PartialEq, Eq)]
pub enum LiveAction {
    /// Store the measurement, and its verdict if any indicator is set.
    Store { measurement: Measurement, flags: AnomalyFlags },
    /// Take note of what the device reported; `failure` tells whether it
    /// reported a failure.
    Notice { failure: bool },
    /// Subscribe to the devices' reports.
    Subscribe,
    /// Wait for `seconds` and try the feed again.
    RetryAfter { seconds: u64 },
    /// Nothing.
    Nothing,
}

/// What the operator's console is to do.
#[derive(Clone, Copy, Debug, PartialEq, Eq, Structural)]
pub enum ConsoleAction {
    /// Show the message.
    Show,
    /// Take note; `failure` tells whether something went wrong.
    Notice { failure: bool },
    /// Wait for `seconds` and try the feed again.
    RetryAfter { seconds: u64 },
    /// Nothing.
    Nothing,
}

/// The measurement that a device's report of a reading amounts to when it
/// arrives at the instant `received_at`.
pub open spec fn received_measurement(
    device: String,
    received_at: i64,
    co2: u16,
    temperature: u32,
    humidity_milli_pct: i32,
) -> Measurement {
    Measurement {
        device,
        timestamp: received_at,
        co2_ppm: co2,
        temperature_milli_c: degrees_as_milli(temperature),
        humidity_milli_pct,
    }
}

/// What the console does on `event`.
pub open spec fn console_action_for(event: LinkEvent) -> ConsoleAction {
    match event {
        LinkEvent::Message(_) => ConsoleAction::Show,
        LinkEvent::Unreadable => ConsoleAction::Notice { failure: true },
        LinkEvent::Connected => ConsoleAction::Notice { failure: false },
        LinkEvent::Subscribed => ConsoleAction::Notice { failure: false },
        LinkEvent::Failed => ConsoleAction::RetryAfter { seconds: RETRY_DELAY_SECONDS },
        LinkEvent::Other => ConsoleAction::Nothing,
    }
}

/// What the operator's console does on `event`: it shows every message,
/// and waits five seconds when the connection has failed.
pub fn console_action(event: &LinkEvent) -> (action: ConsoleAction)
    ensures
        action == console_action_for(*event),
{
    match event {
        LinkEvent::Message(_) => ConsoleAction::Show,
        LinkEvent::Unreadable => ConsoleAction::Notice { failure: true },
        LinkEvent::Connected => ConsoleAction::Notice { failure: false },
        LinkEvent::Subscribed => ConsoleAction::Notice { failure: false },
        LinkEvent::Failed => ConsoleAction::RetryAfter { seconds: RETRY_DELAY_SECONDS },
        LinkEvent::Other => ConsoleAction::Nothing,
    }
}

/// The receiver of a live feed of measurements, with the detector that
/// they run through.
pub struct LiveMonitor {
    detector: AnomalyDetector,
}

impl View for LiveMonitor {
    type V = DetectorView;

    closed spec fn view(&self) -> DetectorView {
        self.detector@
    }
}

impl LiveMonitor {
    /// A receiver whose detector has seen nothing.
    pub fn new(config: AnomalyConfig) -> (monitor: LiveMonitor)
        ensures
            monitor@ == DetectorView::fresh(config),
            monitor@.wf(),
    {
        LiveMonitor { detector: AnomalyDetector::new(config) }
    }

    /// Decides what to do on `event`, which arrived at the instant
    /// `received_at`. A report of a reading becomes a measurement taken
    /// at that instant, runs through the detector and is to be stored
    /// with its verdict. Any other report is to be noted. Once connected,
    /// the receiver subscribes; after a failure it waits five seconds.
    pub fn handle(&mut self, event: LinkEvent, received_at: i64) -> (action: LiveAction)
        requires
            old(self)@.wf(),
        ensures
            final(self)@.wf(),
            match event {
                LinkEvent::Message(
                    DeviceMessage {
                        device,
                        payload: DevicePayload::MeasurementSuccess {
                            co2,
                            temperature,
                            humidity_milli_pct,
                        },
                    },
                ) => {
                    let taken = received_measurement(
                        device,
                        received_at,
                        co2,
                        temperature,
                        humidity_milli_pct,
                    );
                    &&& action matches LiveAction::Store { measurement, flags }
                    &&& measurement == taken
                    &&& flags@ == old(self)@.verdict(taken@.sample())
                    &&& final(self)@ == old(self)@.after(taken@.sample())
                },
                LinkEvent::Message(DeviceMessage { payload, .. }) => {
                    &&& action == (LiveAction::Notice { failure: payload.reports_failure() })
                    &&& final(self)@ == old(self)@
                },
                LinkEvent::Unreadable => {
                    &&& action == (LiveAction::Notice { failure: true })
                    &&& final(self)@ == old(self)@
                },
                LinkEvent::Connected => {
                    &&& action == LiveAction::Subscribe
                    &&& final(self)@ == old(self)@
                },
                LinkEvent::Subscribed => {
                    &&& action == (LiveAction::Notice { failure: false })
                    &&& final(self)@ == old(self)@
                },
                LinkEvent::Failed => {
                    &&& action == (LiveAction::RetryAfter { seconds: RETRY_DELAY_SECONDS })
                    &&& final(self)@ == old(self)@
                },
                LinkEvent::Other => {
                    &&& action == LiveAction::Nothing
                    &&& final(self)@ == old(self)@
                },
            },
    {
        match event {
            LinkEvent::Message(message) => {
                let DeviceMessage { device, payload } = message;
                match payload {
                    DevicePayload::MeasurementSuccess { co2, temperature, humidity_milli_pct } => {
                        let measurement = Measurement::new(
                            device,
                            received_at,
                            co2,
                            whole_degrees_to_milli(temperature),
                            humidity_milli_pct,
                        );
                        let flags = self.detector.analyze_one(&measurement);
                        LiveAction::Store { measurement, flags }
                    },
                    other => LiveAction::Notice { failure: other.is_failure() },
                }
            },
            LinkEvent::Unreadable => LiveAction::Notice { failure: true },
            LinkEvent::Connected => LiveAction::Subscribe,
            LinkEvent::Subscribed => LiveAction::Notice { failure: false },
            LinkEvent::Failed => LiveAction::RetryAfter { seconds: RETRY_DELAY_SECONDS },
            LinkEvent::Other => LiveAction::Nothing,
        }
    }
}

} // verus!
