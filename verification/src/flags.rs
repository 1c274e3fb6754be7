//! The verdict on one measurement: four indicators and the reason for them.

use vstd::prelude::*;

verus! {

/// The verdict on one measurement. The indicators are independent of one
/// another, except that `possible_sunlight` is derived from the others and
/// the hour of the day. `reason` names, in words, every rule that fired;
/// it is empty when none did.
#[derive(Debug, PartialEq, Eq)]
pub struct AnomalyFlags {
    pub temperature_spike: bool,
    pub humidity_spike: bool,
    pub co2_spike: bool,
    pub possible_sunlight: bool,
    pub reason: String,
}

/// A verdict as contracts see it.
pub struct FlagsView {
    pub temperature_spike: bool,
    pub humidity_spike: bool,
    pub co2_spike: bool,
    pub possible_sunlight: bool,
    pub reason: Seq<char>,
}

impl View for AnomalyFlags {
    type V = FlagsView;

    open spec fn view(&self) -> FlagsView {
        FlagsView {
            temperature_spike: self.temperature_spike,
            humidity_spike: self.humidity_spike,
            co2_spike: self.co2_spike,
            possible_sunlight: self.possible_sunlight,
            reason: self.reason@,
        }
    }
}

/// What each of the staged rules found for one measurement.
#[derive(Clone, Copy, Debug, PartialEq, Eq, Structural)]
pub struct StageOutcome {
    /// The humidity is at or below the definite cutoff.
    pub definite_humidity: bool,
    /// The humidity is suspicious and the temperature has risen over the
    /// baseline.
    pub corroborated_humidity: bool,
    /// The humidity is suspicious, there is no baseline, and it is a warm
    /// hour of daylight.
    pub unconfirmed_humidity: bool,
    /// The temperature has risen over the baseline in daylight, and the
    /// humidity rule has not already said so.
    pub independent_temperature: bool,
    /// The CO2 concentration is at or above its threshold.
    pub co2_over_threshold: bool,
    /// Sunlight on the sensor may explain the reading.
    pub sunlight: bool,
}

/// What the rolling statistical test found on each channel.
#[derive(Clone, Copy, Debug, PartialEq, Eq, Structural)]
pub struct RollingOutcome {
    pub temperature: bool,
    pub humidity: bool,
    pub co2: bool,
}

/// `text` if `on`, else nothing.
pub open spec fn clause(on: bool, text: Seq<char>) -> Seq<char> {
    if on {
        text
    } else {
        Seq::empty()
    }
}

/// Two reasons as one: the one that is not empty, or both with "; "
/// between them.
pub open spec fn joined(first: Seq<char>, second: Seq<char>) -> Seq<char> {
    if first.len() == 0 {
        second
    } else if second.len() == 0 {
        first
    } else {
        first + "; "@ + second
    }
}

impl FlagsView {
    /// No indicator set and no reason.
    pub open spec fn none() -> FlagsView {
        FlagsView {
            temperature_spike: false,
            humidity_spike: false,
            co2_spike: false,
            possible_sunlight: false,
            reason: Seq::empty(),
        }
    }

    /// Whether any indicator is set.
    pub open spec fn any(self) -> bool {
        self.temperature_spike || self.humidity_spike || self.co2_spike || self.possible_sunlight
    }

    /// Each indicator set that is set in either verdict, with both reasons.
    pub open spec fn or(self, other: FlagsView) -> FlagsView {
        FlagsView {
            temperature_spike: self.temperature_spike || other.temperature_spike,
            humidity_spike: self.humidity_spike || other.humidity_spike,
            co2_spike: self.co2_spike || other.co2_spike,
            possible_sunlight: self.possible_sunlight || other.possible_sunlight,
            reason: joined(self.reason, other.reason),
        }
    }

    /// The name of the first indicator that is set, in the order
    /// temperature, humidity, CO2, sunlight; empty if none is.
    pub open spec fn headline(self) -> Seq<char> {
        if self.temperature_spike {
            "Temperature Spike"@
        } else if self.humidity_spike {
            "Humidity Spike"@
        } else if self.co2_spike {
            "CO2 Spike"@
        } else if self.possible_sunlight {
            "Possible Sunlight"@
        } else {
            Seq::empty()
        }
    }

    /// The verdict that the staged rules' findings amount to.
    pub open spec fn of_stages(outcome: StageOutcome) -> FlagsView {
        FlagsView {
            temperature_spike: outcome.corroborated_humidity || outcome.independent_temperature,
            humidity_spike: outcome.definite_humidity || outcome.corroborated_humidity
                || outcome.unconfirmed_humidity,
            co2_spike: outcome.co2_over_threshold,
            possible_sunlight: outcome.sunlight,
            reason: joined(
                joined(
                    joined(
                        joined(
                            joined(
                                clause(
                                    outcome.definite_humidity,
                                    "humidity at or below the definite cutoff"@,
                                ),
                                clause(
                                    outcome.corroborated_humidity,
                                    "low humidity confirmed by a temperature rise over the baseline"@,
                                ),
                            ),
                            clause(
                                outcome.unconfirmed_humidity,
                                "low humidity in warm daylight without a baseline"@,
                            ),
                        ),
                        clause(
                            outcome.independent_temperature,
                            "temperature rise over the baseline in daylight"@,
                        ),
                    ),
                    clause(outcome.co2_over_threshold, "CO2 at or above the threshold"@),
                ),
                clause(outcome.sunlight, "possible direct sunlight"@),
            ),
        }
    }

    /// The verdict that the rolling test's findings amount to. It never
    /// speaks of sunlight.
    pub open spec fn of_rolling(outcome: RollingOutcome) -> FlagsView {
        FlagsView {
            temperature_spike: outcome.temperature,
            humidity_spike: outcome.humidity,
            co2_spike: outcome.co2,
            possible_sunlight: false,
            reason: joined(
                joined(
                    clause(outcome.temperature, "temperature far from its rolling mean"@),
                    clause(outcome.humidity, "humidity far from its rolling mean"@),
                ),
                clause(outcome.co2, "CO2 far from its rolling mean"@),
            ),
        }
    }
}

/// Adds `text` to `reason` if `on`.
fn add_clause(reason: &mut String, on: bool, text: &str)
    ensures
        final(reason)@ == joined(old(reason)@, clause(on, text@)),
{
    if on && !text.is_empty() {
        if !reason.as_str().is_empty() {
            reason.append("; ");
        }
        reason.append(text);
    }
}

impl AnomalyFlags {
    /// Whether any indicator is set.
    pub fn is_any_true(&self) -> (any: bool)
        ensures
            any == self@.any(),
    {
        self.temperature_spike || self.humidity_spike || self.co2_spike || self.possible_sunlight
    }

    /// The verdict with each indicator set that is set in `self` or in
    /// `other`, and with both reasons.
    pub fn or(&self, other: &AnomalyFlags) -> (both: AnomalyFlags)
        ensures
            both@ == self@.or(other@),
    {
        let mut reason = String::from_str(self.reason.as_str());
        add_clause(&mut reason, true, other.reason.as_str());
        AnomalyFlags {
            temperature_spike: self.temperature_spike || other.temperature_spike,
            humidity_spike: self.humidity_spike || other.humidity_spike,
            co2_spike: self.co2_spike || other.co2_spike,
            possible_sunlight: self.possible_sunlight || other.possible_sunlight,
            reason,
        }
    }

    /// The name of the first indicator that is set, in the order
    /// temperature, humidity, CO2, sunlight; empty if none is.
    pub fn headline(&self) -> (text: String)
        ensures
            text@ == self@.headline(),
    {
        if self.temperature_spike {
            String::from_str("Temperature Spike")
        } else if self.humidity_spike {
            String::from_str("Humidity Spike")
        } else if self.co2_spike {
            String::from_str("CO2 Spike")
        } else if self.possible_sunlight {
            String::from_str("Possible Sunlight")
        } else {
            String::new()
        }
    }

    /// The verdict that the staged rules' findings amount to.
    pub fn from_stages(outcome: StageOutcome) -> (flags: AnomalyFlags)
        ensures
            flags@ == FlagsView::of_stages(outcome),
    {
        let mut reason = String::new();
        add_clause(&mut reason, outcome.definite_humidity, "humidity at or below the definite cutoff");
        add_clause(
            &mut reason,
            outcome.corroborated_humidity,
            "low humidity confirmed by a temperature rise over the baseline",
        );
        add_clause(
            &mut reason,
            outcome.unconfirmed_humidity,
            "low humidity in warm daylight without a baseline",
        );
        add_clause(
            &mut reason,
            outcome.independent_temperature,
            "temperature rise over the baseline in daylight",
        );
        add_clause(&mut reason, outcome.co2_over_threshold, "CO2 at or above the threshold");
        add_clause(&mut reason, outcome.sunlight, "possible direct sunlight");
        AnomalyFlags {
            temperature_spike: outcome.corroborated_humidity || outcome.independent_temperature,
            humidity_spike: outcome.definite_humidity || outcome.corroborated_humidity
                || outcome.unconfirmed_humidity,
            co2_spike: outcome.co2_over_threshold,
            possible_sunlight: outcome.sunlight,
            reason,
        }
    }

    /// The verdict that the rolling test's findings amount to.
    pub fn from_rolling(outcome: RollingOutcome) -> (flags: AnomalyFlags)
        ensures
            flags@ == FlagsView::of_rolling(outcome),
    {
        let mut reason = String::new();
        add_clause(&mut reason, outcome.temperature, "temperature far from its rolling mean");
        add_clause(&mut reason, outcome.humidity, "humidity far from its rolling mean");
        add_clause(&mut reason, outcome.co2, "CO2 far from its rolling mean");
        AnomalyFlags {
            temperature_spike: outcome.temperature,
            humidity_spike: outcome.humidity,
            co2_spike: outcome.co2,
            possible_sunlight: false,
            reason,
        }
    }
}

impl Default for AnomalyFlags {
    /// No indicator set and no reason.
    fn default() -> (flags: AnomalyFlags)
        ensures
            flags@ == FlagsView::none(),
    {
        AnomalyFlags {
            temperature_spike: false,
            humidity_spike: false,
            co2_spike: false,
            possible_sunlight: false,
            reason: String::new(),
        }
    }
}

impl Clone for AnomalyFlags {
    fn clone(&self) -> (copy: AnomalyFlags)
        ensures
            copy == *self,
    {
        AnomalyFlags {
            temperature_spike: self.temperature_spike,
            humidity_spike: self.humidity_spike,
            co2_spike: self.co2_spike,
            possible_sunlight: self.possible_sunlight,
            reason: self.reason.clone(),
        }
    }
}

} // verus!
