//! The thresholds of the detector.

use vstd::prelude::*;

verus! {

/// The channel of a measurement that a statistical test looks at.
#[derive(Clone, Copy, Debug, PartialEq, Eq, Structural)]
pub enum Channel {
    Temperature,
    Humidity,
    Co2,
}

/// All thresholds of the detector. Supplied once when a detector is made
/// and never changed by it.
///
/// Humidities are in thousandths of a percent, temperatures in thousandths
/// of a degree Celsius, CO2 in parts per million, z-scores in thousandths
/// of a standard deviation.
#[derive(Clone, Copy, Debug, PartialEq, Eq, Structural)]
pub struct AnomalyConfig {
    /// A humidity at or below this is an anomaly without further evidence.
    pub humidity_definite_anomaly: i32,
    /// A humidity at or below this is an anomaly if the temperature agrees.
    pub humidity_suspicious: i32,
    /// The rise over the baseline from which a temperature counts as a spike.
    pub temp_above_daily_min: i32,
    /// No temperature below this is ever called a spike.
    pub temp_absolute_min_for_spike: i32,
    /// First hour of the day that counts as daylight.
    pub daylight_start_hour: u8,
    /// Last hour of the day that counts as daylight.
    pub daylight_end_hour: u8,
    /// A CO2 concentration at or above this is a spike.
    pub co2_spike_threshold: u32,
    /// The number of standard deviations, in thousandths, that a
    /// temperature must be away from the rolling mean.
    pub z_score_temperature: u16,
    /// The same for humidity.
    pub z_score_humidity: u16,
    /// The same for CO2.
    pub z_score_co2: u16,
    /// The least distance from the rolling mean, in thousandths of a degree,
    /// that the rolling test takes for a temperature anomaly.
    pub min_abs_delta_temperature: u32,
    /// The same for humidity, in thousandths of a percent.
    pub min_abs_delta_humidity: u32,
    /// The same for CO2, in parts per million.
    pub min_abs_delta_co2: u32,
    /// How many of the most recent samples the rolling test looks at.
    pub rolling_window_size: u16,
    /// Whether the detector adds the verdicts of the rolling test to those
    /// of the staged rules.
    pub rolling_enabled: bool,
    /// How far back, in seconds, the store of recent samples reaches from
    /// the sample inserted last.
    pub window_horizon_seconds: u32,
}

/// The configuration that `AnomalyConfig::default` returns.
pub open spec fn default_config() -> AnomalyConfig {
    AnomalyConfig {
        humidity_definite_anomaly: 55_000,
        humidity_suspicious: 65_000,
        temp_above_daily_min: 8_000,
        temp_absolute_min_for_spike: 12_000,
        daylight_start_hour: 6,
        daylight_end_hour: 18,
        co2_spike_threshold: 700,
        z_score_temperature: 3_000,
        z_score_humidity: 3_000,
        z_score_co2: 3_000,
        min_abs_delta_temperature: 1_000,
        min_abs_delta_humidity: 5_000,
        min_abs_delta_co2: 50,
        rolling_window_size: 20,
        rolling_enabled: false,
        window_horizon_seconds: 86_400,
    }
}

impl AnomalyConfig {
    /// Whether `hour` lies within the daylight hours, both ends included.
    pub open spec fn is_daylight(&self, hour: u8) -> bool {
        self.daylight_start_hour <= hour && hour <= self.daylight_end_hour
    }

    /// Whether `hour` lies within the daylight hours, both ends included.
    pub fn daylight(&self, hour: u8) -> (lit: bool)
        ensures
            lit == self.is_daylight(hour),
    {
        self.daylight_start_hour <= hour && hour <= self.daylight_end_hour
    }

    /// The z-score threshold of `channel`, in thousandths.
    pub open spec fn z_score_of(&self, channel: Channel) -> u16 {
        match channel {
            Channel::Temperature => self.z_score_temperature,
            Channel::Humidity => self.z_score_humidity,
            Channel::Co2 => self.z_score_co2,
        }
    }

    /// The z-score threshold of `channel`, in thousandths.
    pub fn z_score(&self, channel: Channel) -> (z: u16)
        ensures
            z == self.z_score_of(channel),
    {
        match channel {
            Channel::Temperature => self.z_score_temperature,
            Channel::Humidity => self.z_score_humidity,
            Channel::Co2 => self.z_score_co2,
        }
    }

    /// The least absolute deviation that counts on `channel`.
    pub open spec fn min_abs_delta_of(&self, channel: Channel) -> u32 {
        match channel {
            Channel::Temperature => self.min_abs_delta_temperature,
            Channel::Humidity => self.min_abs_delta_humidity,
            Channel::Co2 => self.min_abs_delta_co2,
        }
    }

    /// The least absolute deviation that counts on `channel`.
    pub fn min_abs_delta(&self, channel: Channel) -> (delta: u32)
        ensures
            delta == self.min_abs_delta_of(channel),
    {
        match channel {
            Channel::Temperature => self.min_abs_delta_temperature,
            Channel::Humidity => self.min_abs_delta_humidity,
            Channel::Co2 => self.min_abs_delta_co2,
        }
    }
}

impl Default for AnomalyConfig {
    /// Humidity cutoffs of 55 % and 65 %, a rise of 8 degrees over the
    /// baseline, no spike below 12 degrees, daylight from hour 6 to hour
    /// 18, CO2 from 700 ppm; for the rolling test three standard
    /// deviations on every channel, least deviations of 1 degree, 5 % and
    /// 50 ppm over the last 20 samples, switched off; a store of recent
    /// samples that reaches back one day.
    fn default() -> (config: AnomalyConfig)
        ensures
            config == default_config(),
    {
        AnomalyConfig {
            humidity_definite_anomaly: 55_000,
            humidity_suspicious: 65_000,
            temp_above_daily_min: 8_000,
            temp_absolute_min_for_spike: 12_000,
            daylight_start_hour: 6,
            daylight_end_hour: 18,
            co2_spike_threshold: 700,
            z_score_temperature: 3_000,
            z_score_humidity: 3_000,
            z_score_co2: 3_000,
            min_abs_delta_temperature: 1_000,
            min_abs_delta_humidity: 5_000,
            min_abs_delta_co2: 50,
            rolling_window_size: 20,
            rolling_enabled: false,
            window_horizon_seconds: 86_400,
        }
    }
}

} // verus!
