//! The measurement record and the numeric sample the detector keeps of it.

use vstd::prelude::*;
use crate::calendar::{day_key, day_key_at, hour_at, hour_of_day, DayKey};
use crate::timestamp::{instant_of, parse_row_time, row_time_text, TimestampError};

verus! {

/// One reading of the sensor. `timestamp` is in nanoseconds since the Unix
/// epoch (UTC), `temperature_milli_c` in thousandths of a degree Celsius,
/// `humidity_milli_pct` in thousandths of a percent of relative humidity.
#[derive(Debug, PartialEq, Eq)]
pub struct Measurement {
    pub device: String,
    pub timestamp: i64,
    pub co2_ppm: u16,
    pub temperature_milli_c: i32,
    pub humidity_milli_pct: i32,
}

/// A measurement with the time it was taken at: another name for
/// `Measurement`.
pub type MeasurementWithTime = Measurement;

/// The numbers of a measurement together with the calendar day and the hour
/// of the day of its instant. This is what the detector's state holds; the
/// device name plays no part in any verdict.
#[derive(Clone, Copy, Debug, PartialEq, Eq, Structural)]
pub struct Sample {
    pub timestamp: i64,
    pub day: DayKey,
    pub hour: u8,
    pub co2_ppm: u16,
    pub temperature_milli_c: i32,
    pub humidity_milli_pct: i32,
}

/// A measurement as contracts see it.
pub struct MeasurementView {
    pub device: Seq<char>,
    pub timestamp: i64,
    pub co2_ppm: u16,
    pub temperature_milli_c: i32,
    pub humidity_milli_pct: i32,
}

impl MeasurementView {
    /// The sample of this measurement: its numbers, with the day and hour
    /// that its timestamp falls on.
    pub open spec fn sample(self) -> Sample {
        Sample {
            timestamp: self.timestamp,
            day: day_key_at(self.timestamp),
            hour: hour_at(self.timestamp as int) as u8,
            co2_ppm: self.co2_ppm,
            temperature_milli_c: self.temperature_milli_c,
            humidity_milli_pct: self.humidity_milli_pct,
        }
    }
}

impl View for Measurement {
    type V = MeasurementView;

    open spec fn view(&self) -> MeasurementView {
        MeasurementView {
            device: self.device@,
            timestamp: self.timestamp,
            co2_ppm: self.co2_ppm,
            temperature_milli_c: self.temperature_milli_c,
            humidity_milli_pct: self.humidity_milli_pct,
        }
    }
}

/// The samples of a sequence of measurements, in the same order.
pub open spec fn batch_samples(measurements: Seq<Measurement>) -> Seq<Sample> {
    Seq::new(measurements.len(), |i: int| measurements[i]@.sample())
}

impl Measurement {
    /// A measurement of `device` taken at `timestamp`.
    pub fn new(
        device: String,
        timestamp: i64,
        co2_ppm: u16,
        temperature_milli_c: i32,
        humidity_milli_pct: i32,
    ) -> (m: Measurement)
        ensures
            m.device == device,
            m.timestamp == timestamp,
            m.co2_ppm == co2_ppm,
            m.temperature_milli_c == temperature_milli_c,
            m.humidity_milli_pct == humidity_milli_pct,
    {
        Measurement { device, timestamp, co2_ppm, temperature_milli_c, humidity_milli_pct }
    }

    /// The sample of this measurement. The calendar day comes from
    /// `chrono`; the hour is computed from the timestamp.
    pub fn sample(&self) -> (s: Sample)
        ensures
            s == self@.sample(),
    {
        sample_on(
            day_key(self.timestamp),
            self.timestamp,
            self.co2_ppm,
            self.temperature_milli_c,
            self.humidity_milli_pct,
        )
    }
}

impl Clone for Measurement {
    fn clone(&self) -> (copy: Measurement)
        ensures
            copy == *self,
    {
        Measurement {
            device: self.device.clone(),
            timestamp: self.timestamp,
            co2_ppm: self.co2_ppm,
            temperature_milli_c: self.temperature_milli_c,
            humidity_milli_pct: self.humidity_milli_pct,
        }
    }
}

/// The samples of a batch of measurements, in its order.
pub fn samples_of(measurements: &Vec<Measurement>) -> (samples: Vec<Sample>)
    ensures
        samples@ == batch_samples(measurements@),
{
    let mut samples: Vec<Sample> = Vec::new();
    let mut i: usize = 0;
    while i < measurements.len()
        invariant
            i <= measurements.len(),
            samples@.len() == i,
            forall|k: int| 0 <= k < i ==> samples@[k] == measurements@[k]@.sample(),
        decreases measurements.len() - i,
    {
        samples.push(measurements[i].sample());
        i = i + 1;
    }
    proof {
        assert(samples@ =~= batch_samples(measurements@));
    }
    samples
}

/// The measurement that a row of the time-series store stands for. The
/// store writes the time as text, with or without a `Z` at its end.
pub fn measurement_from_row(
    time: &str,
    device: String,
    co2_ppm: u16,
    temperature_milli_c: i32,
    humidity_milli_pct: i32,
) -> (row: Result<Measurement, TimestampError>)
    ensures
        match row {
            Ok(measurement) => instant_of(row_time_text(time@)) == Ok::<i64, TimestampError>(
                measurement.timestamp,
            ) && measurement == (Measurement {
                device,
                timestamp: measurement.timestamp,
                co2_ppm,
                temperature_milli_c,
                humidity_milli_pct,
            }),
            Err(error) => instant_of(row_time_text(time@)) == Err::<i64, TimestampError>(error),
        },
{
    match parse_row_time(time) {
        Ok(timestamp) => Ok(
            Measurement { device, timestamp, co2_ppm, temperature_milli_c, humidity_milli_pct },
        ),
        Err(error) => Err(error),
    }
}

/// The sample of a reading taken at `timestamp`, on the calendar day `day`.
pub fn sample_on(
    day: DayKey,
    timestamp: i64,
    co2_ppm: u16,
    temperature_milli_c: i32,
    humidity_milli_pct: i32,
) -> (s: Sample)
    ensures
        s == (Sample {
            timestamp,
            day,
            hour: hour_at(timestamp as int) as u8,
            co2_ppm,
            temperature_milli_c,
            humidity_milli_pct,
        }),
{
    Sample {
        timestamp,
        day,
        hour: hour_of_day(timestamp),
        co2_ppm,
        temperature_milli_c,
        humidity_milli_pct,
    }
}

} // verus!
