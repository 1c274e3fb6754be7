//! What a forecast is trained on and fed with: measurements cleared of
//! flagged ones, put in the order of time, and turned into rows of
//! features with the values of one hour later as targets.
//!
//! The rows hold integers: CO2 in parts per million, temperatures in
//! thousandths of a degree Celsius, humidities in thousandths of a
//! percent. Fitting a model to them is left to the caller.

use vstd::prelude::*;
use std::collections::HashSet;
use crate::calendar::{
    hour_at,
    hour_of_day,
    minute_at,
    minute_of_hour,
    minutes_between,
    weekday_at,
    weekday_from_monday,
    whole_minutes,
};
use crate::lag::{find_future, find_past, found_future, found_past};
use crate::measurement::Measurement;
use crate::stats::lemma_insert_to_multiset;
use crate::timestamp::{parse_request_time, request_instant, TimestampError};

verus! {

/// The least number of measurements, after the flagged ones are gone, on
/// which a forecast is trained.
pub const MIN_TRAINING_MEASUREMENTS: usize = 100;

/// The age in whole minutes beyond which the latest measurement is too old
/// for a forecast of the present.
pub const STALE_AFTER_MINUTES: i64 = 30;

/// One row of features: the time of day and week, and for each channel
/// the present value and its change over the last quarter of an hour, the
/// last hour and the last three hours.
#[derive(Clone, Copy, Debug, PartialEq, Eq, Structural)]
pub struct FeatureRow {
    pub hour: i64,
    pub minute: i64,
    pub weekday: i64,
    pub co2: i64,
    pub co2_change_15m: i64,
    pub co2_change_1h: i64,
    pub co2_change_3h: i64,
    pub temperature: i64,
    pub temperature_change_15m: i64,
    pub temperature_change_1h: i64,
    pub temperature_change_3h: i64,
    pub humidity: i64,
    pub humidity_change_15m: i64,
    pub humidity_change_1h: i64,
    pub humidity_change_3h: i64,
}

/// A row of features with what the channels held one hour later.
#[derive(Clone, Copy, Debug, PartialEq, Eq, Structural)]
pub struct TrainingSample {
    pub features: FeatureRow,
    pub future_co2: i64,
    pub future_temperature: i64,
    pub future_humidity: i64,
}

/// Why no forecast can be made.
#[derive(Clone, Copy, Debug, PartialEq, Eq, Structural)]
pub enum ForecastError {
    /// There are no measurements at all.
    NoData,
    /// Fewer than a hundred measurements are left once the flagged ones
    /// are gone.
    NotEnoughData,
    /// No measurement has both a past and a value one hour later.
    NoTrainingSamples,
    /// The hour after the latest measurement is beyond the instants that
    /// can be written down.
    TargetOutOfRange,
    /// The latest measurement lacks one of the measurements a quarter of
    /// an hour, an hour and three hours before it.
    NoContext,
    /// The latest measurement is more than half an hour old.
    Stale,
}

/// A request for a forecast as of the instant that `timestamp` names, in
/// the RFC 3339 format and with or without a zone.
#[derive(Clone, Debug, PartialEq, Eq)]
pub struct PredictionRequest {
    pub timestamp: String,
}

impl PredictionRequest {
    /// The instant asked for.
    pub fn instant(&self) -> (instant: Result<i64, TimestampError>)
        ensures
            instant == request_instant(self.timestamp@),
    {
        parse_request_time(self.timestamp.as_str())
    }
}

/// How far, in minutes, a measurement may lie from the instant forecast
/// to be held against the forecast.
pub const VALIDATION_TOLERANCE_MINUTES: i64 = 5;

/// The span of time around `target` in which a measurement is looked for
/// to hold against the forecast: from five minutes before it to five
/// minutes after it. `None` if an end of the span is beyond the instants
/// that can be written down.
pub fn validation_window(target: i64) -> (window: Option<(i64, i64)>)
    ensures
        match window {
            Some((start, end)) => start == target - 300_000_000_000 && end == target
                + 300_000_000_000,
            None => target - 300_000_000_000 < i64::MIN || target + 300_000_000_000 > i64::MAX,
        },
{
    match target.checked_sub(300_000_000_000) {
        Some(start) => match target.checked_add(300_000_000_000) {
            Some(end) => Some((start, end)),
            None => None,
        },
        None => None,
    }
}

/// All that a forecast needs.
#[derive(Debug, PartialEq, Eq)]
pub struct ForecastPlan {
    /// The samples to train on, in the order of time.
    pub training: Vec<TrainingSample>,
    /// The row to forecast from: that of the latest measurement, with the
    /// time of day and week of the instant forecast.
    pub input: FeatureRow,
    /// The latest measurement.
    pub latest: Measurement,
    /// The instant forecast: one hour after the latest measurement.
    pub target_time: i64,
}

/// A plan as contracts see it.
pub struct ForecastPlanView {
    pub training: Seq<TrainingSample>,
    pub input: FeatureRow,
    pub latest: Measurement,
    pub target_time: i64,
}

impl View for ForecastPlan {
    type V = ForecastPlanView;

    open spec fn view(&self) -> ForecastPlanView {
        ForecastPlanView {
            training: self.training@,
            input: self.input,
            latest: self.latest,
            target_time: self.target_time,
        }
    }
}

/// The measurements whose timestamp is not among `flagged`, in their
/// order.
pub open spec fn unflagged(measurements: Seq<Measurement>, flagged: Set<i64>) -> Seq<Measurement>
    decreases measurements.len(),
{
    if measurements.len() == 0 {
        Seq::empty()
    } else {
        let rest = unflagged(measurements.drop_last(), flagged);
        if flagged.contains(measurements.last().timestamp) {
            rest
        } else {
            rest.push(measurements.last())
        }
    }
}

/// Where, among the first `upper` of `sorted`, a measurement taken at
/// `timestamp` goes: behind the last of them that is not newer.
pub open spec fn slot_below(sorted: Seq<Measurement>, timestamp: i64, upper: int) -> int
    decreases upper,
{
    if upper <= 0 {
        0
    } else if sorted[upper - 1].timestamp <= timestamp {
        upper
    } else {
        slot_below(sorted, timestamp, upper - 1)
    }
}

/// The measurements in the order of time; those of the same instant keep
/// the order they came in.
pub open spec fn time_sorted(measurements: Seq<Measurement>) -> Seq<Measurement>
    decreases measurements.len(),
{
    if measurements.len() == 0 {
        Seq::empty()
    } else {
        let rest = time_sorted(measurements.drop_last());
        rest.insert(
            slot_below(rest, measurements.last().timestamp, rest.len() as int),
            measurements.last(),
        )
    }
}

/// No measurement stands before an older one.
pub open spec fn ordered_by_time(measurements: Seq<Measurement>) -> bool {
    forall|i: int, j: int|
        0 <= i <= j < measurements.len() ==> (#[trigger] measurements[i]).timestamp <= (
        #[trigger] measurements[j]).timestamp
}

/// The slot lies within the part looked at, behind an entry that is not
/// newer and before every entry that is newer.
pub proof fn lemma_slot_below(sorted: Seq<Measurement>, timestamp: i64, upper: int)
    requires
        0 <= upper <= sorted.len(),
    ensures
        ({
            let slot = slot_below(sorted, timestamp, upper);
            &&& 0 <= slot <= upper
            &&& slot > 0 ==> sorted[slot - 1].timestamp <= timestamp
            &&& forall|i: int| slot <= i < upper ==> (#[trigger] sorted[i]).timestamp > timestamp
        }),
    decreases upper,
{
    if upper > 0 && sorted[upper - 1].timestamp > timestamp {
        lemma_slot_below(sorted, timestamp, upper - 1);
    }
}

/// Sorting keeps every measurement, as often as it was there, and puts
/// them in the order of time.
pub proof fn lemma_time_sorted(measurements: Seq<Measurement>)
    ensures
        time_sorted(measurements).len() == measurements.len(),
        ordered_by_time(time_sorted(measurements)),
        time_sorted(measurements).to_multiset() =~= measurements.to_multiset(),
    decreases measurements.len(),
{
    broadcast use vstd::multiset::group_multiset_axioms;

    if measurements.len() > 0 {
        let last = measurements.last();
        let rest = time_sorted(measurements.drop_last());
        lemma_time_sorted(measurements.drop_last());
        lemma_slot_below(rest, last.timestamp, rest.len() as int);
        let slot = slot_below(rest, last.timestamp, rest.len() as int);
        let sorted = rest.insert(slot, last);
        assert forall|i: int, j: int| 0 <= i <= j < sorted.len() implies (
        #[trigger] sorted[i]).timestamp <= (#[trigger] sorted[j]).timestamp by {
            if i < slot && j < slot {
                assert(rest[i].timestamp <= rest[j].timestamp);
            } else if i < slot && j == slot {
                assert(rest[i].timestamp <= rest[slot - 1].timestamp);
            } else if i < slot && j > slot {
                assert(rest[i].timestamp <= rest[j - 1].timestamp);
            } else if i == slot && j > slot {
                assert(rest[j - 1].timestamp > last.timestamp);
            } else if i > slot {
                assert(rest[i - 1].timestamp <= rest[j - 1].timestamp);
            }
        }
        lemma_insert_to_multiset(rest, slot, last);
        measurements.drop_last().to_multiset_ensures();
        assert(measurements =~= measurements.drop_last().push(last));
        assert(measurements.to_multiset() =~= measurements.drop_last().to_multiset().insert(last));
    } else {
        assert(measurements =~= Seq::<Measurement>::empty());
    }
}

/// The row of features of `current`, given the measurements a quarter of
/// an hour, an hour and three hours before it and the instant `clock`
/// whose time of day and week the row is to carry.
pub open spec fn feature_row(
    clock: int,
    current: Measurement,
    quarter: Measurement,
    hour: Measurement,
    three_hours: Measurement,
) -> FeatureRow {
    FeatureRow {
        hour: hour_at(clock) as i64,
        minute: minute_at(clock) as i64,
        weekday: weekday_at(clock) as i64,
        co2: current.co2_ppm as i64,
        co2_change_15m: (current.co2_ppm - quarter.co2_ppm) as i64,
        co2_change_1h: (current.co2_ppm - hour.co2_ppm) as i64,
        co2_change_3h: (current.co2_ppm - three_hours.co2_ppm) as i64,
        temperature: current.temperature_milli_c as i64,
        temperature_change_15m: (current.temperature_milli_c - quarter.temperature_milli_c) as i64,
        temperature_change_1h: (current.temperature_milli_c - hour.temperature_milli_c) as i64,
        temperature_change_3h: (current.temperature_milli_c - three_hours.temperature_milli_c) as i64,
        humidity: current.humidity_milli_pct as i64,
        humidity_change_15m: (current.humidity_milli_pct - quarter.humidity_milli_pct) as i64,
        humidity_change_1h: (current.humidity_milli_pct - hour.humidity_milli_pct) as i64,
        humidity_change_3h: (current.humidity_milli_pct - three_hours.humidity_milli_pct) as i64,
    }
}

/// The row of features of the measurement at `index`, if the measurements
/// a quarter of an hour, an hour and three hours before it are all found.
pub open spec fn context_row(measurements: Seq<Measurement>, index: int, clock: int) -> Option<
    FeatureRow,
> {
    let current = measurements[index];
    match (
        found_past(measurements, current.timestamp, 15, index),
        found_past(measurements, current.timestamp, 60, index),
        found_past(measurements, current.timestamp, 180, index),
    ) {
        (Some(quarter), Some(hour), Some(three_hours)) => Some(
            feature_row(
                clock,
                current,
                measurements[quarter],
                measurements[hour],
                measurements[three_hours],
            ),
        ),
        _ => None,
    }
}

/// The training sample of the measurement at `index`, if the measurement
/// one hour after it and those before it are all found.
pub open spec fn training_sample_at(measurements: Seq<Measurement>, index: int) -> Option<
    TrainingSample,
> {
    match found_future(measurements, index) {
        Some(future) => match context_row(
            measurements,
            index,
            measurements[index].timestamp as int,
        ) {
            Some(features) => Some(
                TrainingSample {
                    features,
                    future_co2: measurements[future].co2_ppm as i64,
                    future_temperature: measurements[future].temperature_milli_c as i64,
                    future_humidity: measurements[future].humidity_milli_pct as i64,
                },
            ),
            None => None,
        },
        None => None,
    }
}

/// The training samples of the first `upto` measurements, in their order.
pub open spec fn training_samples(measurements: Seq<Measurement>, upto: int) -> Seq<TrainingSample>
    decreases upto,
{
    if upto <= 0 {
        Seq::empty()
    } else {
        let rest = training_samples(measurements, upto - 1);
        match training_sample_at(measurements, upto - 1) {
            Some(sample) => rest.push(sample),
            None => rest,
        }
    }
}

/// Whether a measurement taken at `latest` is too old at the instant
/// `now`.
pub open spec fn stale_at(now: i64, latest: i64) -> bool {
    whole_minutes(now - latest) > STALE_AFTER_MINUTES
}

/// The plan for a forecast from `measurements`, of which those taken at
/// an instant in `flagged` do not count. `now` is given where the present
/// is to be forecast; then the latest measurement must be fresh.
pub open spec fn forecast_plan(measurements: Seq<Measurement>, flagged: Set<i64>, now: Option<i64>)
    -> Result<ForecastPlanView, ForecastError> {
    let kept = unflagged(measurements, flagged);
    let sorted = time_sorted(kept);
    let training = training_samples(sorted, sorted.len() as int);
    let latest = sorted.last();
    let target = latest.timestamp + 3_600_000_000_000;
    if measurements.len() == 0 {
        Err(ForecastError::NoData)
    } else if kept.len() < MIN_TRAINING_MEASUREMENTS {
        Err(ForecastError::NotEnoughData)
    } else if training.len() == 0 {
        Err(ForecastError::NoTrainingSamples)
    } else if target > i64::MAX {
        Err(ForecastError::TargetOutOfRange)
    } else {
        match context_row(sorted, sorted.len() - 1, target) {
            None => Err(ForecastError::NoContext),
            Some(input) => if now.is_some() && stale_at(now.unwrap(), latest.timestamp) {
                Err(ForecastError::Stale)
            } else {
                Ok(ForecastPlanView { training, input, latest, target_time: target as i64 })
            },
        }
    }
}

/// The measurements whose timestamp is not among `flagged`, in their
/// order.
pub fn without_flagged(measurements: &Vec<Measurement>, flagged: &HashSet<i64>) -> (kept: Vec<
    Measurement,
>)
    ensures
        kept@ == unflagged(measurements@, flagged@),
{
    broadcast use vstd::std_specs::hash::group_hash_axioms;

    let mut kept: Vec<Measurement> = Vec::new();
    let mut i: usize = 0;
    while i < measurements.len()
        invariant
            i <= measurements.len(),
            kept@ == unflagged(measurements@.take(i as int), flagged@),
        decreases measurements.len() - i,
    {
        proof {
            assert(measurements@.take(i + 1).drop_last() =~= measurements@.take(i as int));
        }
        if !flagged.contains(&measurements[i].timestamp) {
            kept.push(measurements[i].clone());
        }
        i = i + 1;
    }
    proof {
        assert(measurements@.take(i as int) =~= measurements@);
    }
    kept
}

/// The measurements in the order of time; those of the same instant keep
/// the order they came in.
pub fn sort_by_time(measurements: &Vec<Measurement>) -> (sorted: Vec<Measurement>)
    ensures
        sorted@ == time_sorted(measurements@),
        sorted@.len() == measurements@.len(),
        ordered_by_time(sorted@),
{
    let mut sorted: Vec<Measurement> = Vec::new();
    let mut i: usize = 0;
    proof {
        assert(measurements@.take(0) =~= Seq::<Measurement>::empty());
    }
    while i < measurements.len()
        invariant
            i <= measurements.len(),
            sorted@ == time_sorted(measurements@.take(i as int)),
            sorted@.len() == i,
        decreases measurements.len() - i,
    {
        let timestamp = measurements[i].timestamp;
        let mut slot: usize = sorted.len();
        while slot > 0 && sorted[slot - 1].timestamp > timestamp
            invariant
                slot <= sorted.len(),
                slot_below(sorted@, timestamp, slot as int) == slot_below(
                    sorted@,
                    timestamp,
                    sorted@.len() as int,
                ),
            decreases slot,
        {
            slot = slot - 1;
        }
        proof {
            assert(measurements@.take(i + 1).drop_last() =~= measurements@.take(i as int));
        }
        sorted.insert(slot, measurements[i].clone());
        i = i + 1;
    }
    proof {
        assert(measurements@.take(i as int) =~= measurements@);
        lemma_time_sorted(measurements@);
    }
    sorted
}

/// The row of features of the measurement at `index`, with the time of
/// day and week of the instant `clock`, or `None` if one of the
/// measurements a quarter of an hour, an hour and three hours before it
/// is not found.
pub fn features_at(measurements: &Vec<Measurement>, index: usize, clock: i64) -> (row: Option<
    FeatureRow,
>)
    requires
        index < measurements@.len(),
    ensures
        row == context_row(measurements@, index as int, clock as int),
{
    let current = &measurements[index];
    let quarter = match find_past(measurements, current.timestamp, 15, index) {
        Some(found) => &measurements[found],
        None => {
            return None;
        },
    };
    let hour = match find_past(measurements, current.timestamp, 60, index) {
        Some(found) => &measurements[found],
        None => {
            return None;
        },
    };
    let three_hours = match find_past(measurements, current.timestamp, 180, index) {
        Some(found) => &measurements[found],
        None => {
            return None;
        },
    };
    Some(
        FeatureRow {
            hour: hour_of_day(clock) as i64,
            minute: minute_of_hour(clock) as i64,
            weekday: weekday_from_monday(clock) as i64,
            co2: current.co2_ppm as i64,
            co2_change_15m: current.co2_ppm as i64 - quarter.co2_ppm as i64,
            co2_change_1h: current.co2_ppm as i64 - hour.co2_ppm as i64,
            co2_change_3h: current.co2_ppm as i64 - three_hours.co2_ppm as i64,
            temperature: current.temperature_milli_c as i64,
            temperature_change_15m: current.temperature_milli_c as i64
                - quarter.temperature_milli_c as i64,
            temperature_change_1h: current.temperature_milli_c as i64
                - hour.temperature_milli_c as i64,
            temperature_change_3h: current.temperature_milli_c as i64
                - three_hours.temperature_milli_c as i64,
            humidity: current.humidity_milli_pct as i64,
            humidity_change_15m: current.humidity_milli_pct as i64
                - quarter.humidity_milli_pct as i64,
            humidity_change_1h: current.humidity_milli_pct as i64 - hour.humidity_milli_pct as i64,
            humidity_change_3h: current.humidity_milli_pct as i64
                - three_hours.humidity_milli_pct as i64,
        },
    )
}

/// The training samples of `measurements`, which are in the order of
/// time: one for every measurement that has a measurement one hour after
/// it and measurements a quarter of an hour, an hour and three hours
/// before it.
pub fn build_training_set(measurements: &Vec<Measurement>) -> (samples: Vec<TrainingSample>)
    ensures
        samples@ == training_samples(measurements@, measurements@.len() as int),
{
    let mut samples: Vec<TrainingSample> = Vec::new();
    let mut i: usize = 0;
    while i < measurements.len()
        invariant
            i <= measurements.len(),
            samples@ == training_samples(measurements@, i as int),
        decreases measurements.len() - i,
    {
        match find_future(measurements, i) {
            Some(future) => {
                match features_at(measurements, i, measurements[i].timestamp) {
                    Some(features) => {
                        let later = &measurements[future];
                        samples.push(
                            TrainingSample {
                                features,
                                future_co2: later.co2_ppm as i64,
                                future_temperature: later.temperature_milli_c as i64,
                                future_humidity: later.humidity_milli_pct as i64,
                            },
                        );
                    },
                    None => {},
                }
            },
            None => {},
        }
        i = i + 1;
    }
    samples
}

/// Whether a measurement taken at `latest` is too old at the instant
/// `now`: more than thirty whole minutes old.
pub fn is_stale(now: i64, latest: i64) -> (stale: bool)
    ensures
        stale == stale_at(now, latest),
{
    minutes_between(now, latest) > STALE_AFTER_MINUTES
}

/// Prepares a forecast from `measurements`, of which those taken at an
/// instant in `flagged` do not count. Where `now` is given, the present
/// is to be forecast and the latest measurement must not be stale.
pub fn plan_forecast(measurements: &Vec<Measurement>, flagged: &HashSet<i64>, now: Option<i64>)
    -> (plan: Result<ForecastPlan, ForecastError>)
    ensures
        match plan {
            Ok(made) => forecast_plan(measurements@, flagged@, now) == Ok::<
                ForecastPlanView,
                ForecastError,
            >(made@),
            Err(error) => forecast_plan(measurements@, flagged@, now) == Err::<
                ForecastPlanView,
                ForecastError,
            >(error),
        },
{
    if measurements.len() == 0 {
        return Err(ForecastError::NoData);
    }
    let kept = without_flagged(measurements, flagged);
    if kept.len() < MIN_TRAINING_MEASUREMENTS {
        return Err(ForecastError::NotEnoughData);
    }
    let sorted = sort_by_time(&kept);
    let training = build_training_set(&sorted);
    if training.len() == 0 {
        return Err(ForecastError::NoTrainingSamples);
    }
    let last: usize = sorted.len() - 1;
    let latest = sorted[last].clone();
    let target_time: i64 = match latest.timestamp.checked_add(3_600_000_000_000) {
        Some(target) => target,
        None => {
            return Err(ForecastError::TargetOutOfRange);
        },
    };
    let input = match features_at(&sorted, last, target_time) {
        Some(row) => row,
        None => {
            return Err(ForecastError::NoContext);
        },
    };
    match now {
        Some(present) => {
            if is_stale(present, latest.timestamp) {
                return Err(ForecastError::Stale);
            }
        },
        None => {},
    }
    Ok(ForecastPlan { training, input, latest, target_time })
}

} // verus!
