use std::collections::HashSet;

use air_quality::forecast::{
    build_training_set, features_at, is_stale, plan_forecast, sort_by_time, validation_window,
    without_flagged, FeatureRow, ForecastError, PredictionRequest, TrainingSample,
    MIN_TRAINING_MEASUREMENTS, STALE_AFTER_MINUTES,
};
use air_quality::lag::{find_future, find_past, LOOKBACK_LIMIT};
use air_quality::measurement::Measurement;
use air_quality::timestamp::TimestampError;

const NOV_17_2025_0915: i64 = 1_763_370_900_000_000_000;
const MINUTE: i64 = 60_000_000_000;
const SECOND: i64 = 1_000_000_000;

fn measurement(timestamp: i64, temperature: i32, humidity: i32, co2: u16) -> Measurement {
    Measurement::new("esp32-scd40".to_string(), timestamp, co2, temperature, humidity)
}

/// One measurement every five minutes from `start`; the values rise and
/// fall evenly with the index.
fn series_from(start: i64, count: i64) -> Vec<Measurement> {
    (0..count)
        .map(|i| measurement(start + i * 5 * MINUTE, 20_000 + 10 * i as i32, 40_000 - 5 * i as i32, 400 + i as u16))
        .collect()
}

fn series(count: i64) -> Vec<Measurement> {
    series_from(NOV_17_2025_0915, count)
}

fn at(times: &[i64]) -> Vec<Measurement> {
    times.iter().map(|t| measurement(*t, 0, 0, 0)).collect()
}

#[test]
fn find_past_takes_the_latest_within_ten_whole_minutes() {
    let data = series(50);
    let now = data[40].timestamp;
    assert_eq!(find_past(&data, now, 15, 40), Some(39));
    assert_eq!(find_past(&data, now, 60, 40), Some(30));
    assert_eq!(find_past(&data, now, 180, 40), Some(6));
    assert_eq!(find_past(&data, now, 0, 40), Some(39));
    assert_eq!(find_past(&data, now, 0, 0), None);
    assert_eq!(find_past(&data, now, 15, 50), Some(39));
}

#[test]
fn find_past_stops_where_the_measurements_are_too_old() {
    let data = series(50);
    let now = data[40].timestamp;
    assert_eq!(find_past(&data, now + 31 * MINUTE, 0, 40), None);
    assert_eq!(find_past(&data, now - MINUTE, 215, 40), None);
    assert_eq!(find_past(&data, now, 200, 40), Some(2));
    assert_eq!(find_past(&data, now, 211, 40), None);
}

#[test]
fn find_past_tolerance_is_in_whole_minutes() {
    let data = at(&[0, 100 * MINUTE]);
    assert_eq!(find_past(&data, 10 * MINUTE + 59 * SECOND, 0, 1), Some(0));
    assert_eq!(find_past(&data, 11 * MINUTE, 0, 1), None);
    let ahead = at(&[11 * MINUTE - 1, 100 * MINUTE]);
    assert_eq!(find_past(&ahead, 0, 0, 1), Some(0));
    let further = at(&[11 * MINUTE, 100 * MINUTE]);
    assert_eq!(find_past(&further, 0, 0, 1), None);
}

#[test]
fn find_past_goes_back_four_hundred_measurements_at_most() {
    assert_eq!(LOOKBACK_LIMIT, 400);
    let mut times = vec![0];
    times.extend(std::iter::repeat(15 * MINUTE).take(400));
    let data = at(&times);
    assert_eq!(find_past(&data, 0, 0, 400), Some(0));
    assert_eq!(find_past(&data, 0, 0, 401), None);
}

#[test]
fn find_future_takes_the_first_within_five_whole_minutes_of_the_hour() {
    let data = series(50);
    assert_eq!(find_future(&data, 0), Some(11));
    assert_eq!(find_future(&data, 30), Some(41));
    assert_eq!(find_future(&data, 38), Some(49));
    assert_eq!(find_future(&data, 39), None);
    assert_eq!(find_future(&data, 49), None);
}

#[test]
fn find_future_gives_up_behind_the_hour() {
    let data = at(&[0, 30 * MINUTE, 66 * MINUTE, 60 * MINUTE]);
    assert_eq!(find_future(&data, 0), None);
    let data = at(&[0, 30 * MINUTE, 65 * MINUTE + 59 * SECOND, 60 * MINUTE]);
    assert_eq!(find_future(&data, 0), Some(2));
    let data = at(&[0, 54 * MINUTE + 1, 60 * MINUTE]);
    assert_eq!(find_future(&data, 0), Some(1));
    let data = at(&[0, 54 * MINUTE, 60 * MINUTE]);
    assert_eq!(find_future(&data, 0), Some(2));
}

#[test]
fn lookups_at_the_ends_of_time() {
    let data = at(&[i64::MIN, i64::MAX]);
    assert_eq!(find_past(&data, i64::MIN, u32::MAX, 2), None);
    assert_eq!(find_past(&data, i64::MAX, 0, 2), Some(1));
    assert_eq!(find_future(&data, 0), None);
    assert_eq!(find_future(&at(&[i64::MAX, i64::MAX]), 0), None);
}

#[test]
fn features_hold_the_present_and_the_changes() {
    let data = series(50);
    let row = features_at(&data, 40, data[40].timestamp).unwrap();
    assert_eq!(
        row,
        FeatureRow {
            hour: 12,
            minute: 35,
            weekday: 0,
            co2: 440,
            co2_change_15m: 1,
            co2_change_1h: 10,
            co2_change_3h: 34,
            temperature: 20_400,
            temperature_change_15m: 10,
            temperature_change_1h: 100,
            temperature_change_3h: 340,
            humidity: 39_800,
            humidity_change_15m: -5,
            humidity_change_1h: -50,
            humidity_change_3h: -170,
        }
    );
    let later = features_at(&data, 40, data[40].timestamp + 60 * MINUTE).unwrap();
    assert_eq!(later, FeatureRow { hour: 13, ..row });
    assert_eq!(features_at(&data, 33, data[33].timestamp), None);
    assert!(features_at(&data, 34, data[34].timestamp).is_some());
}

#[test]
fn training_set_has_a_sample_where_past_and_future_are_known() {
    let data = series(60);
    let samples = build_training_set(&data);
    assert_eq!(samples.len(), 15);
    let first = samples[0];
    assert_eq!(first.features, features_at(&data, 34, data[34].timestamp).unwrap());
    assert_eq!(
        first,
        TrainingSample {
            features: first.features,
            future_co2: 445,
            future_temperature: 20_450,
            future_humidity: 39_775,
        }
    );
    let last = samples[14];
    assert_eq!(last.features.co2, 448);
    assert_eq!(last.future_co2, 459);
    assert!(build_training_set(&series(45)).is_empty());
    assert!(build_training_set(&Vec::new()).is_empty());
}

#[test]
fn flagged_measurements_are_left_out() {
    let data = series(6);
    let flagged: HashSet<i64> = [data[1].timestamp, data[4].timestamp, 12345].into_iter().collect();
    let kept = without_flagged(&data, &flagged);
    assert_eq!(kept, vec![data[0].clone(), data[2].clone(), data[3].clone(), data[5].clone()]);
    assert_eq!(without_flagged(&data, &HashSet::new()), data);
    assert!(without_flagged(&Vec::new(), &flagged).is_empty());
}

#[test]
fn sorting_by_time_keeps_the_order_of_equal_instants() {
    let data = vec![
        measurement(30, 1, 0, 0),
        measurement(10, 2, 0, 0),
        measurement(30, 3, 0, 0),
        measurement(20, 4, 0, 0),
        measurement(10, 5, 0, 0),
        measurement(-5, 6, 0, 0),
    ];
    let sorted = sort_by_time(&data);
    let order: Vec<(i64, i32)> = sorted.iter().map(|m| (m.timestamp, m.temperature_milli_c)).collect();
    assert_eq!(order, vec![(-5, 6), (10, 2), (10, 5), (20, 4), (30, 1), (30, 3)]);
    assert!(sort_by_time(&Vec::new()).is_empty());
    let mut reversed = series(40);
    reversed.reverse();
    assert_eq!(sort_by_time(&reversed), series(40));
}

#[test]
fn staleness_is_in_whole_minutes() {
    assert_eq!(STALE_AFTER_MINUTES, 30);
    assert!(!is_stale(30 * MINUTE, 0));
    assert!(!is_stale(31 * MINUTE - 1, 0));
    assert!(is_stale(31 * MINUTE, 0));
    assert!(!is_stale(0, 31 * MINUTE));
    assert!(is_stale(i64::MAX, i64::MIN));
}

#[test]
fn plan_for_a_regular_series() {
    let mut data = series(121);
    data.reverse();
    let plan = plan_forecast(&data, &HashSet::new(), None).unwrap();
    let sorted = series(121);
    assert_eq!(plan.training.len(), 121 - 34 - 11);
    assert_eq!(plan.training, build_training_set(&sorted));
    assert_eq!(plan.latest, sorted[120]);
    assert_eq!(plan.target_time, sorted[120].timestamp + 60 * MINUTE);
    assert_eq!(plan.input, features_at(&sorted, 120, plan.target_time).unwrap());
    assert_eq!(plan.input.hour, 20);
    assert_eq!(plan.input.minute, 15);
    assert_eq!(plan.input.co2, 520);
    assert_eq!(plan.input.co2_change_3h, 34);
}

#[test]
fn plan_without_data() {
    assert_eq!(plan_forecast(&Vec::new(), &HashSet::new(), None), Err(ForecastError::NoData));
}

#[test]
fn plan_with_too_few_measurements() {
    assert_eq!(MIN_TRAINING_MEASUREMENTS, 100);
    assert_eq!(plan_forecast(&series(99), &HashSet::new(), None), Err(ForecastError::NotEnoughData));
    assert!(plan_forecast(&series(100), &HashSet::new(), None).is_ok());
    let data = series(121);
    let flagged: HashSet<i64> = data.iter().take(22).map(|m| m.timestamp).collect();
    assert_eq!(plan_forecast(&data, &flagged, None), Err(ForecastError::NotEnoughData));
    let fewer: HashSet<i64> = data.iter().take(21).map(|m| m.timestamp).collect();
    assert!(plan_forecast(&data, &fewer, None).is_ok());
    let all: HashSet<i64> = data.iter().map(|m| m.timestamp).collect();
    assert_eq!(plan_forecast(&data, &all, None), Err(ForecastError::NotEnoughData));
}

#[test]
fn plan_without_training_samples() {
    let same_instant = at(&[NOV_17_2025_0915; 120]);
    assert_eq!(
        plan_forecast(&same_instant, &HashSet::new(), None),
        Err(ForecastError::NoTrainingSamples)
    );
}

#[test]
fn plan_without_context_for_the_latest_measurement() {
    let mut data = series(121);
    data.push(measurement(NOV_17_2025_0915 + 48 * 60 * MINUTE, 20_000, 40_000, 400));
    assert_eq!(plan_forecast(&data, &HashSet::new(), None), Err(ForecastError::NoContext));
}

#[test]
fn plan_with_a_stale_latest_measurement() {
    let data = series(121);
    let latest = data[120].timestamp;
    assert_eq!(
        plan_forecast(&data, &HashSet::new(), Some(latest + 31 * MINUTE)),
        Err(ForecastError::Stale)
    );
    assert!(plan_forecast(&data, &HashSet::new(), Some(latest + 31 * MINUTE - 1)).is_ok());
    assert!(plan_forecast(&data, &HashSet::new(), Some(latest - 600 * MINUTE)).is_ok());
    let mut gap = series(121);
    gap.push(measurement(NOV_17_2025_0915 + 48 * 60 * MINUTE, 20_000, 40_000, 400));
    assert_eq!(
        plan_forecast(&gap, &HashSet::new(), Some(i64::MAX)),
        Err(ForecastError::NoContext)
    );
}

#[test]
fn plan_with_a_target_beyond_the_end_of_time() {
    let data = series_from(i64::MAX - 120 * 5 * MINUTE, 121);
    assert_eq!(data[120].timestamp, i64::MAX);
    assert_eq!(plan_forecast(&data, &HashSet::new(), None), Err(ForecastError::TargetOutOfRange));
    let data = series_from(i64::MAX - 60 * MINUTE - 120 * 5 * MINUTE, 121);
    let plan = plan_forecast(&data, &HashSet::new(), None).unwrap();
    assert_eq!(plan.target_time, i64::MAX);
}

#[test]
fn prediction_request_names_an_instant() {
    let request = PredictionRequest { timestamp: "2025-11-17T09:15:00".to_string() };
    assert_eq!(request.instant(), Ok(NOV_17_2025_0915));
    let zoned = PredictionRequest { timestamp: "2025-11-17T10:15:00+01:00".to_string() };
    assert_eq!(zoned.instant(), Ok(NOV_17_2025_0915));
    let bad = PredictionRequest { timestamp: "soon".to_string() };
    assert_eq!(bad.instant(), Err(TimestampError::Malformed));
}

#[test]
fn validation_window_is_five_minutes_either_side() {
    assert_eq!(
        validation_window(NOV_17_2025_0915),
        Some((NOV_17_2025_0915 - 5 * MINUTE, NOV_17_2025_0915 + 5 * MINUTE))
    );
    assert_eq!(validation_window(i64::MAX), None);
    assert_eq!(validation_window(i64::MIN), None);
    assert_eq!(validation_window(i64::MAX - 5 * MINUTE), Some((i64::MAX - 10 * MINUTE, i64::MAX)));
    assert_eq!(validation_window(i64::MIN + 5 * MINUTE), Some((i64::MIN, i64::MIN + 10 * MINUTE)));
}
