use air_quality::calendar::DayKey;
use air_quality::config::AnomalyConfig;
use air_quality::detector::{rolling_flags, rolling_outcome, AnomalyDetector};
use air_quality::driver::{find_disorder, find_step_back, tag_batch, OrderingViolation, TaggedSample};
use air_quality::flags::{AnomalyFlags, RollingOutcome};
use air_quality::measurement::{samples_of, Measurement, Sample};

const JUNE_10_2025: i64 = 1_749_513_600_000_000_000;
const HOUR: i64 = 3_600_000_000_000;
const MINUTE: i64 = 60_000_000_000;

fn measurement(timestamp: i64, temperature: i32, humidity: i32, co2: u16) -> Measurement {
    Measurement::new("esp32-scd40".to_string(), timestamp, co2, temperature, humidity)
}

fn night_run() -> Vec<Measurement> {
    (0..5).map(|i| measurement(JUNE_10_2025 + 5 * HOUR + i * 10 * MINUTE, 10_000, 30_000, 400)).collect()
}

fn mixed_day() -> Vec<Measurement> {
    let mut batch = night_run();
    batch.push(measurement(JUNE_10_2025 + 8 * HOUR, 12_000, 70_000, 450));
    batch.push(measurement(JUNE_10_2025 + 10 * HOUR, 20_000, 50_000, 420));
    batch.push(measurement(JUNE_10_2025 + 11 * HOUR, 18_000, 62_000, 420));
    batch.push(measurement(JUNE_10_2025 + 12 * HOUR, 15_000, 70_000, 900));
    batch.push(measurement(JUNE_10_2025 + 13 * HOUR, 15_000, 70_000, 500));
    batch.push(measurement(JUNE_10_2025 + 20 * HOUR, 19_000, 80_000, 500));
    batch.push(measurement(JUNE_10_2025 + 29 * HOUR, 11_000, 60_000, 500));
    batch
}

#[test]
fn end_to_end_definite_anomaly_in_daylight() {
    let mut detector = AnomalyDetector::new(AnomalyConfig::default());
    for m in night_run() {
        let flags = detector.analyze_one(&m);
        assert!(flags.humidity_spike);
        assert!(!flags.possible_sunlight);
        assert!(!flags.temperature_spike);
        assert!(!flags.co2_spike);
    }
    let flags = detector.analyze_one(&measurement(JUNE_10_2025 + 10 * HOUR, 20_000, 50_000, 420));
    assert!(flags.humidity_spike);
    assert!(flags.possible_sunlight);
    assert!(flags.temperature_spike);
    assert!(!flags.co2_spike);
}

#[test]
fn end_to_end_suspicious_humidity_with_temperature_rise() {
    let mut detector = AnomalyDetector::new(AnomalyConfig::default());
    for m in night_run() {
        detector.analyze_one(&m);
    }
    let flags = detector.analyze_one(&measurement(JUNE_10_2025 + 10 * HOUR, 18_000, 62_000, 420));
    assert!(flags.humidity_spike);
    assert!(flags.temperature_spike);
    assert!(flags.possible_sunlight);
    assert!(!flags.co2_spike);
    assert_eq!(
        flags.reason,
        "low humidity confirmed by a temperature rise over the baseline; possible direct sunlight"
    );
}

#[test]
fn suspicious_humidity_on_a_cold_start_is_weak_evidence() {
    let mut detector = AnomalyDetector::new(AnomalyConfig::default());
    let flags = detector.analyze_one(&measurement(JUNE_10_2025 + 10 * HOUR, 18_000, 62_000, 420));
    assert!(flags.humidity_spike);
    assert!(!flags.temperature_spike);
    assert!(!flags.possible_sunlight);
}

#[test]
fn the_baseline_is_lost_once_the_morning_leaves_the_store() {
    let config = AnomalyConfig { window_horizon_seconds: 3 * 3_600, ..AnomalyConfig::default() };
    let mut detector = AnomalyDetector::new(config);
    for m in night_run() {
        detector.analyze_one(&m);
    }
    assert_eq!(detector.window().len(), 5);
    let flags = detector.analyze_one(&measurement(JUNE_10_2025 + 10 * HOUR, 18_000, 62_000, 420));
    assert_eq!(detector.window().len(), 1);
    assert!(flags.humidity_spike);
    assert!(!flags.temperature_spike);
    assert!(!flags.possible_sunlight);
}

#[test]
fn replaying_the_same_sequence_twice_gives_the_same_flags() {
    let batch = mixed_day();
    let mut first = AnomalyDetector::new(AnomalyConfig::default());
    let mut second = AnomalyDetector::new(AnomalyConfig::default());
    let one: Vec<AnomalyFlags> = batch.iter().map(|m| first.analyze_one(m)).collect();
    let two: Vec<AnomalyFlags> = batch.iter().map(|m| second.analyze_one(m)).collect();
    assert_eq!(one, two);
    assert_eq!(first.window().len(), second.window().len());
    assert_eq!(first.profiles().history(), second.profiles().history());
    assert_eq!(first.profiles().current(), second.profiles().current());
}

#[test]
fn batch_and_stream_agree() {
    let batch = mixed_day();
    let mut stream = AnomalyDetector::new(AnomalyConfig::default());
    let mut expected = Vec::new();
    let mut sunlight = 0;
    for m in &batch {
        let flags = stream.analyze_one(m);
        if flags.possible_sunlight {
            sunlight += 1;
        }
        if flags.is_any_true() {
            expected.push((m.timestamp, flags, m.device.clone()));
        }
    }
    let mut replay = AnomalyDetector::new(AnomalyConfig::default());
    let report = replay.analyze_batch(&batch).unwrap();
    assert_eq!(report.total, batch.len());
    assert_eq!(report.flagged, expected.len());
    assert_eq!(report.sunlight_events, sunlight);
    assert_eq!(report.flagged_records.len(), expected.len());
    for (record, (timestamp, flags, device)) in report.flagged_records.iter().zip(expected.iter()) {
        assert_eq!(record.timestamp, *timestamp);
        assert_eq!(&record.flags, flags);
        assert_eq!(&record.device, device);
    }
    assert_eq!(replay.window().len(), stream.window().len());
    assert_eq!(replay.profiles().history(), stream.profiles().history());
    assert_eq!(replay.profiles().current(), stream.profiles().current());
}

#[test]
fn batch_report_counts_what_was_flagged() {
    let mut detector = AnomalyDetector::new(AnomalyConfig::default());
    let report = detector.analyze_batch(&mixed_day()).unwrap();
    assert_eq!(report.total, 12);
    assert_eq!(report.flagged, 8);
    assert_eq!(report.sunlight_events, 2);
    let stamps: Vec<i64> = report.flagged_records.iter().map(|r| r.timestamp).collect();
    assert_eq!(
        stamps,
        vec![
            JUNE_10_2025 + 5 * HOUR,
            JUNE_10_2025 + 5 * HOUR + 10 * MINUTE,
            JUNE_10_2025 + 5 * HOUR + 20 * MINUTE,
            JUNE_10_2025 + 5 * HOUR + 30 * MINUTE,
            JUNE_10_2025 + 5 * HOUR + 40 * MINUTE,
            JUNE_10_2025 + 10 * HOUR,
            JUNE_10_2025 + 11 * HOUR,
            JUNE_10_2025 + 12 * HOUR,
        ]
    );
    let co2 = &report.flagged_records[7];
    assert!(co2.flags.co2_spike);
    assert!(!co2.flags.humidity_spike && !co2.flags.temperature_spike && !co2.flags.possible_sunlight);
    assert_eq!(co2.device, "esp32-scd40");
    assert_eq!(detector.profiles().history().len(), 1);
    assert_eq!(detector.profiles().history()[0].day_key, DayKey { year: 2025, ordinal: 161 });
    assert_eq!(detector.profiles().history()[0].count, 11);
    assert_eq!(detector.profiles().current().unwrap().count, 1);
}

#[test]
fn an_empty_batch_gives_an_empty_report() {
    let mut detector = AnomalyDetector::new(AnomalyConfig::default());
    let report = detector.analyze_batch(&Vec::new()).unwrap();
    assert_eq!(report.total, 0);
    assert_eq!(report.flagged, 0);
    assert_eq!(report.sunlight_events, 0);
    assert!(report.flagged_records.is_empty());
    assert_eq!(detector.window().len(), 0);
    assert_eq!(detector.profiles().current(), None);
}

#[test]
fn a_batch_out_of_order_is_refused_and_changes_nothing() {
    let mut batch = mixed_day();
    batch.swap(2, 7);
    let mut detector = AnomalyDetector::new(AnomalyConfig::default());
    assert_eq!(detector.analyze_batch(&batch), Err(OrderingViolation { index: 3 }));
    assert_eq!(detector.window().len(), 0);
    assert_eq!(detector.profiles().current(), None);
    assert!(detector.profiles().history().is_empty());
}

#[test]
fn a_batch_with_equal_timestamps_is_in_order() {
    let m = measurement(JUNE_10_2025 + 10 * HOUR, 20_000, 50_000, 420);
    let batch = vec![m.clone(), m.clone(), m];
    let mut detector = AnomalyDetector::new(AnomalyConfig::default());
    let report = detector.analyze_batch(&batch).unwrap();
    assert_eq!(report.total, 3);
    assert_eq!(report.flagged, 3);
    assert_eq!(report.sunlight_events, 3);
    assert_eq!(detector.profiles().current().unwrap().count, 3);
}

#[test]
fn find_disorder_gives_the_first_step_back() {
    let times = |stamps: &[i64]| -> Vec<Measurement> {
        stamps.iter().map(|t| measurement(*t, 0, 0, 0)).collect()
    };
    assert_eq!(find_disorder(&times(&[])), None);
    assert_eq!(find_disorder(&times(&[5])), None);
    assert_eq!(find_disorder(&times(&[1, 2, 2, 3])), None);
    assert_eq!(find_disorder(&times(&[0, 10, 5, 20, 1])), Some(2));
    assert_eq!(find_disorder(&times(&[10, 9])), Some(1));
    assert_eq!(find_disorder(&times(&[i64::MIN, i64::MAX, i64::MIN])), Some(2));
}

#[test]
fn the_detector_keeps_its_configuration() {
    let config = AnomalyConfig { co2_spike_threshold: 1_000, ..AnomalyConfig::default() };
    let mut detector = AnomalyDetector::new(config);
    assert_eq!(detector.config(), config);
    let flags = detector.analyze_one(&measurement(JUNE_10_2025, 15_000, 70_000, 999));
    assert!(!flags.is_any_true());
    let flags = detector.analyze_one(&measurement(JUNE_10_2025 + MINUTE, 15_000, 70_000, 1_000));
    assert!(flags.co2_spike);
    assert_eq!(detector.config(), config);
}

#[test]
fn the_rolling_test_is_silent_until_five_samples_came_before() {
    let config = AnomalyConfig { rolling_enabled: true, ..AnomalyConfig::default() };
    let mut detector = AnomalyDetector::new(config);
    for i in 0..4 {
        let flags = detector.analyze_one(&measurement(JUNE_10_2025 + 12 * HOUR + i * MINUTE, 20_000, 70_000, 400));
        assert!(!flags.is_any_true());
    }
    let early = detector.analyze_one(&measurement(JUNE_10_2025 + 12 * HOUR + 4 * MINUTE, 20_000, 70_000, 600));
    assert!(!early.is_any_true());
    let mut detector = AnomalyDetector::new(config);
    for i in 0..5 {
        detector.analyze_one(&measurement(JUNE_10_2025 + 12 * HOUR + i * MINUTE, 20_000, 70_000, 400));
    }
    let flags = detector.analyze_one(&measurement(JUNE_10_2025 + 12 * HOUR + 5 * MINUTE, 20_000, 70_000, 600));
    assert!(flags.co2_spike);
    assert!(!flags.temperature_spike && !flags.humidity_spike && !flags.possible_sunlight);
    assert_eq!(flags.reason, "CO2 far from its rolling mean");
}

#[test]
fn the_rolling_test_adds_to_the_staged_rules() {
    let config = AnomalyConfig { rolling_enabled: true, ..AnomalyConfig::default() };
    let mut with_rolling = AnomalyDetector::new(config);
    let mut without = AnomalyDetector::new(AnomalyConfig::default());
    for m in night_run() {
        with_rolling.analyze_one(&m);
        without.analyze_one(&m);
    }
    let m = measurement(JUNE_10_2025 + 10 * HOUR, 20_000, 50_000, 420);
    let plain = without.analyze_one(&m);
    let both = with_rolling.analyze_one(&m);
    assert!(both.humidity_spike && both.temperature_spike && both.possible_sunlight);
    assert!(!both.co2_spike);
    assert_eq!(
        both.reason,
        format!("{}; temperature far from its rolling mean; humidity far from its rolling mean", plain.reason)
    );
}

#[test]
fn rolling_outcome_on_a_store() {
    let config = AnomalyConfig::default();
    let mut detector = AnomalyDetector::new(config);
    for i in 0..6 {
        let co2 = if i == 5 { 460 } else { 400 };
        detector.analyze_one(&measurement(JUNE_10_2025 + 12 * HOUR + i * MINUTE, 20_000, 70_000, co2));
    }
    let newest: Sample = detector.window().get(5).unwrap();
    assert_eq!(
        rolling_outcome(&config, detector.window(), 5, &newest),
        RollingOutcome { temperature: false, humidity: false, co2: true }
    );
    let flags = rolling_flags(&config, detector.window(), 5, &newest);
    assert!(flags.co2_spike);
    let earlier: Sample = detector.window().get(0).unwrap();
    assert_eq!(
        rolling_outcome(&config, detector.window(), 0, &earlier),
        RollingOutcome { temperature: false, humidity: false, co2: false }
    );
}

#[test]
fn observe_takes_the_day_and_hour_as_given() {
    let mut detector = AnomalyDetector::new(AnomalyConfig::default());
    let sample = Sample {
        timestamp: 0,
        day: DayKey { year: 2030, ordinal: 200 },
        hour: 12,
        co2_ppm: 400,
        temperature_milli_c: 20_000,
        humidity_milli_pct: 50_000,
    };
    let flags = detector.observe(sample);
    assert!(flags.humidity_spike && flags.possible_sunlight);
    assert_eq!(detector.profiles().current().unwrap().day_key, DayKey { year: 2030, ordinal: 200 });
    assert_eq!(detector.window().get(0), Some(sample));
}

fn tagged(timestamp: i64, hour: u8, temperature: i32, humidity: i32, co2: u16, device: &str) -> TaggedSample {
    TaggedSample {
        sample: Sample {
            timestamp,
            day: DayKey { year: 2025, ordinal: 161 },
            hour,
            co2_ppm: co2,
            temperature_milli_c: temperature,
            humidity_milli_pct: humidity,
        },
        device: device.to_string(),
    }
}

#[test]
fn tag_batch_keeps_sample_and_device() {
    let batch = vec![
        Measurement::new("a".to_string(), JUNE_10_2025 + 5 * HOUR, 400, 10_000, 30_000),
        Measurement::new("b".to_string(), JUNE_10_2025 + 10 * HOUR, 420, 20_000, 50_000),
    ];
    assert_eq!(
        tag_batch(&batch),
        vec![
            tagged(JUNE_10_2025 + 5 * HOUR, 5, 10_000, 30_000, 400, "a"),
            tagged(JUNE_10_2025 + 10 * HOUR, 10, 20_000, 50_000, 420, "b"),
        ]
    );
    assert_eq!(samples_of(&batch), vec![batch[0].sample(), batch[1].sample()]);
    assert!(tag_batch(&Vec::new()).is_empty());
    assert!(samples_of(&Vec::new()).is_empty());
}

#[test]
fn replay_of_given_samples() {
    let batch = vec![
        tagged(0, 2, 10_000, 30_000, 400, "a"),
        tagged(1, 12, 10_000, 70_000, 400, "b"),
        tagged(2, 12, 10_000, 50_000, 700, "c"),
        tagged(2, 12, 10_000, 62_000, 400, "d"),
        tagged(3, 12, 12_000, 62_000, 400, "e"),
    ];
    let mut detector = AnomalyDetector::new(AnomalyConfig::default());
    let report = detector.replay(&batch).unwrap();
    assert_eq!(report.total, 5);
    assert_eq!(report.flagged, 3);
    assert_eq!(report.sunlight_events, 1);
    let seen: Vec<(i64, &str)> =
        report.flagged_records.iter().map(|r| (r.timestamp, r.device.as_str())).collect();
    assert_eq!(seen, vec![(0, "a"), (2, "c"), (3, "e")]);
    let first = &report.flagged_records[0].flags;
    assert!(first.humidity_spike && !first.possible_sunlight && !first.co2_spike);
    let second = &report.flagged_records[1].flags;
    assert!(second.humidity_spike && second.possible_sunlight && second.co2_spike);
    let third = &report.flagged_records[2].flags;
    assert!(third.humidity_spike && !third.possible_sunlight && !third.temperature_spike);
    assert_eq!(third.reason, "low humidity in warm daylight without a baseline");
    assert_eq!(detector.window().len(), 5);
    assert_eq!(detector.profiles().current().unwrap().count, 5);
}

#[test]
fn replay_refuses_samples_out_of_order() {
    let batch = vec![
        tagged(5, 2, 10_000, 30_000, 400, "a"),
        tagged(5, 2, 10_000, 30_000, 400, "a"),
        tagged(4, 2, 10_000, 30_000, 400, "a"),
        tagged(3, 2, 10_000, 30_000, 400, "a"),
    ];
    assert_eq!(find_step_back(&batch), Some(2));
    assert_eq!(find_step_back(&batch[..2].iter().map(|t| tagged(t.sample.timestamp, 2, 0, 0, 0, "a")).collect()), None);
    assert_eq!(find_step_back(&Vec::new()), None);
    let mut detector = AnomalyDetector::new(AnomalyConfig::default());
    assert_eq!(detector.replay(&batch), Err(OrderingViolation { index: 2 }));
    assert_eq!(detector.window().len(), 0);
    assert_eq!(detector.profiles().current(), None);
}
