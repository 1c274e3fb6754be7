use air_quality::calendar::DayKey;
use air_quality::measurement::{Measurement, Sample};
use air_quality::profile::{DailyProfile, DailyProfileBuilder};

const JUNE_10_2025: i64 = 1_749_513_600_000_000_000;
const HOUR: i64 = 3_600_000_000_000;
const TODAY: DayKey = DayKey { year: 2025, ordinal: 161 };
const TOMORROW: DayKey = DayKey { year: 2025, ordinal: 162 };

fn measurement(timestamp: i64, temperature: i32, humidity: i32) -> Measurement {
    Measurement::new("esp32-scd40".to_string(), timestamp, 400, temperature, humidity)
}

#[test]
fn new_builder_has_nothing() {
    let builder = DailyProfileBuilder::new();
    assert_eq!(builder.current(), None);
    assert!(builder.history().is_empty());
}

#[test]
fn first_sample_seeds_the_profile() {
    let mut builder = DailyProfileBuilder::new();
    builder.observe(TODAY, 21_000, 40_000);
    assert_eq!(
        builder.current(),
        Some(DailyProfile {
            day_key: TODAY,
            temp_min: 21_000,
            temp_max: 21_000,
            humidity_min: 40_000,
            humidity_max: 40_000,
            count: 1,
        })
    );
    assert!(builder.history().is_empty());
}

#[test]
fn samples_of_the_same_day_widen_the_profile() {
    let mut builder = DailyProfileBuilder::new();
    builder.observe(TODAY, 21_000, 40_000);
    builder.observe(TODAY, 19_000, 45_000);
    builder.observe(TODAY, 25_000, 38_000);
    builder.observe(TODAY, 22_000, 41_000);
    assert_eq!(
        builder.current(),
        Some(DailyProfile {
            day_key: TODAY,
            temp_min: 19_000,
            temp_max: 25_000,
            humidity_min: 38_000,
            humidity_max: 45_000,
            count: 4,
        })
    );
    assert!(builder.history().is_empty());
}

#[test]
fn a_sample_of_another_day_rolls_the_profile_over() {
    let mut builder = DailyProfileBuilder::new();
    builder.observe(TODAY, 21_000, 40_000);
    builder.observe(TODAY, 19_000, 45_000);
    builder.observe(TOMORROW, 30_000, 20_000);
    assert_eq!(
        builder.history(),
        &vec![DailyProfile {
            day_key: TODAY,
            temp_min: 19_000,
            temp_max: 21_000,
            humidity_min: 40_000,
            humidity_max: 45_000,
            count: 2,
        }]
    );
    assert_eq!(
        builder.current(),
        Some(DailyProfile {
            day_key: TOMORROW,
            temp_min: 30_000,
            temp_max: 30_000,
            humidity_min: 20_000,
            humidity_max: 20_000,
            count: 1,
        })
    );
    builder.observe(TODAY, 1, 2);
    assert_eq!(builder.history().len(), 2);
    assert_eq!(builder.history()[1].day_key, TOMORROW);
    assert_eq!(builder.current().unwrap().day_key, TODAY);
    assert_eq!(builder.current().unwrap().count, 1);
}

#[test]
fn feeding_the_same_measurement_twice_changes_only_the_count() {
    let mut builder = DailyProfileBuilder::new();
    builder.update(&measurement(JUNE_10_2025 + HOUR, 21_000, 40_000));
    builder.update(&measurement(JUNE_10_2025 + 2 * HOUR, 19_000, 45_000));
    let duplicate = measurement(JUNE_10_2025 + 3 * HOUR, 20_000, 42_000);
    builder.update(&duplicate);
    let once = builder.current().unwrap();
    let days_before = builder.history().len();
    builder.update(&duplicate);
    let twice = builder.current().unwrap();
    assert_eq!(twice.count, once.count + 1);
    assert_eq!(twice, DailyProfile { count: 4, ..once });
    assert_eq!(builder.history().len(), days_before);
}

#[test]
fn feeding_a_new_extreme_twice_changes_only_the_count_the_second_time() {
    let mut builder = DailyProfileBuilder::new();
    builder.update(&measurement(JUNE_10_2025 + HOUR, 21_000, 40_000));
    let extreme = measurement(JUNE_10_2025 + 2 * HOUR, 35_000, 10_000);
    builder.update(&extreme);
    let once = builder.current().unwrap();
    assert_eq!(once.temp_max, 35_000);
    assert_eq!(once.humidity_min, 10_000);
    builder.update(&extreme);
    assert_eq!(builder.current().unwrap(), DailyProfile { count: 3, ..once });
}

#[test]
fn update_takes_the_day_from_the_timestamp() {
    let mut builder = DailyProfileBuilder::new();
    builder.update(&measurement(JUNE_10_2025 + 23 * HOUR, 21_000, 40_000));
    builder.update(&measurement(JUNE_10_2025 + 24 * HOUR, 18_000, 50_000));
    assert_eq!(builder.history().len(), 1);
    assert_eq!(builder.history()[0].day_key, TODAY);
    assert_eq!(builder.current().unwrap().day_key, TOMORROW);
}

#[test]
fn build_from_batch_replays_the_batch() {
    let batch = vec![
        measurement(JUNE_10_2025 + HOUR, 21_000, 40_000),
        measurement(JUNE_10_2025 + 2 * HOUR, 19_000, 45_000),
        measurement(JUNE_10_2025 + 25 * HOUR, 30_000, 20_000),
        measurement(JUNE_10_2025 + 49 * HOUR, 10_000, 60_000),
        measurement(JUNE_10_2025 + 50 * HOUR, 12_000, 55_000),
    ];
    let built = DailyProfileBuilder::build_from_batch(&batch);
    let mut fed = DailyProfileBuilder::new();
    for m in &batch {
        fed.update(m);
    }
    assert_eq!(built.history(), fed.history());
    assert_eq!(built.current(), fed.current());
    assert_eq!(built.history().len(), 2);
    assert_eq!(built.history()[0].count, 2);
    assert_eq!(built.history()[1].temp_max, 30_000);
    assert_eq!(
        built.current(),
        Some(DailyProfile {
            day_key: DayKey { year: 2025, ordinal: 163 },
            temp_min: 10_000,
            temp_max: 12_000,
            humidity_min: 55_000,
            humidity_max: 60_000,
            count: 2,
        })
    );
}

#[test]
fn an_empty_batch_gives_an_empty_history() {
    let built = DailyProfileBuilder::build_from_batch(&Vec::new());
    assert!(built.history().is_empty());
    assert_eq!(built.current(), None);
}

#[test]
fn every_profile_has_its_minimum_below_its_maximum() {
    let mut builder = DailyProfileBuilder::new();
    let mut value: i64 = 12_345;
    for i in 0..500i64 {
        value = (value * 1_103_515_245 + 12_345) % 2_147_483_648;
        let temperature = (value % 60_000) as i32 - 20_000;
        let humidity = ((value / 7) % 100_000) as i32;
        builder.update(&measurement(JUNE_10_2025 + i * HOUR, temperature, humidity));
        let current = builder.current().unwrap();
        assert!(current.count > 0);
        assert!(current.temp_min <= current.temp_max);
        assert!(current.humidity_min <= current.humidity_max);
    }
    assert_eq!(builder.history().len(), 20);
    for day in builder.history() {
        assert_eq!(day.count, 24);
        assert!(day.temp_min <= day.temp_max);
        assert!(day.humidity_min <= day.humidity_max);
    }
}

#[test]
fn observe_all_takes_the_days_as_given() {
    let sample = |day: DayKey, temperature: i32, humidity: i32| Sample {
        timestamp: 0,
        day,
        hour: 0,
        co2_ppm: 0,
        temperature_milli_c: temperature,
        humidity_milli_pct: humidity,
    };
    let mut builder = DailyProfileBuilder::new();
    builder.observe_all(&vec![
        sample(TODAY, 5, 50),
        sample(TODAY, 7, 40),
        sample(TOMORROW, 1, 2),
        sample(TOMORROW, -1, 3),
    ]);
    assert_eq!(
        builder.history(),
        &vec![DailyProfile { day_key: TODAY, temp_min: 5, temp_max: 7, humidity_min: 40, humidity_max: 50, count: 2 }]
    );
    assert_eq!(
        builder.current(),
        Some(DailyProfile { day_key: TOMORROW, temp_min: -1, temp_max: 1, humidity_min: 2, humidity_max: 3, count: 2 })
    );
    builder.observe_all(&Vec::new());
    assert_eq!(builder.history().len(), 1);
}
