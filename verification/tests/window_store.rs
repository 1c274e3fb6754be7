use air_quality::baseline::{estimate, estimate_for_day};
use air_quality::calendar::DayKey;
use air_quality::config::{AnomalyConfig, Channel};
use air_quality::measurement::Sample;
use air_quality::stats::{median, minimum, sorted_copy};
use air_quality::window::RecentWindow;

const JUNE_10_2025: i64 = 1_749_513_600_000_000_000;
const HOUR: i64 = 3_600_000_000_000;
const MINUTE: i64 = 60_000_000_000;
const TODAY: DayKey = DayKey { year: 2025, ordinal: 161 };
const YESTERDAY: DayKey = DayKey { year: 2025, ordinal: 160 };

fn entry(timestamp: i64, day: DayKey, hour: u8, temperature: i32) -> Sample {
    Sample { timestamp, day, hour, co2_ppm: 400, temperature_milli_c: temperature, humidity_milli_pct: 70_000 }
}

fn timestamps(window: &RecentWindow) -> Vec<i64> {
    let mut seen = Vec::new();
    let mut i = 0;
    while let Some(sample) = window.get(i) {
        seen.push(sample.timestamp);
        i += 1;
    }
    seen
}

#[test]
fn new_window_is_empty() {
    let window = RecentWindow::new(3_600);
    assert_eq!(window.len(), 0);
    assert_eq!(window.get(0), None);
    assert_eq!(window.early_morning_median(TODAY, 6), None);
    assert_eq!(window.fallback_minimum(), None);
}

#[test]
fn push_appends_in_time_order_and_returns_the_index() {
    let mut window = RecentWindow::new(3_600);
    assert_eq!(window.push(entry(0, TODAY, 0, 1)), 0);
    assert_eq!(window.push(entry(10 * MINUTE, TODAY, 0, 2)), 1);
    assert_eq!(window.push(entry(20 * MINUTE, TODAY, 0, 3)), 2);
    assert_eq!(timestamps(&window), vec![0, 10 * MINUTE, 20 * MINUTE]);
    assert_eq!(window.len(), 3);
    assert_eq!(window.get(3), None);
}

#[test]
fn push_evicts_what_is_older_than_the_horizon() {
    let mut window = RecentWindow::new(3_600);
    window.push(entry(0, TODAY, 0, 1));
    window.push(entry(10 * MINUTE, TODAY, 0, 2));
    let index = window.push(entry(70 * MINUTE, TODAY, 1, 3));
    assert_eq!(timestamps(&window), vec![10 * MINUTE, 70 * MINUTE]);
    assert_eq!(index, 1);
    let index = window.push(entry(70 * MINUTE + 1, TODAY, 1, 4));
    assert_eq!(timestamps(&window), vec![70 * MINUTE, 70 * MINUTE + 1]);
    assert_eq!(index, 1);
    let index = window.push(entry(10 * HOUR, TODAY, 10, 5));
    assert_eq!(timestamps(&window), vec![10 * HOUR]);
    assert_eq!(index, 0);
}

#[test]
fn push_with_a_horizon_of_zero_keeps_only_the_newest_instant() {
    let mut window = RecentWindow::new(0);
    window.push(entry(5, TODAY, 0, 1));
    window.push(entry(5, TODAY, 0, 2));
    assert_eq!(window.len(), 2);
    window.push(entry(6, TODAY, 0, 3));
    assert_eq!(timestamps(&window), vec![6]);
}

#[test]
fn push_out_of_order_goes_to_its_place_in_time() {
    let mut window = RecentWindow::new(3_600);
    window.push(entry(30 * MINUTE, TODAY, 0, 1));
    window.push(entry(50 * MINUTE, TODAY, 0, 2));
    let index = window.push(entry(40 * MINUTE, TODAY, 0, 3));
    assert_eq!(index, 1);
    assert_eq!(timestamps(&window), vec![30 * MINUTE, 40 * MINUTE, 50 * MINUTE]);
    let index = window.push(entry(0, TODAY, 0, 4));
    assert_eq!(index, 0);
    assert_eq!(timestamps(&window), vec![0, 30 * MINUTE, 40 * MINUTE, 50 * MINUTE]);
    let index = window.push(entry(40 * MINUTE, TODAY, 0, 5));
    assert_eq!(index, 3);
    assert_eq!(window.get(2).unwrap().temperature_milli_c, 3);
    assert_eq!(window.get(3).unwrap().temperature_milli_c, 5);
}

#[test]
fn push_at_the_ends_of_time() {
    let mut window = RecentWindow::new(u32::MAX);
    window.push(entry(i64::MAX, TODAY, 0, 1));
    window.push(entry(i64::MIN, TODAY, 0, 2));
    assert_eq!(timestamps(&window), vec![i64::MIN, i64::MAX]);
    window.push(entry(i64::MAX, TODAY, 0, 3));
    assert_eq!(timestamps(&window), vec![i64::MAX, i64::MAX]);
}

#[test]
fn early_morning_median_needs_three_samples() {
    let mut window = RecentWindow::new(86_400);
    window.push(entry(JUNE_10_2025 + 1 * HOUR, TODAY, 1, 11_000));
    window.push(entry(JUNE_10_2025 + 2 * HOUR, TODAY, 2, 9_000));
    assert_eq!(window.early_morning_median(TODAY, 6), None);
    window.push(entry(JUNE_10_2025 + 3 * HOUR, TODAY, 3, 10_000));
    assert_eq!(window.early_morning_median(TODAY, 6), Some(10_000));
}

#[test]
fn early_morning_median_takes_the_upper_middle_of_an_even_count() {
    let mut window = RecentWindow::new(86_400);
    for (i, temperature) in [40_000, 10_000, 30_000, 20_000].into_iter().enumerate() {
        window.push(entry(JUNE_10_2025 + i as i64 * MINUTE, TODAY, 0, temperature));
    }
    assert_eq!(window.early_morning_median(TODAY, 6), Some(30_000));
    window.push(entry(JUNE_10_2025 + 5 * MINUTE, TODAY, 0, -5_000));
    assert_eq!(window.early_morning_median(TODAY, 6), Some(20_000));
}

#[test]
fn early_morning_median_looks_at_the_day_and_the_hour() {
    let mut window = RecentWindow::new(2 * 86_400);
    window.push(entry(JUNE_10_2025 - 20 * HOUR, YESTERDAY, 4, 1_000));
    window.push(entry(JUNE_10_2025 - 19 * HOUR, YESTERDAY, 5, 2_000));
    window.push(entry(JUNE_10_2025 - 18 * HOUR, YESTERDAY, 6, 3_000));
    window.push(entry(JUNE_10_2025 + 4 * HOUR, TODAY, 4, 14_000));
    window.push(entry(JUNE_10_2025 + 5 * HOUR, TODAY, 5, 15_000));
    window.push(entry(JUNE_10_2025 + 6 * HOUR, TODAY, 6, 16_000));
    window.push(entry(JUNE_10_2025 + 7 * HOUR, TODAY, 7, 17_000));
    assert_eq!(window.early_morning_median(TODAY, 6), None);
    assert_eq!(window.early_morning_median(TODAY, 7), Some(15_000));
    assert_eq!(window.early_morning_median(TODAY, 8), Some(16_000));
    assert_eq!(window.early_morning_median(YESTERDAY, 7), Some(2_000));
    assert_eq!(window.early_morning_median(YESTERDAY, 6), None);
    assert_eq!(window.early_morning_median(TODAY, 0), None);
}

#[test]
fn fallback_minimum_needs_ten_samples() {
    let mut window = RecentWindow::new(86_400);
    for i in 0..9 {
        window.push(entry(JUNE_10_2025 + i * MINUTE, TODAY, 12, 20_000 - 100 * i as i32));
        assert_eq!(window.fallback_minimum(), None);
    }
    window.push(entry(JUNE_10_2025 + 9 * MINUTE, TODAY, 12, 25_000));
    assert_eq!(window.fallback_minimum(), Some(19_200));
    window.push(entry(JUNE_10_2025 + 10 * MINUTE, TODAY, 12, -3_000));
    assert_eq!(window.fallback_minimum(), Some(-3_000));
}

#[test]
fn baseline_prefers_the_early_morning() {
    let mut window = RecentWindow::new(86_400);
    for i in 0..3 {
        window.push(entry(JUNE_10_2025 + 5 * HOUR + i * MINUTE, TODAY, 5, 10_000 + 1_000 * i as i32));
    }
    for i in 0..8 {
        window.push(entry(JUNE_10_2025 + 8 * HOUR + i * MINUTE, TODAY, 8, 5_000 + i as i32));
    }
    assert_eq!(window.fallback_minimum(), Some(5_000));
    assert_eq!(estimate_for_day(&window, TODAY, 6), Some(11_000));
    assert_eq!(estimate_for_day(&window, YESTERDAY, 6), Some(5_000));
    assert_eq!(estimate_for_day(&window, TODAY, 5), Some(5_000));
}

#[test]
fn baseline_is_missing_on_a_cold_start() {
    let mut window = RecentWindow::new(86_400);
    let config = AnomalyConfig::default();
    assert_eq!(estimate(&window, JUNE_10_2025 + 10 * HOUR, &config), None);
    for i in 0..9 {
        window.push(entry(JUNE_10_2025 + 8 * HOUR + i * MINUTE, TODAY, 8, 5_000));
    }
    assert_eq!(estimate(&window, JUNE_10_2025 + 10 * HOUR, &config), None);
    window.push(entry(JUNE_10_2025 + 9 * HOUR, TODAY, 9, 4_000));
    assert_eq!(estimate(&window, JUNE_10_2025 + 10 * HOUR, &config), Some(4_000));
}

#[test]
fn baseline_is_that_of_the_day_of_the_instant() {
    let mut window = RecentWindow::new(2 * 86_400);
    let config = AnomalyConfig::default();
    for i in 0..3 {
        let at = JUNE_10_2025 + 5 * HOUR + i * MINUTE;
        window.push(entry(at, TODAY, 5, 10_000 + i as i32));
    }
    assert_eq!(estimate(&window, JUNE_10_2025 + 10 * HOUR, &config), Some(10_001));
    assert_eq!(estimate(&window, JUNE_10_2025 + 34 * HOUR, &config), None);
}

#[test]
fn rolling_values_leave_out_the_sample_itself_and_keep_the_latest() {
    let mut window = RecentWindow::new(86_400);
    for i in 0..6 {
        let mut sample = entry(JUNE_10_2025 + i * MINUTE, TODAY, 0, 1_000 * i as i32);
        sample.humidity_milli_pct = 50_000 + i as i32;
        sample.co2_ppm = 400 + i as u16;
        window.push(sample);
    }
    assert_eq!(window.rolling_values(5, Channel::Temperature, 20), vec![0, 1_000, 2_000, 3_000, 4_000]);
    assert_eq!(window.rolling_values(5, Channel::Temperature, 3), vec![2_000, 3_000, 4_000]);
    assert_eq!(window.rolling_values(5, Channel::Temperature, 0), Vec::<i32>::new());
    assert_eq!(window.rolling_values(2, Channel::Temperature, 20), vec![0, 1_000, 3_000, 4_000, 5_000]);
    assert_eq!(window.rolling_values(0, Channel::Humidity, 2), vec![50_004, 50_005]);
    assert_eq!(window.rolling_values(5, Channel::Co2, 2), vec![403, 404]);
}

#[test]
fn median_and_minimum_of_plain_values() {
    assert_eq!(median(&vec![]), None);
    assert_eq!(median(&vec![7]), Some(7));
    assert_eq!(median(&vec![7, -7]), Some(7));
    assert_eq!(median(&vec![3, 1, 2]), Some(2));
    assert_eq!(median(&vec![5, 5, 5, 1]), Some(5));
    assert_eq!(median(&vec![i32::MAX, i32::MIN, 0]), Some(0));
    assert_eq!(minimum(&vec![]), None);
    assert_eq!(minimum(&vec![3, 1, 2]), Some(1));
    assert_eq!(minimum(&vec![i32::MAX, i32::MIN, 0]), Some(i32::MIN));
    assert_eq!(sorted_copy(&vec![3, 1, 2, 1, -4]), vec![-4, 1, 1, 2, 3]);
    assert_eq!(sorted_copy(&vec![]), Vec::<i32>::new());
}

#[test]
fn rolling_values_with_no_sample_at_the_index_leave_none_out() {
    let mut window = RecentWindow::new(86_400);
    assert_eq!(window.rolling_values(0, Channel::Temperature, 20), Vec::<i32>::new());
    for i in 0..3 {
        window.push(entry(JUNE_10_2025 + i * MINUTE, TODAY, 0, 1_000 * i as i32));
    }
    assert_eq!(window.rolling_values(3, Channel::Temperature, 20), vec![0, 1_000, 2_000]);
    assert_eq!(window.rolling_values(usize::MAX, Channel::Temperature, 2), vec![1_000, 2_000]);
}
