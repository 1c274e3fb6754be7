use air_quality::config::{AnomalyConfig, Channel};
use air_quality::rolling::{check, RollingVerdict, MIN_ROLLING_SAMPLES};

#[test]
fn fewer_than_five_values_give_no_verdict() {
    let config = AnomalyConfig::default();
    assert_eq!(MIN_ROLLING_SAMPLES, 5);
    for count in 0..5usize {
        let values = vec![10_000; count];
        for current in [i32::MIN, -1, 0, 10_000, 1_000_000, i32::MAX] {
            for channel in [Channel::Temperature, Channel::Humidity, Channel::Co2] {
                let verdict = check(current, channel, &values, &config);
                assert_eq!(verdict, RollingVerdict::InsufficientData);
                assert!(!verdict.is_anomalous());
            }
        }
    }
    assert_ne!(
        check(1_000_000, Channel::Temperature, &vec![10_000; 5], &config),
        RollingVerdict::InsufficientData
    );
}

#[test]
fn a_jump_after_a_steady_run_is_an_anomaly() {
    let config = AnomalyConfig::default();
    let steady = vec![10_000; 5];
    let verdict = check(20_000, Channel::Temperature, &steady, &config);
    assert_eq!(verdict, RollingVerdict::Anomalous);
    assert!(verdict.is_anomalous());
    assert_eq!(check(0, Channel::Temperature, &steady, &config), RollingVerdict::Anomalous);
}

#[test]
fn a_small_move_after_a_steady_run_is_none() {
    let config = AnomalyConfig::default();
    let steady = vec![10_000; 5];
    assert_eq!(check(10_500, Channel::Temperature, &steady, &config), RollingVerdict::Normal);
    assert_eq!(check(10_000, Channel::Temperature, &steady, &config), RollingVerdict::Normal);
}

#[test]
fn the_least_deviation_is_exclusive() {
    let config = AnomalyConfig::default();
    let steady = vec![10_000; 5];
    assert_eq!(check(11_000, Channel::Temperature, &steady, &config), RollingVerdict::Normal);
    assert_eq!(check(11_001, Channel::Temperature, &steady, &config), RollingVerdict::Anomalous);
    assert_eq!(check(9_000, Channel::Temperature, &steady, &config), RollingVerdict::Normal);
    assert_eq!(check(8_999, Channel::Temperature, &steady, &config), RollingVerdict::Anomalous);
}

#[test]
fn a_large_move_within_a_restless_run_is_none() {
    let config = AnomalyConfig::default();
    let restless = vec![0, 20_000, 0, 20_000, 10_000];
    assert_eq!(check(30_000, Channel::Temperature, &restless, &config), RollingVerdict::Normal);
    let lenient = AnomalyConfig { z_score_temperature: 2_000, ..config };
    assert_eq!(check(30_000, Channel::Temperature, &restless, &lenient), RollingVerdict::Anomalous);
}

#[test]
fn the_test_in_standard_deviations_is_exact_at_its_edge() {
    // Values 0, 0, 0, 0, 10: mean 2, variance 16, standard deviation 4.
    // With z = 2 a value must lie more than 8 from the mean.
    let config = AnomalyConfig {
        z_score_co2: 2_000,
        min_abs_delta_co2: 0,
        ..AnomalyConfig::default()
    };
    let values = vec![0, 0, 0, 0, 10];
    assert_eq!(check(10, Channel::Co2, &values, &config), RollingVerdict::Normal);
    assert_eq!(check(11, Channel::Co2, &values, &config), RollingVerdict::Anomalous);
    assert_eq!(check(-6, Channel::Co2, &values, &config), RollingVerdict::Normal);
    assert_eq!(check(-7, Channel::Co2, &values, &config), RollingVerdict::Anomalous);
}

#[test]
fn each_channel_has_its_own_thresholds() {
    let config = AnomalyConfig::default();
    let steady = vec![500; 5];
    assert_eq!(check(550, Channel::Co2, &steady, &config), RollingVerdict::Normal);
    assert_eq!(check(551, Channel::Co2, &steady, &config), RollingVerdict::Anomalous);
    assert_eq!(check(1_501, Channel::Temperature, &steady, &config), RollingVerdict::Anomalous);
    assert_eq!(check(1_501, Channel::Humidity, &steady, &config), RollingVerdict::Normal);
    assert_eq!(check(5_501, Channel::Humidity, &steady, &config), RollingVerdict::Anomalous);
}

#[test]
fn only_the_latest_values_count() {
    let config = AnomalyConfig { rolling_window_size: 5, ..AnomalyConfig::default() };
    let values = vec![1_000_000, 1_000_000, 10_000, 10_000, 10_000, 10_000, 10_000];
    assert_eq!(check(20_000, Channel::Temperature, &values, &config), RollingVerdict::Anomalous);
    let wide = AnomalyConfig { rolling_window_size: 7, ..config };
    assert_eq!(check(20_000, Channel::Temperature, &values, &wide), RollingVerdict::Normal);
}

#[test]
fn a_window_shorter_than_five_never_gives_a_verdict() {
    let config = AnomalyConfig { rolling_window_size: 4, ..AnomalyConfig::default() };
    let values = vec![10_000; 50];
    assert_eq!(
        check(1_000_000, Channel::Temperature, &values, &config),
        RollingVerdict::InsufficientData
    );
}

#[test]
fn a_z_score_of_zero_leaves_the_least_deviation_to_decide() {
    let config = AnomalyConfig { z_score_temperature: 0, ..AnomalyConfig::default() };
    let restless = vec![0, 20_000, 0, 20_000, 10_000];
    assert_eq!(check(11_001, Channel::Temperature, &restless, &config), RollingVerdict::Anomalous);
    assert_eq!(check(11_000, Channel::Temperature, &restless, &config), RollingVerdict::Normal);
}

#[test]
fn the_largest_values_do_not_overflow() {
    let config = AnomalyConfig {
        rolling_window_size: u16::MAX,
        z_score_temperature: u16::MAX,
        min_abs_delta_temperature: u32::MAX,
        ..AnomalyConfig::default()
    };
    let mut values = vec![i32::MIN; 40_000];
    values.extend(vec![i32::MAX; 40_000]);
    assert_eq!(check(i32::MAX, Channel::Temperature, &values, &config), RollingVerdict::Normal);
    let sharp = AnomalyConfig { z_score_temperature: 0, min_abs_delta_temperature: 0, ..config };
    assert_eq!(check(i32::MAX, Channel::Temperature, &values, &sharp), RollingVerdict::Anomalous);
    let all_low = vec![i32::MIN; 70_000];
    assert_eq!(check(i32::MAX, Channel::Temperature, &all_low, &sharp), RollingVerdict::Anomalous);
}
