//! The staged rules that turn one sample, a baseline and the thresholds
//! into a verdict.

use vstd::prelude::*;
use crate::config::AnomalyConfig;
use crate::flags::{AnomalyFlags, FlagsView, StageOutcome};
use crate::measurement::Sample;

verus! {

/// Whether the temperature of `sample` counts as risen: a baseline exists,
/// the temperature lies above it by at least the configured rise, and it
/// is not below the configured absolute minimum.
pub open spec fn has_risen(config: AnomalyConfig, sample: Sample, baseline: Option<i32>) -> bool {
    match baseline {
        Some(reference) => sample.temperature_milli_c - reference >= config.temp_above_daily_min
            && sample.temperature_milli_c >= config.temp_absolute_min_for_spike,
        None => false,
    }
}

/// What the rules find for `sample`, in their fixed order.
///
/// First, a humidity at or below the definite cutoff is an anomaly. Second,
/// and only if the first rule found nothing, a humidity at or below the
/// suspicious cutoff is an anomaly if the temperature has risen over the
/// baseline (then the temperature is one too), or if there is no baseline
/// and it is a warm hour of daylight. Third, unless the second rule has
/// said so already, a temperature risen over the baseline in daylight is
/// an anomaly. Fourth, a CO2 concentration at or above its threshold is an
/// anomaly at any hour. Last, sunlight is a possible cause in daylight
/// whenever the first rule fired or both humidity and temperature were
/// found anomalous.
pub open spec fn stage_outcome(config: AnomalyConfig, sample: Sample, baseline: Option<i32>)
    -> StageOutcome {
    let daylight = config.is_daylight(sample.hour);
    let warm = sample.temperature_milli_c >= config.temp_absolute_min_for_spike;
    let risen = has_risen(config, sample, baseline);
    let definite = sample.humidity_milli_pct <= config.humidity_definite_anomaly;
    let suspicious = !definite && sample.humidity_milli_pct <= config.humidity_suspicious;
    let corroborated = suspicious && risen;
    let unconfirmed = suspicious && baseline.is_none() && daylight && warm;
    let independent = !corroborated && risen && daylight;
    let temperature_spike = corroborated || independent;
    let humidity_spike = definite || corroborated || unconfirmed;
    StageOutcome {
        definite_humidity: definite,
        corroborated_humidity: corroborated,
        unconfirmed_humidity: unconfirmed,
        independent_temperature: independent,
        co2_over_threshold: sample.co2_ppm >= config.co2_spike_threshold,
        sunlight: daylight && (definite || (temperature_spike && humidity_spike)),
    }
}

/// The verdict of the staged rules on `sample`.
pub open spec fn staged_verdict(config: AnomalyConfig, sample: Sample, baseline: Option<i32>)
    -> FlagsView {
    FlagsView::of_stages(stage_outcome(config, sample, baseline))
}

/// What the rules find for `sample`, given the baseline.
pub fn evaluate_stages(config: &AnomalyConfig, sample: &Sample, baseline: Option<i32>) -> (outcome:
    StageOutcome)
    ensures
        outcome == stage_outcome(*config, *sample, baseline),
{
    let daylight = config.daylight(sample.hour);
    let warm = sample.temperature_milli_c >= config.temp_absolute_min_for_spike;
    let risen = match baseline {
        Some(reference) => sample.temperature_milli_c as i64 - reference as i64
            >= config.temp_above_daily_min as i64 && warm,
        None => false,
    };
    let definite = sample.humidity_milli_pct <= config.humidity_definite_anomaly;
    let suspicious = !definite && sample.humidity_milli_pct <= config.humidity_suspicious;
    let corroborated = suspicious && risen;
    let unconfirmed = suspicious && baseline.is_none() && daylight && warm;
    let independent = !corroborated && risen && daylight;
    let temperature_spike = corroborated || independent;
    let humidity_spike = definite || corroborated || unconfirmed;
    StageOutcome {
        definite_humidity: definite,
        corroborated_humidity: corroborated,
        unconfirmed_humidity: unconfirmed,
        independent_temperature: independent,
        co2_over_threshold: sample.co2_ppm as u32 >= config.co2_spike_threshold,
        sunlight: daylight && (definite || (temperature_spike && humidity_spike)),
    }
}

/// The verdict of the staged rules on `sample`, given the baseline.
pub fn classify(config: &AnomalyConfig, sample: &Sample, baseline: Option<i32>) -> (flags:
    AnomalyFlags)
    ensures
        flags@ == staged_verdict(*config, *sample, baseline),
{
    AnomalyFlags::from_stages(evaluate_stages(config, sample, baseline))
}

/// A humidity at or below the definite cutoff in daylight sets the
/// humidity indicator and the sunlight indicator, whatever the
/// temperature, the CO2 concentration and the baseline.
pub proof fn lemma_definite_humidity_in_daylight(
    config: AnomalyConfig,
    sample: Sample,
    baseline: Option<i32>,
)
    requires
        sample.humidity_milli_pct <= config.humidity_definite_anomaly,
        config.is_daylight(sample.hour),
    ensures
        staged_verdict(config, sample, baseline).humidity_spike,
        staged_verdict(config, sample, baseline).possible_sunlight,
{
}

/// A humidity at or below the definite cutoff sets the humidity indicator
/// at any hour; the cutoff itself is included.
pub proof fn lemma_definite_humidity_is_inclusive(
    config: AnomalyConfig,
    sample: Sample,
    baseline: Option<i32>,
)
    requires
        sample.humidity_milli_pct <= config.humidity_definite_anomaly,
    ensures
        staged_verdict(config, sample, baseline).humidity_spike,
        stage_outcome(config, sample, baseline).definite_humidity,
{
}

/// A humidity above the definite cutoff, be it by the least step, is not a
/// definite anomaly. The humidity indicator is then set only by the rule
/// on suspicious humidity: with a humidity at or below the suspicious
/// cutoff and either a temperature risen over the baseline or, for want of
/// a baseline, a warm hour of daylight.
pub proof fn lemma_humidity_above_definite_cutoff(
    config: AnomalyConfig,
    sample: Sample,
    baseline: Option<i32>,
)
    requires
        sample.humidity_milli_pct > config.humidity_definite_anomaly,
    ensures
        !stage_outcome(config, sample, baseline).definite_humidity,
        staged_verdict(config, sample, baseline).humidity_spike <==> sample.humidity_milli_pct
            <= config.humidity_suspicious && (has_risen(config, sample, baseline) || (
        baseline.is_none() && config.is_daylight(sample.hour) && sample.temperature_milli_c
            >= config.temp_absolute_min_for_spike)),
{
}

/// A CO2 concentration at or above the threshold sets the CO2 indicator,
/// at night as by day and whether or not any other indicator is set; one
/// below the threshold leaves it unset.
pub proof fn lemma_co2_threshold(config: AnomalyConfig, sample: Sample, baseline: Option<i32>)
    ensures
        staged_verdict(config, sample, baseline).co2_spike <==> sample.co2_ppm
            >= config.co2_spike_threshold,
{
}

/// Outside the daylight hours the staged rules never speak of sunlight.
pub proof fn lemma_no_sunlight_at_night(
    config: AnomalyConfig,
    sample: Sample,
    baseline: Option<i32>,
)
    requires
        !config.is_daylight(sample.hour),
    ensures
        !staged_verdict(config, sample, baseline).possible_sunlight,
{
}

/// Without a baseline the staged rules never set the temperature
/// indicator.
pub proof fn lemma_no_baseline_no_temperature_spike(config: AnomalyConfig, sample: Sample)
    ensures
        !staged_verdict(config, sample, None).temperature_spike,
{
}

} // verus!
