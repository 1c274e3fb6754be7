//! The reference temperature against which a rise is judged.

use vstd::prelude::*;
use crate::calendar::{day_key, day_key_at, DayKey};
use crate::config::AnomalyConfig;
use crate::window::{RecentWindow, WindowView};

verus! {

/// The baseline for day `day`: the median temperature of that day's
/// samples from before hour `before_hour`, if the store holds at least
/// three of them; failing that, the lowest temperature in the store, if it
/// holds at least ten samples; failing that, none.
pub open spec fn baseline_for(window: WindowView, day: DayKey, before_hour: u8) -> Option<i32> {
    match window.early_morning_median(day, before_hour) {
        Some(middle) => Some(middle),
        None => window.fallback_minimum(),
    }
}

/// The baseline for day `day`, from the samples in `window`.
pub fn estimate_for_day(window: &RecentWindow, day: DayKey, before_hour: u8) -> (baseline: Option<
    i32,
>)
    ensures
        baseline == baseline_for(window@, day, before_hour),
{
    match window.early_morning_median(day, before_hour) {
        Some(middle) => Some(middle),
        None => window.fallback_minimum(),
    }
}

/// The baseline at the instant `current_time`: that of its calendar day,
/// with the early morning ending where the configured daylight begins.
pub fn estimate(window: &RecentWindow, current_time: i64, config: &AnomalyConfig) -> (baseline:
    Option<i32>)
    ensures
        baseline == baseline_for(
            window@,
            day_key_at(current_time),
            config.daylight_start_hour,
        ),
{
    estimate_for_day(window, day_key(current_time), config.daylight_start_hour)
}

} // verus!
