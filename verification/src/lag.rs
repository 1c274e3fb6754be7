//! Looking up, in measurements ordered by time, the one nearest to an
//! instant some way back or ahead.

use vstd::prelude::*;
use crate::calendar::whole_minutes;
use crate::measurement::Measurement;

verus! {

/// How many measurements back a look-up into the past goes at most.
pub const LOOKBACK_LIMIT: usize = 400;

/// How many whole minutes a measurement may lie from the instant looked
/// for in the past.
pub const PAST_TOLERANCE_MINUTES: i64 = 10;

/// How far before the instant looked for, in minutes, a measurement must
/// lie for the look-up to give up.
pub const PAST_GIVE_UP_MINUTES: i64 = 20;

/// How many whole minutes a measurement may lie from the instant looked
/// for ahead.
pub const FUTURE_TOLERANCE_MINUTES: i64 = 5;

/// How far ahead, in minutes, the value to be forecast lies.
pub const FORECAST_MINUTES: i64 = 60;

/// An index as a mathematical integer.
pub open spec fn as_index(found: Option<usize>) -> Option<int> {
    match found {
        Some(index) => Some(index as int),
        None => None,
    }
}

/// Whether a count of minutes lies within `tolerance` of zero.
pub open spec fn near(minutes: int, tolerance: int) -> bool {
    -tolerance <= minutes <= tolerance
}

/// The instant `minutes_back` minutes before `reference`.
pub open spec fn instant_before(reference: i64, minutes_back: u32) -> int {
    reference - minutes_back * 60_000_000_000
}

/// The index below which a look-up into the past from `current_index`
/// does not go.
pub open spec fn lookback_floor(current_index: int) -> int {
    if current_index > LOOKBACK_LIMIT {
        current_index - LOOKBACK_LIMIT
    } else {
        0
    }
}

/// The look-up into the past among the measurements from `floor` up to,
/// but not including, `below`, going from the latest back: the first
/// measurement within ten whole minutes of `target` is the match; the
/// look-up gives up at the first measurement that lies more than twenty
/// minutes before `target`.
pub open spec fn past_match(measurements: Seq<Measurement>, target: int, floor: int, below: int)
    -> Option<int>
    decreases below - floor,
{
    if below <= floor {
        None
    } else {
        let at = measurements[below - 1].timestamp;
        if near(whole_minutes(target - at), PAST_TOLERANCE_MINUTES as int) {
            Some(below - 1)
        } else if at < target - PAST_GIVE_UP_MINUTES * 60_000_000_000 {
            None
        } else {
            past_match(measurements, target, floor, below - 1)
        }
    }
}

/// The look-up ahead among the measurements from `from` on, going forward:
/// the first measurement within five whole minutes of `target` is the
/// match; the look-up gives up at the first measurement that lies more
/// than five whole minutes behind `target`.
pub open spec fn future_match(measurements: Seq<Measurement>, target: int, from: int) -> Option<
    int,
>
    decreases measurements.len() - from,
{
    if from >= measurements.len() {
        None
    } else {
        let minutes = whole_minutes(measurements[from].timestamp - target);
        if near(minutes, FUTURE_TOLERANCE_MINUTES as int) {
            Some(from)
        } else if minutes > FUTURE_TOLERANCE_MINUTES {
            None
        } else {
            future_match(measurements, target, from + 1)
        }
    }
}

/// The measurement before `current_index` that stands for the instant
/// `minutes_back` minutes before `reference`.
pub open spec fn found_past(
    measurements: Seq<Measurement>,
    reference: i64,
    minutes_back: u32,
    current_index: int,
) -> Option<int> {
    past_match(
        measurements,
        instant_before(reference, minutes_back),
        lookback_floor(current_index),
        current_index,
    )
}

/// The measurement after `current_index` that stands for the instant one
/// hour after the measurement at `current_index`.
pub open spec fn found_future(measurements: Seq<Measurement>, current_index: int) -> Option<int> {
    future_match(
        measurements,
        measurements[current_index].timestamp + FORECAST_MINUTES * 60_000_000_000,
        current_index + 1,
    )
}

fn span_minutes(span: i128) -> (minutes: i128)
    requires
        i128::MIN < span,
    ensures
        minutes == whole_minutes(span as int),
{
    if span >= 0 {
        span / 60_000_000_000
    } else {
        -((-span) / 60_000_000_000)
    }
}

/// Looks among the measurements before `current_index`, at most 400 of
/// them and the latest first, for one within ten whole minutes of the
/// instant `minutes_back` minutes before `reference`. Gives up at the
/// first measurement more than twenty minutes before that instant.
pub fn find_past(
    measurements: &Vec<Measurement>,
    reference: i64,
    minutes_back: u32,
    current_index: usize,
) -> (found: Option<usize>)
    requires
        current_index <= measurements@.len(),
    ensures
        as_index(found) == found_past(measurements@, reference, minutes_back, current_index as int),
        found matches Some(index) ==> index < current_index,
{
    let target: i128 = reference as i128 - (minutes_back as i128) * 60_000_000_000;
    let floor: usize = if current_index > LOOKBACK_LIMIT {
        current_index - LOOKBACK_LIMIT
    } else {
        0
    };
    let mut below: usize = current_index;
    while below > floor
        invariant
            floor <= below <= current_index <= measurements@.len(),
            target == instant_before(reference, minutes_back),
            floor == lookback_floor(current_index as int),
            past_match(measurements@, target as int, floor as int, below as int) == found_past(
                measurements@,
                reference,
                minutes_back,
                current_index as int,
            ),
        decreases below,
    {
        let at: i128 = measurements[below - 1].timestamp as i128;
        let minutes = span_minutes(target - at);
        if -(PAST_TOLERANCE_MINUTES as i128) <= minutes && minutes <= PAST_TOLERANCE_MINUTES as i128 {
            return Some(below - 1);
        }
        if at < target - (PAST_GIVE_UP_MINUTES as i128) * 60_000_000_000 {
            return None;
        }
        below = below - 1;
    }
    None
}

/// Looks among the measurements after `current_index`, in their order,
/// for one within five whole minutes of the instant one hour after the
/// measurement at `current_index`. Gives up at the first measurement more
/// than five whole minutes behind that instant.
pub fn find_future(measurements: &Vec<Measurement>, current_index: usize) -> (found: Option<usize>)
    requires
        current_index < measurements@.len(),
    ensures
        as_index(found) == found_future(measurements@, current_index as int),
        found matches Some(index) ==> current_index < index < measurements@.len(),
{
    let count: usize = measurements.len();
    let target: i128 = measurements[current_index].timestamp as i128 + (FORECAST_MINUTES as i128)
        * 60_000_000_000;
    let mut from: usize = current_index + 1;
    while from < count
        invariant
            count == measurements@.len(),
            current_index < from <= measurements@.len(),
            target == measurements@[current_index as int].timestamp + FORECAST_MINUTES
                * 60_000_000_000,
            future_match(measurements@, target as int, from as int) == found_future(
                measurements@,
                current_index as int,
            ),
        decreases measurements@.len() - from,
    {
        let minutes = span_minutes(measurements[from].timestamp as i128 - target);
        if -(FUTURE_TOLERANCE_MINUTES as i128) <= minutes && minutes
            <= FUTURE_TOLERANCE_MINUTES as i128 {
            return Some(from);
        }
        if minutes > FUTURE_TOLERANCE_MINUTES as i128 {
            return None;
        }
        from = from + 1;
    }
    None
}

} // verus!
