//! The rolling statistical test: is the newest value far from the mean of
//! the values before it, both in absolute terms and in standard
//! deviations?
//!
//! All comparisons are made on integers, cleared of denominators, so that
//! they are exact. With `n` values of sum `S` and sum of squares `Q`, the
//! mean is `S / n` and the population variance `(n * Q - S * S) / (n * n)`.
//! A value `x` lies further than `d` from the mean exactly if
//! `|n * x - S| > n * d`, and further than `z / 1000` standard deviations
//! exactly if `1_000_000 * (n * x - S)^2 > z^2 * (n * Q - S * S)`.

use vstd::prelude::*;
use crate::config::{AnomalyConfig, Channel};

verus! {

/// The least number of earlier values that the test needs.
pub const MIN_ROLLING_SAMPLES: usize = 5;

/// What the test says of a value.
#[derive(Clone, Copy, Debug, PartialEq, Eq, Structural)]
pub enum RollingVerdict {
    /// Fewer than five earlier values: nothing can be said.
    InsufficientData,
    /// The value is not an anomaly.
    Normal,
    /// The value is an anomaly.
    Anomalous,
}

/// The sum of `values`.
pub open spec fn sum(values: Seq<i32>) -> int
    decreases values.len(),
{
    if values.len() == 0 {
        0
    } else {
        sum(values.drop_last()) + values.last()
    }
}

/// The sum of the squares of `values`.
pub open spec fn sum_of_squares(values: Seq<i32>) -> int
    decreases values.len(),
{
    if values.len() == 0 {
        0
    } else {
        sum_of_squares(values.drop_last()) + values.last() * values.last()
    }
}

/// The distance of `value` from the mean of `values`, times their number.
pub open spec fn scaled_deviation(value: i32, values: Seq<i32>) -> int {
    let d = values.len() * value - sum(values);
    if d < 0 {
        -d
    } else {
        d
    }
}

/// The population variance of `values`, times the square of their number.
pub open spec fn scaled_variance(values: Seq<i32>) -> int {
    values.len() * sum_of_squares(values) - sum(values) * sum(values)
}

/// Whether `value` lies further than `delta` from the mean of `values`.
pub open spec fn exceeds_delta(value: i32, values: Seq<i32>, delta: u32) -> bool {
    scaled_deviation(value, values) > values.len() * delta
}

/// Whether `value` lies further from the mean of `values` than `z_milli`
/// thousandths of their standard deviation.
pub open spec fn exceeds_deviations(value: i32, values: Seq<i32>, z_milli: u16) -> bool {
    1_000_000 * (scaled_deviation(value, values) * scaled_deviation(value, values)) > (z_milli
        * z_milli) * scaled_variance(values)
}

/// The last `size` of `values`, or all of them if they are fewer.
pub open spec fn trailing(values: Seq<i32>, size: u16) -> Seq<i32> {
    if values.len() > size {
        values.skip(values.len() - size)
    } else {
        values
    }
}

/// The verdict on `value` after the values `values`, of which the last
/// `size` count: an anomaly if `value` lies further from their mean than
/// `delta` and also further than `z_milli` thousandths of their standard
/// deviation; no verdict if fewer than five values count.
pub open spec fn rolling_verdict(
    value: i32,
    values: Seq<i32>,
    size: u16,
    delta: u32,
    z_milli: u16,
) -> RollingVerdict {
    let recent = trailing(values, size);
    if recent.len() < MIN_ROLLING_SAMPLES {
        RollingVerdict::InsufficientData
    } else if exceeds_delta(value, recent, delta) && exceeds_deviations(value, recent, z_milli) {
        RollingVerdict::Anomalous
    } else {
        RollingVerdict::Normal
    }
}

/// With fewer than five earlier values the test gives no verdict, whatever
/// the value and the thresholds.
pub proof fn lemma_no_verdict_below_five(
    value: i32,
    values: Seq<i32>,
    size: u16,
    delta: u32,
    z_milli: u16,
)
    requires
        values.len() < MIN_ROLLING_SAMPLES || size < MIN_ROLLING_SAMPLES,
    ensures
        rolling_verdict(value, values, size, delta, z_milli) == RollingVerdict::InsufficientData,
{
}

proof fn lemma_spread_step(n: int, total: int, squares: int, v: int, x: int)
    by (nonlinear_arith)
    requires
        n * (x * x) - 2 * total * x + squares >= 0,
    ensures
        (n + 1) * (x * x) - 2 * (total + v) * x + (squares + v * v) >= 0,
{
    assert((n + 1) * (x * x) - 2 * (total + v) * x + (squares + v * v) == (n * (x * x) - 2 * total
        * x + squares) + (x - v) * (x - v));
    assert((x - v) * (x - v) >= 0);
}

proof fn lemma_variance_step(n: int, total: int, squares: int, x: int)
    by (nonlinear_arith)
    requires
        n * squares - total * total >= 0,
        n * (x * x) - 2 * total * x + squares >= 0,
    ensures
        (n + 1) * (squares + x * x) - (total + x) * (total + x) >= 0,
{
    assert((n + 1) * (squares + x * x) - (total + x) * (total + x) == (n * squares - total * total)
        + (n * (x * x) - 2 * total * x + squares));
}

/// The sum of the squared distances of `values` from `x` is not negative.
proof fn lemma_spread_is_not_negative(values: Seq<i32>, x: int)
    ensures
        values.len() * (x * x) - 2 * sum(values) * x + sum_of_squares(values) >= 0,
    decreases values.len(),
{
    if values.len() == 0 {
        assert(0 * (x * x) - 2 * 0 * x + 0 >= 0) by (nonlinear_arith);
    } else {
        let rest = values.drop_last();
        lemma_spread_is_not_negative(rest, x);
        lemma_spread_step(
            rest.len() as int,
            sum(rest),
            sum_of_squares(rest),
            values.last() as int,
            x,
        );
    }
}

/// The variance is not negative, so the test in standard deviations
/// compares the square of a distance with the square of a distance.
pub proof fn lemma_variance_is_not_negative(values: Seq<i32>)
    ensures
        scaled_variance(values) >= 0,
    decreases values.len(),
{
    if values.len() == 0 {
        assert(0 * 0 - 0 * 0 >= 0) by (nonlinear_arith);
    } else {
        let rest = values.drop_last();
        lemma_variance_is_not_negative(rest);
        lemma_spread_is_not_negative(rest, values.last() as int);
        lemma_variance_step(
            rest.len() as int,
            sum(rest),
            sum_of_squares(rest),
            values.last() as int,
        );
    }
}

proof fn lemma_square_bound(v: int, bound: int)
    by (nonlinear_arith)
    requires
        -bound <= v <= bound,
    ensures
        0 <= v * v <= bound * bound,
{
}

proof fn lemma_product_bound(a: int, b: int, a_max: int, b_max: int)
    by (nonlinear_arith)
    requires
        0 <= a <= a_max,
        0 <= b <= b_max,
    ensures
        0 <= a * b <= a_max * b_max,
{
}

proof fn lemma_signed_product_bound(a: int, b: int, a_max: int, b_max: int)
    by (nonlinear_arith)
    requires
        0 <= a <= a_max,
        -b_max <= b <= b_max,
    ensures
        -(a_max * b_max) <= a * b <= a_max * b_max,
{
}

impl RollingVerdict {
    /// Whether the verdict is that of an anomaly.
    pub fn is_anomalous(&self) -> (anomalous: bool)
        ensures
            anomalous == (*self == RollingVerdict::Anomalous),
    {
        match self {
            RollingVerdict::Anomalous => true,
            _ => false,
        }
    }
}

/// The rolling test on `current_value`, given the values of the same
/// channel that came before it, oldest first. Only as many of the latest
/// of them count as the configuration's rolling window is long.
pub fn check(
    current_value: i32,
    channel: Channel,
    window_values: &Vec<i32>,
    config: &AnomalyConfig,
) -> (verdict: RollingVerdict)
    ensures
        verdict == rolling_verdict(
            current_value,
            window_values@,
            config.rolling_window_size,
            config.min_abs_delta_of(channel),
            config.z_score_of(channel),
        ),
{
    let size: usize = config.rolling_window_size as usize;
    let start: usize = if window_values.len() > size {
        window_values.len() - size
    } else {
        0
    };
    let count: usize = window_values.len() - start;
    let ghost recent = trailing(window_values@, config.rolling_window_size);
    proof {
        assert(recent =~= window_values@.skip(start as int));
    }
    if count < MIN_ROLLING_SAMPLES {
        return RollingVerdict::InsufficientData;
    }
    let mut total: i128 = 0;
    let mut squares: i128 = 0;
    let mut k: usize = 0;
    while k < count
        invariant
            k <= count,
            count <= 65535,
            count == window_values.len() - start,
            recent == window_values@.skip(start as int),
            total == sum(recent.take(k as int)),
            squares == sum_of_squares(recent.take(k as int)),
            -(k * 0x8000_0000) <= total <= k * 0x8000_0000,
            0 <= squares <= k * 0x4000_0000_0000_0000,
        decreases count - k,
    {
        let v: i128 = window_values[start + k] as i128;
        proof {
            assert(recent.take(k + 1).drop_last() =~= recent.take(k as int));
            assert(recent.take(k + 1).last() == v);
            lemma_square_bound(v as int, 0x8000_0000);
        }
        total = total + v;
        squares = squares + v * v;
        k = k + 1;
    }
    proof {
        assert(recent.take(k as int) =~= recent);
    }
    let n: i128 = count as i128;
    let x: i128 = current_value as i128;
    let delta: i128 = config.min_abs_delta(channel) as i128;
    let z: i128 = config.z_score(channel) as i128;
    proof {
        lemma_signed_product_bound(n as int, x as int, 65535, 0x8000_0000);
        lemma_product_bound(n as int, delta as int, 65535, 0xffff_ffff);
        lemma_product_bound(z as int, z as int, 65535, 65535);
        lemma_product_bound(n as int, squares as int, 65535, 302226843217638866288640);
        lemma_square_bound(total as int, 140735340871680);
    }
    let difference: i128 = n * x - total;
    let deviation: i128 = if difference < 0 {
        -difference
    } else {
        difference
    };
    proof {
        lemma_square_bound(deviation as int, 281470681743360);
        assert(281470681743360int * 281470681743360 == 79225744681071852408904089600int);
    }
    let deviation_squared: i128 = deviation * deviation;
    let variance: i128 = n * squares - total * total;
    let z_squared: i128 = z * z;
    proof {
        assert(65535int * 302226843217638866288640 == 19806436170267963102226022400int);
        assert(140735340871680int * 140735340871680 == 19806436170267963102226022400int);
        lemma_signed_product_bound(
            z_squared as int,
            variance as int,
            4294836225,
            19806436170267963102226022400,
        );
        assert(4294836225int * 19806436170267963102226022400
            == 85065399552217115888403699141181440000int);
    }
    let far: bool = deviation > n * delta;
    let unusual: bool = 1_000_000 * deviation_squared > z_squared * variance;
    if far && unusual {
        RollingVerdict::Anomalous
    } else {
        RollingVerdict::Normal
    }
}

} // verus!
