//! The verdict on a window of measurements, and a sliding window of the
//! latest measurements that is judged each time one comes in.

use vstd::prelude::*;
use crate::config::{default_config, AnomalyConfig};
use crate::detector::{lemma_after_all, AnomalyDetector, DetectorView};
use crate::driver::{flagged_records, record_views, FlaggedRecord};
use crate::flags::{AnomalyFlags, FlagsView};
use crate::measurement::{batch_samples, Measurement};
use crate::ring::{latest, lemma_push_keeps_latest, ReadingRing, RingView};

verus! {

/// The measurements of `data` that are not older than `cutoff`, in their
/// order.
pub open spec fn kept_since(data: Seq<Measurement>, cutoff: int) -> Seq<Measurement>
    decreases data.len(),
{
    if data.len() == 0 {
        Seq::empty()
    } else {
        let rest = kept_since(data.drop_last(), cutoff);
        if data.last().timestamp >= cutoff {
            rest.push(data.last())
        } else {
            rest
        }
    }
}

/// The measurements of `data` that lie no more than `hours` hours before
/// its last one; none if there are none.
pub open spec fn within_hours(data: Seq<Measurement>, hours: u32) -> Seq<Measurement> {
    if data.len() == 0 {
        Seq::empty()
    } else {
        kept_since(data, data.last().timestamp - hours * 3_600_000_000_000)
    }
}

/// The verdict on a window of measurements: the verdict that a detector
/// with the default thresholds, having seen nothing before, gives on the
/// last measurement of the window once the ones before it have run
/// through it in their order. There is no verdict on an empty window.
pub open spec fn window_verdict(window: Seq<Measurement>) -> FlagsView {
    if window.len() == 0 {
        FlagsView::none()
    } else {
        DetectorView::fresh(default_config()).after_all(
            batch_samples(window.drop_last()),
        ).verdict(window.last()@.sample())
    }
}

/// The verdicts on `measurements` as each in turn enters a sliding window
/// of `size` measurements.
pub open spec fn sliding_verdicts(measurements: Seq<Measurement>, size: nat) -> Seq<FlagsView> {
    Seq::new(
        measurements.len(),
        |i: int| window_verdict(latest(measurements.take(i + 1), size)),
    )
}

/// A window that ends in a humidity at or below the definite cutoff sets
/// the humidity indicator, whatever came before and whatever the
/// temperature; in the daylight hours it sets the sunlight indicator too.
pub proof fn lemma_window_with_definite_humidity(window: Seq<Measurement>)
    requires
        window.len() > 0,
        window.last().humidity_milli_pct <= default_config().humidity_definite_anomaly,
    ensures
        window_verdict(window).humidity_spike,
        default_config().is_daylight(window.last()@.sample().hour) ==> window_verdict(
            window,
        ).possible_sunlight,
{
    lemma_after_all(
        DetectorView::fresh(default_config()),
        batch_samples(window.drop_last()),
    );
}

/// A window that ends in a CO2 concentration at or above the threshold
/// sets the CO2 indicator, at any hour and whatever came before.
pub proof fn lemma_window_with_co2(window: Seq<Measurement>)
    requires
        window.len() > 0,
        window.last().co2_ppm >= default_config().co2_spike_threshold,
    ensures
        window_verdict(window).co2_spike,
{
    lemma_after_all(
        DetectorView::fresh(default_config()),
        batch_samples(window.drop_last()),
    );
}

/// A window whose last measurement meets none of the thresholds sets no
/// indicator, however the measurements before it differ from it.
pub proof fn lemma_window_below_all_thresholds(window: Seq<Measurement>)
    requires
        window.len() > 0,
        window.last().humidity_milli_pct > default_config().humidity_suspicious,
        window.last().temperature_milli_c < default_config().temp_absolute_min_for_spike,
        window.last().co2_ppm < default_config().co2_spike_threshold,
    ensures
        window_verdict(window) == FlagsView::none(),
{
    lemma_after_all(
        DetectorView::fresh(default_config()),
        batch_samples(window.drop_last()),
    );
    let verdict = window_verdict(window);
    assert(verdict.reason =~= Seq::<char>::empty());
}

/// The measurements of `data` that lie no more than `hours_to_include`
/// hours before the last one, in their order.
pub fn get_values_from_time_window(data: &Vec<Measurement>, hours_to_include: u32) -> (scope: Vec<
    Measurement,
>)
    ensures
        scope@ == within_hours(data@, hours_to_include),
{
    let mut scope: Vec<Measurement> = Vec::new();
    if data.len() == 0 {
        return scope;
    }
    let newest: i128 = data[data.len() - 1].timestamp as i128;
    let cutoff: i128 = newest - (hours_to_include as i128) * 3_600_000_000_000;
    let mut i: usize = 0;
    while i < data.len()
        invariant
            i <= data.len(),
            scope@ == kept_since(data@.take(i as int), cutoff as int),
        decreases data.len() - i,
    {
        proof {
            assert(data@.take(i + 1).drop_last() =~= data@.take(i as int));
        }
        if data[i].timestamp as i128 >= cutoff {
            scope.push(data[i].clone());
        }
        i = i + 1;
    }
    proof {
        assert(data@.take(i as int) =~= data@);
    }
    scope
}

/// The verdict on a window of measurements, oldest first: the rules of
/// the detector, with the default thresholds, applied to the newest
/// measurement, with the measurements before it as its history. An empty
/// window sets no indicator.
pub fn analyse_measurements_window(measurements: &Vec<Measurement>) -> (flags: AnomalyFlags)
    ensures
        flags@ == window_verdict(measurements@),
{
    if measurements.len() == 0 {
        return AnomalyFlags::default();
    }
    let last: usize = measurements.len() - 1;
    let ghost earlier = batch_samples(measurements@.drop_last());
    let mut detector = AnomalyDetector::new(AnomalyConfig::default());
    let mut i: usize = 0;
    proof {
        assert(earlier.take(0) =~= Seq::empty());
    }
    while i < last
        invariant
            i <= last,
            last == measurements@.len() - 1,
            earlier == batch_samples(measurements@.drop_last()),
            detector@.wf(),
            detector@ == DetectorView::fresh(default_config()).after_all(earlier.take(i as int)),
        decreases last - i,
    {
        proof {
            assert(earlier.take(i + 1).drop_last() =~= earlier.take(i as int));
            assert(earlier.take(i + 1).last() == measurements@[i as int]@.sample());
        }
        detector.analyze_one(&measurements[i]);
        i = i + 1;
    }
    proof {
        assert(earlier.take(i as int) =~= earlier);
    }
    detector.analyze_one(&measurements[last])
}

/// A sliding window of the latest measurements, judged each time a
/// measurement comes in.
pub struct SlidingMonitor {
    ring: ReadingRing,
}

impl View for SlidingMonitor {
    type V = RingView;

    closed spec fn view(&self) -> RingView {
        self.ring@
    }
}

impl SlidingMonitor {
    /// A monitor whose window has room for `window_size` measurements.
    pub fn new(window_size: u16) -> (monitor: SlidingMonitor)
        ensures
            monitor@.items == Seq::<Measurement>::empty(),
            monitor@.capacity == window_size,
            monitor@.wf(),
    {
        SlidingMonitor { ring: ReadingRing::with_capacity(window_size) }
    }

    /// Lets `measurement` into the window, where it pushes the oldest one
    /// out once the window is full, and gives the verdict on the window.
    pub fn observe(&mut self, measurement: Measurement) -> (flags: AnomalyFlags)
        requires
            old(self)@.wf(),
        ensures
            final(self)@ == old(self)@.push(measurement),
            final(self)@.wf(),
            flags@ == window_verdict(final(self)@.items),
    {
        self.ring.push(measurement);
        let window = self.ring.to_vec();
        analyse_measurements_window(&window)
    }
}

/// Runs `measurements` through a sliding window of `window_size` and
/// returns those on which the verdict on the window set an indicator, in
/// their order.
pub fn mark_history(measurements: &Vec<Measurement>, window_size: u16) -> (records: Vec<
    FlaggedRecord,
>)
    ensures
        record_views(records@) == flagged_records(
            measurements@,
            sliding_verdicts(measurements@, window_size as nat),
        ),
{
    let ghost verdicts = sliding_verdicts(measurements@, window_size as nat);
    let mut monitor = SlidingMonitor::new(window_size);
    let mut records: Vec<FlaggedRecord> = Vec::new();
    let mut i: usize = 0;
    proof {
        assert(measurements@.take(0) =~= Seq::<Measurement>::empty());
    }
    while i < measurements.len()
        invariant
            i <= measurements.len(),
            verdicts == sliding_verdicts(measurements@, window_size as nat),
            monitor@.wf(),
            monitor@.capacity == window_size,
            monitor@.items == latest(measurements@.take(i as int), window_size as nat),
            record_views(records@) == flagged_records(
                measurements@.take(i as int),
                verdicts.take(i as int),
            ),
        decreases measurements.len() - i,
    {
        let measurement = &measurements[i];
        proof {
            lemma_push_keeps_latest(
                measurements@.take(i as int),
                window_size as nat,
                *measurement,
            );
            assert(measurements@.take(i + 1) =~= measurements@.take(i as int).push(*measurement));
            assert(measurements@.take(i + 1).drop_last() =~= measurements@.take(i as int));
            assert(verdicts.take(i + 1).drop_last() =~= verdicts.take(i as int));
        }
        let flags = monitor.observe(measurement.clone());
        if flags.is_any_true() {
            let ghost before = record_views(records@);
            let record = FlaggedRecord {
                timestamp: measurement.timestamp,
                flags,
                device: measurement.device.clone(),
            };
            records.push(record);
            proof {
                assert(record_views(records@) =~= before.push(record@));
            }
        }
        i = i + 1;
    }
    proof {
        assert(measurements@.take(i as int) =~= measurements@);
        assert(verdicts.take(i as int) =~= verdicts);
    }
    records
}

} // verus!
