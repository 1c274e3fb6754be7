//! The detector: the state that one device's measurements run through, and
//! the two ways of feeding it, one measurement at a time or a whole batch.

use vstd::prelude::*;
use crate::baseline::{baseline_for, estimate_for_day};
use crate::classifier::{classify, staged_verdict};
use crate::config::{AnomalyConfig, Channel};
use crate::flags::{AnomalyFlags, FlagsView, RollingOutcome};
use crate::measurement::{Measurement, Sample};
use crate::profile::{DailyProfileBuilder, ProfilesView};
use crate::rolling::{check, rolling_verdict, RollingVerdict};
use crate::window::{channel_value, lemma_push, RecentWindow, WindowView};

verus! {

/// Whether the rolling test calls `sample` an anomaly on `channel`, given
/// the store in which it stands at `index`.
pub open spec fn rolling_flag(
    config: AnomalyConfig,
    window: WindowView,
    index: int,
    sample: Sample,
    channel: Channel,
) -> bool {
    rolling_verdict(
        channel_value(sample, channel),
        window.rolling_values(index, channel, config.rolling_window_size),
        config.rolling_window_size,
        config.min_abs_delta_of(channel),
        config.z_score_of(channel),
    ) == RollingVerdict::Anomalous
}

/// What the rolling test finds for `sample` on each channel. The values it
/// is held against are those of the other samples in the store.
pub open spec fn rolling_outcome_of(
    config: AnomalyConfig,
    window: WindowView,
    index: int,
    sample: Sample,
) -> RollingOutcome {
    RollingOutcome {
        temperature: rolling_flag(config, window, index, sample, Channel::Temperature),
        humidity: rolling_flag(config, window, index, sample, Channel::Humidity),
        co2: rolling_flag(config, window, index, sample, Channel::Co2),
    }
}

/// While the store holds fewer than five samples besides the newest, the
/// rolling test finds nothing on any channel, whatever the sample.
pub proof fn lemma_rolling_needs_five_earlier_samples(
    config: AnomalyConfig,
    window: WindowView,
    index: int,
    sample: Sample,
)
    requires
        window.others(index).len() < 5,
    ensures
        rolling_outcome_of(config, window, index, sample) == (RollingOutcome {
            temperature: false,
            humidity: false,
            co2: false,
        }),
        FlagsView::of_rolling(rolling_outcome_of(config, window, index, sample))
            == FlagsView::none(),
{
}

/// The rolling test on `sample`, which stands at `index` in `window`.
pub fn rolling_outcome(config: &AnomalyConfig, window: &RecentWindow, index: usize, sample: &Sample)
    -> (outcome: RollingOutcome)
    ensures
        outcome == rolling_outcome_of(*config, window@, index as int, *sample),
{
    let size = config.rolling_window_size;
    let temperatures = window.rolling_values(index, Channel::Temperature, size);
    let humidities = window.rolling_values(index, Channel::Humidity, size);
    let concentrations = window.rolling_values(index, Channel::Co2, size);
    RollingOutcome {
        temperature: check(sample.temperature_milli_c, Channel::Temperature, &temperatures, config)
            .is_anomalous(),
        humidity: check(sample.humidity_milli_pct, Channel::Humidity, &humidities, config)
            .is_anomalous(),
        co2: check(sample.co2_ppm as i32, Channel::Co2, &concentrations, config).is_anomalous(),
    }
}

/// The verdict of the rolling test alone on `sample`, which stands at
/// `index` in `window`.
pub fn rolling_flags(config: &AnomalyConfig, window: &RecentWindow, index: usize, sample: &Sample)
    -> (flags: AnomalyFlags)
    ensures
        flags@ == FlagsView::of_rolling(
            rolling_outcome_of(*config, window@, index as int, *sample),
        ),
{
    AnomalyFlags::from_rolling(rolling_outcome(config, window, index, sample))
}

/// The detector as contracts see it.
pub struct DetectorView {
    pub config: AnomalyConfig,
    pub profiles: ProfilesView,
    pub window: WindowView,
}

impl DetectorView {
    /// A detector that has seen nothing.
    pub open spec fn fresh(config: AnomalyConfig) -> DetectorView {
        DetectorView {
            config,
            profiles: ProfilesView::empty(),
            window: WindowView::empty(config.window_horizon_seconds),
        }
    }

    /// The profiles and the store are well formed, and the store reaches
    /// back as far as the configuration says.
    pub open spec fn wf(self) -> bool {
        &&& self.profiles.wf()
        &&& self.window.wf()
        &&& self.window.horizon_seconds == self.config.window_horizon_seconds
    }

    /// The detector after `sample`: the day's profile has taken it in, and
    /// so has the store.
    pub open spec fn after(self, sample: Sample) -> DetectorView {
        DetectorView {
            config: self.config,
            profiles: self.profiles.observe_sample(sample),
            window: self.window.push(sample),
        }
    }

    /// The detector after each of `samples` in turn.
    pub open spec fn after_all(self, samples: Seq<Sample>) -> DetectorView
        decreases samples.len(),
    {
        if samples.len() == 0 {
            self
        } else {
            self.after_all(samples.drop_last()).after(samples.last())
        }
    }

    /// The verdict on `sample`. The sample goes into the store first; the
    /// baseline is that of the sample's day in the store as it then is;
    /// the staged rules give the verdict; and where the rolling test is
    /// switched on, what it finds is added.
    pub open spec fn verdict(self, sample: Sample) -> FlagsView {
        let window = self.window.push(sample);
        let baseline = baseline_for(window, sample.day, self.config.daylight_start_hour);
        let staged = staged_verdict(self.config, sample, baseline);
        if self.config.rolling_enabled {
            staged.or(
                FlagsView::of_rolling(
                    rolling_outcome_of(
                        self.config,
                        window,
                        self.window.index_of_pushed(sample),
                        sample,
                    ),
                ),
            )
        } else {
            staged
        }
    }

    /// The verdicts on `samples`, fed in their order: each is the verdict
    /// of the detector as the samples before it have left it.
    pub open spec fn verdicts(self, samples: Seq<Sample>) -> Seq<FlagsView> {
        Seq::new(
            samples.len(),
            |i: int| self.after_all(samples.take(i)).verdict(samples[i]),
        )
    }
}

/// The rules are applied to every sample: a humidity at or below the
/// definite cutoff in daylight sets the humidity and sunlight indicators of
/// the detector's verdict, in whatever state the detector is and whether
/// or not the rolling test is switched on.
pub proof fn lemma_verdict_on_definite_humidity(detector: DetectorView, sample: Sample)
    requires
        sample.humidity_milli_pct <= detector.config.humidity_definite_anomaly,
    ensures
        detector.verdict(sample).humidity_spike,
        detector.config.is_daylight(sample.hour) ==> detector.verdict(sample).possible_sunlight,
{
}

/// A CO2 concentration at or above the threshold sets the CO2 indicator of
/// the detector's verdict in every state and at every hour.
pub proof fn lemma_verdict_on_co2(detector: DetectorView, sample: Sample)
    requires
        sample.co2_ppm >= detector.config.co2_spike_threshold,
    ensures
        detector.verdict(sample).co2_spike,
{
}

/// A verdict depends on the configuration and on the store of recent
/// samples, not on the daily profiles.
pub proof fn lemma_verdict_ignores_profiles(
    first: DetectorView,
    second: DetectorView,
    sample: Sample,
)
    requires
        first.config == second.config,
        first.window == second.window,
    ensures
        first.verdict(sample) == second.verdict(sample),
        first.after(sample).window == second.after(sample).window,
        first.after(sample).config == second.after(sample).config,
{
}

/// Feeding samples leaves the configuration as it is, feeds each to the
/// profiles, and keeps a well-formed detector well formed.
pub proof fn lemma_after_all(detector: DetectorView, samples: Seq<Sample>)
    ensures
        detector.after_all(samples).config == detector.config,
        detector.after_all(samples).profiles == detector.profiles.observe_all(samples),
        detector.after_all(samples).window.horizon_seconds == detector.window.horizon_seconds,
        detector.window.wf() ==> detector.after_all(samples).window.wf(),
    decreases samples.len(),
{
    if samples.len() > 0 {
        lemma_after_all(detector, samples.drop_last());
        if detector.window.wf() {
            lemma_push(detector.after_all(samples.drop_last()).window, samples.last());
        }
    }
}

/// Batch and stream agree: the verdicts on a batch with one more sample
/// are the verdicts on the batch, and then the verdict that the detector
/// gives on that sample once the batch has run through it.
pub proof fn lemma_verdicts_one_by_one(detector: DetectorView, samples: Seq<Sample>, next: Sample)
    ensures
        detector.verdicts(samples.push(next)) == detector.verdicts(samples).push(
            detector.after_all(samples).verdict(next),
        ),
        detector.after_all(samples.push(next)) == detector.after_all(samples).after(next),
{
    let longer = samples.push(next);
    assert(longer.drop_last() =~= samples);
    assert forall|i: int| 0 <= i < longer.len() implies detector.verdicts(longer)[i]
        == detector.verdicts(samples).push(detector.after_all(samples).verdict(next))[i] by {
        if i < samples.len() {
            assert(longer.take(i) =~= samples.take(i));
        } else {
            assert(longer.take(i) =~= samples);
        }
    }
    assert(detector.verdicts(longer) =~= detector.verdicts(samples).push(
        detector.after_all(samples).verdict(next),
    ));
}

/// Replaying the same samples gives the same verdicts: two detectors with
/// the same configuration and the same store, two fresh ones above all,
/// agree on every verdict and end with the same store.
pub proof fn lemma_replay_is_deterministic(
    first: DetectorView,
    second: DetectorView,
    samples: Seq<Sample>,
)
    requires
        first.config == second.config,
        first.window == second.window,
    ensures
        first.verdicts(samples) == second.verdicts(samples),
        first.after_all(samples).window == second.after_all(samples).window,
        first.after_all(samples).config == second.after_all(samples).config,
{
    lemma_replay_agrees_on_prefix(first, second, samples);
    assert forall|i: int| 0 <= i < samples.len() implies first.verdicts(samples)[i]
        == second.verdicts(samples)[i] by {
        lemma_replay_agrees_on_prefix(first, second, samples.take(i));
    }
    assert(first.verdicts(samples) =~= second.verdicts(samples));
}

/// After the same samples, two detectors with the same configuration and
/// store still have the same configuration and store.
proof fn lemma_replay_agrees_on_prefix(
    first: DetectorView,
    second: DetectorView,
    samples: Seq<Sample>,
)
    requires
        first.config == second.config,
        first.window == second.window,
    ensures
        first.after_all(samples).window == second.after_all(samples).window,
        first.after_all(samples).config == second.after_all(samples).config,
    decreases samples.len(),
{
    if samples.len() > 0 {
        lemma_replay_agrees_on_prefix(first, second, samples.drop_last());
    }
}

/// The detector for the measurements of one device. It owns the daily
/// profiles and the store of recent samples; the configuration it is made
/// with never changes.
pub struct AnomalyDetector {
    config: AnomalyConfig,
    profiles: DailyProfileBuilder,
    window: RecentWindow,
}

impl View for AnomalyDetector {
    type V = DetectorView;

    closed spec fn view(&self) -> DetectorView {
        DetectorView { config: self.config, profiles: self.profiles@, window: self.window@ }
    }
}

impl AnomalyDetector {
    /// A detector that has seen nothing.
    pub fn new(config: AnomalyConfig) -> (detector: AnomalyDetector)
        ensures
            detector@ == DetectorView::fresh(config),
            detector@.wf(),
    {
        AnomalyDetector {
            config,
            profiles: DailyProfileBuilder::new(),
            window: RecentWindow::new(config.window_horizon_seconds),
        }
    }

    /// The configuration the detector was made with.
    pub fn config(&self) -> (config: AnomalyConfig)
        ensures
            config == self@.config,
    {
        self.config
    }

    /// The daily profiles.
    pub fn profiles(&self) -> (profiles: &DailyProfileBuilder)
        ensures
            profiles@ == self@.profiles,
    {
        &self.profiles
    }

    /// The store of recent samples.
    pub fn window(&self) -> (window: &RecentWindow)
        ensures
            window@ == self@.window,
    {
        &self.window
    }

    /// Puts `sample` into the store and gives the verdict on it. The daily
    /// profiles stay as they are.
    pub(crate) fn judge(&mut self, sample: Sample) -> (flags: AnomalyFlags)
        requires
            old(self)@.wf(),
        ensures
            flags@ == old(self)@.verdict(sample),
            final(self)@.window == old(self)@.window.push(sample),
            final(self)@.profiles == old(self)@.profiles,
            final(self)@.config == old(self)@.config,
            final(self)@.wf(),
    {
        let index = self.window.push(sample);
        let baseline = estimate_for_day(&self.window, sample.day, self.config.daylight_start_hour);
        let staged = classify(&self.config, &sample, baseline);
        if self.config.rolling_enabled {
            let rolling = rolling_flags(&self.config, &self.window, index, &sample);
            staged.or(&rolling)
        } else {
            staged
        }
    }

    /// Feeds `sample` to the daily profiles. The store stays as it is.
    pub(crate) fn seed_profile(&mut self, sample: Sample)
        requires
            old(self)@.wf(),
        ensures
            final(self)@.profiles == old(self)@.profiles.observe_sample(sample),
            final(self)@.window == old(self)@.window,
            final(self)@.config == old(self)@.config,
            final(self)@.wf(),
    {
        self.profiles.observe(sample.day, sample.temperature_milli_c, sample.humidity_milli_pct);
    }

    /// Takes in `sample` and gives the verdict on it.
    pub fn observe(&mut self, sample: Sample) -> (flags: AnomalyFlags)
        requires
            old(self)@.wf(),
        ensures
            flags@ == old(self)@.verdict(sample),
            final(self)@ == old(self)@.after(sample),
            final(self)@.wf(),
    {
        self.profiles.observe(sample.day, sample.temperature_milli_c, sample.humidity_milli_pct);
        self.judge(sample)
    }

    /// Takes in one measurement of a live feed and gives the verdict on
    /// it. The instant of the measurement is its own timestamp; no clock
    /// is read.
    pub fn analyze_one(&mut self, measurement: &Measurement) -> (flags: AnomalyFlags)
        requires
            old(self)@.wf(),
        ensures
            flags@ == old(self)@.verdict(measurement@.sample()),
            final(self)@ == old(self)@.after(measurement@.sample()),
            final(self)@.wf(),
    {
        let sample = measurement.sample();
        self.observe(sample)
    }
}

} // verus!
