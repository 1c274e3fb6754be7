//! Per-day minimum and maximum of temperature and humidity.

use vstd::prelude::*;
use crate::calendar::DayKey;
use crate::measurement::{batch_samples, samples_of, Measurement, Sample};

verus! {

/// The extremes seen on one calendar day and how many samples they come
/// from. A profile with `count == 0` is empty: its other fields mean
/// nothing.
#[derive(Clone, Copy, Debug, PartialEq, Eq, Structural)]
pub struct DailyProfile {
    pub day_key: DayKey,
    pub temp_min: i32,
    pub temp_max: i32,
    pub humidity_min: i32,
    pub humidity_max: i32,
    pub count: u64,
}

impl DailyProfile {
    /// In a profile that is not empty no minimum lies above its maximum.
    pub open spec fn wf(self) -> bool {
        self.count > 0 ==> self.temp_min <= self.temp_max && self.humidity_min
            <= self.humidity_max
    }

    /// The empty profile.
    pub open spec fn empty() -> DailyProfile {
        DailyProfile {
            day_key: DayKey { year: 0, ordinal: 0 },
            temp_min: 0,
            temp_max: 0,
            humidity_min: 0,
            humidity_max: 0,
            count: 0,
        }
    }

    /// The profile of a day of which one sample is known.
    pub open spec fn seeded(day: DayKey, temperature: i32, humidity: i32) -> DailyProfile {
        DailyProfile {
            day_key: day,
            temp_min: temperature,
            temp_max: temperature,
            humidity_min: humidity,
            humidity_max: humidity,
            count: 1,
        }
    }

    /// This profile after one more sample of its day. The count stops at
    /// the largest `u64`.
    pub open spec fn widened(self, temperature: i32, humidity: i32) -> DailyProfile {
        DailyProfile {
            day_key: self.day_key,
            temp_min: if temperature < self.temp_min {
                temperature
            } else {
                self.temp_min
            },
            temp_max: if temperature > self.temp_max {
                temperature
            } else {
                self.temp_max
            },
            humidity_min: if humidity < self.humidity_min {
                humidity
            } else {
                self.humidity_min
            },
            humidity_max: if humidity > self.humidity_max {
                humidity
            } else {
                self.humidity_max
            },
            count: if self.count < u64::MAX {
                (self.count + 1) as u64
            } else {
                self.count
            },
        }
    }
}

/// The state of a builder as contracts see it: the profile of the day in
/// progress and the profiles of the days completed before it, oldest
/// first.
pub struct ProfilesView {
    pub current: DailyProfile,
    pub history: Seq<DailyProfile>,
}

impl ProfilesView {
    /// Nothing seen yet.
    pub open spec fn empty() -> ProfilesView {
        ProfilesView { current: DailyProfile::empty(), history: Seq::empty() }
    }

    /// The state after a sample of day `day`. A sample of another day than
    /// the current one moves the current profile to the history and starts
    /// a new one; a sample of the same day widens the current profile.
    pub open spec fn observe(self, day: DayKey, temperature: i32, humidity: i32) -> ProfilesView {
        if self.current.count == 0 {
            ProfilesView {
                current: DailyProfile::seeded(day, temperature, humidity),
                history: self.history,
            }
        } else if self.current.day_key != day {
            ProfilesView {
                current: DailyProfile::seeded(day, temperature, humidity),
                history: self.history.push(self.current),
            }
        } else {
            ProfilesView {
                current: self.current.widened(temperature, humidity),
                history: self.history,
            }
        }
    }

    /// The state after `sample`.
    pub open spec fn observe_sample(self, sample: Sample) -> ProfilesView {
        self.observe(sample.day, sample.temperature_milli_c, sample.humidity_milli_pct)
    }

    /// The state after each of `samples` in turn.
    pub open spec fn observe_all(self, samples: Seq<Sample>) -> ProfilesView
        decreases samples.len(),
    {
        if samples.len() == 0 {
            self
        } else {
            self.observe_all(samples.drop_last()).observe_sample(samples.last())
        }
    }

    /// Every profile is well formed and no completed one is empty.
    pub open spec fn wf(self) -> bool {
        &&& self.current.wf()
        &&& forall|i: int|
            0 <= i < self.history.len() ==> (#[trigger] self.history[i]).wf()
                && self.history[i].count > 0
    }
}

/// Builds the daily profiles from the samples it is fed.
pub struct DailyProfileBuilder {
    current: DailyProfile,
    history: Vec<DailyProfile>,
}

impl View for DailyProfileBuilder {
    type V = ProfilesView;

    closed spec fn view(&self) -> ProfilesView {
        ProfilesView { current: self.current, history: self.history@ }
    }
}

impl DailyProfileBuilder {
    /// A builder that has seen nothing.
    pub fn new() -> (builder: DailyProfileBuilder)
        ensures
            builder@ == ProfilesView::empty(),
            builder@.wf(),
    {
        DailyProfileBuilder {
            current: DailyProfile {
                day_key: DayKey { year: 0, ordinal: 0 },
                temp_min: 0,
                temp_max: 0,
                humidity_min: 0,
                humidity_max: 0,
                count: 0,
            },
            history: Vec::new(),
        }
    }

    /// Takes in a sample of day `day`.
    pub fn observe(&mut self, day: DayKey, temperature: i32, humidity: i32)
        ensures
            final(self)@ == old(self)@.observe(day, temperature, humidity),
            old(self)@.wf() ==> final(self)@.wf(),
    {
        let seed = DailyProfile {
            day_key: day,
            temp_min: temperature,
            temp_max: temperature,
            humidity_min: humidity,
            humidity_max: humidity,
            count: 1,
        };
        if self.current.count == 0 {
            self.current = seed;
        } else if self.current.day_key != day {
            let done = self.current;
            self.history.push(done);
            self.current = seed;
        } else {
            if temperature < self.current.temp_min {
                self.current.temp_min = temperature;
            }
            if temperature > self.current.temp_max {
                self.current.temp_max = temperature;
            }
            if humidity < self.current.humidity_min {
                self.current.humidity_min = humidity;
            }
            if humidity > self.current.humidity_max {
                self.current.humidity_max = humidity;
            }
            if self.current.count < u64::MAX {
                self.current.count = self.current.count + 1;
            }
        }
    }

    /// Takes in a measurement. The day it belongs to is the calendar day
    /// of its timestamp.
    pub fn update(&mut self, measurement: &Measurement)
        ensures
            final(self)@ == old(self)@.observe_sample(measurement@.sample()),
            old(self)@.wf() ==> final(self)@.wf(),
    {
        let sample = measurement.sample();
        self.observe(sample.day, sample.temperature_milli_c, sample.humidity_milli_pct);
    }

    /// Takes in every sample, in the order given.
    pub fn observe_all(&mut self, samples: &Vec<Sample>)
        ensures
            final(self)@ == old(self)@.observe_all(samples@),
            old(self)@.wf() ==> final(self)@.wf(),
    {
        let mut i: usize = 0;
        while i < samples.len()
            invariant
                i <= samples.len(),
                self@ == old(self)@.observe_all(samples@.take(i as int)),
                old(self)@.wf() ==> self@.wf(),
            decreases samples.len() - i,
        {
            proof {
                assert(samples@.take(i + 1).drop_last() =~= samples@.take(i as int));
            }
            let sample = samples[i];
            self.observe(sample.day, sample.temperature_milli_c, sample.humidity_milli_pct);
            i = i + 1;
        }
        proof {
            assert(samples@.take(i as int) =~= samples@);
        }
    }

    /// Takes in every measurement of a batch, in its order.
    pub fn update_all(&mut self, measurements: &Vec<Measurement>)
        ensures
            final(self)@ == old(self)@.observe_all(batch_samples(measurements@)),
            old(self)@.wf() ==> final(self)@.wf(),
    {
        let samples = samples_of(measurements);
        self.observe_all(&samples);
    }

    /// The profiles of a batch of measurements, replayed in its order. An
    /// empty batch gives an empty history.
    pub fn build_from_batch(measurements: &Vec<Measurement>) -> (builder: DailyProfileBuilder)
        ensures
            builder@ == ProfilesView::empty().observe_all(batch_samples(measurements@)),
            builder@.wf(),
    {
        let mut builder = DailyProfileBuilder::new();
        builder.update_all(measurements);
        builder
    }

    /// The profile of the day in progress, if any sample has been seen.
    pub fn current(&self) -> (profile: Option<DailyProfile>)
        ensures
            profile == (if self@.current.count == 0 {
                None
            } else {
                Some(self@.current)
            }),
    {
        if self.current.count == 0 {
            None
        } else {
            Some(self.current)
        }
    }

    /// The profiles of the completed days, oldest first.
    pub fn history(&self) -> (days: &Vec<DailyProfile>)
        ensures
            days@ == self@.history,
    {
        &self.history
    }
}

/// Whatever sample comes in, every profile stays well formed: no minimum
/// lies above its maximum, and no completed day is empty.
pub proof fn lemma_observe_keeps_profiles_well_formed(
    profiles: ProfilesView,
    day: DayKey,
    temperature: i32,
    humidity: i32,
)
    requires
        profiles.wf(),
    ensures
        profiles.observe(day, temperature, humidity).wf(),
        profiles.observe(day, temperature, humidity).current.count > 0,
{
}

/// Feeding the same sample a second time, as when a measurement is
/// delivered twice, raises the count of the day's profile by one (until it
/// is full) and changes nothing else: not the extremes, not the day, not
/// the history.
pub proof fn lemma_repeated_sample_keeps_extremes(
    profiles: ProfilesView,
    day: DayKey,
    temperature: i32,
    humidity: i32,
)
    ensures
        ({
            let once = profiles.observe(day, temperature, humidity);
            let twice = once.observe(day, temperature, humidity);
            &&& twice.history == once.history
            &&& twice.current.day_key == once.current.day_key
            &&& twice.current.temp_min == once.current.temp_min
            &&& twice.current.temp_max == once.current.temp_max
            &&& twice.current.humidity_min == once.current.humidity_min
            &&& twice.current.humidity_max == once.current.humidity_max
            &&& once.current.count < u64::MAX ==> twice.current.count == once.current.count + 1
        }),
{
}

/// A sample of the current day whose values lie within the extremes seen
/// so far changes only the count.
pub proof fn lemma_sample_within_range_changes_only_count(
    profiles: ProfilesView,
    day: DayKey,
    temperature: i32,
    humidity: i32,
)
    requires
        profiles.current.count > 0,
        profiles.current.day_key == day,
        profiles.current.temp_min <= temperature <= profiles.current.temp_max,
        profiles.current.humidity_min <= humidity <= profiles.current.humidity_max,
    ensures
        ({
            let after = profiles.observe(day, temperature, humidity);
            &&& after.history == profiles.history
            &&& after.current == (DailyProfile { count: after.current.count, ..profiles.current })
            &&& profiles.current.count < u64::MAX ==> after.current.count
                == profiles.current.count + 1
        }),
{
}

} // verus!
