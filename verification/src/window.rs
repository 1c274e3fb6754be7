//! The store of recent samples: ordered by time and reaching back a fixed
//! span from the sample inserted last.

use vstd::prelude::*;
use crate::calendar::DayKey;
use crate::config::Channel;
use crate::measurement::Sample;
use crate::stats::{least_value, median, median_value};

verus! {

/// No sample stands before an older one.
pub open spec fn time_ordered(entries: Seq<Sample>) -> bool {
    forall|i: int, j: int|
        0 <= i <= j < entries.len() ==> (#[trigger] entries[i]).timestamp <= (
        #[trigger] entries[j]).timestamp
}

/// Where, among the first `upper` entries, a sample taken at `timestamp`
/// goes: behind the last of them that is not newer.
pub open spec fn insertion_point_below(entries: Seq<Sample>, timestamp: i64, upper: int) -> int
    decreases upper,
{
    if upper <= 0 {
        0
    } else if entries[upper - 1].timestamp <= timestamp {
        upper
    } else {
        insertion_point_below(entries, timestamp, upper - 1)
    }
}

/// Where a sample taken at `timestamp` goes: behind the last entry that is
/// not newer.
pub open spec fn insertion_point(entries: Seq<Sample>, timestamp: i64) -> int {
    insertion_point_below(entries, timestamp, entries.len() as int)
}

/// The index, from `from` on, of the first entry that is not older than
/// `cutoff`; the length if there is none.
pub open spec fn first_kept_from(entries: Seq<Sample>, cutoff: int, from: int) -> int
    decreases entries.len() - from,
{
    if from >= entries.len() {
        entries.len() as int
    } else if entries[from].timestamp >= cutoff {
        from
    } else {
        first_kept_from(entries, cutoff, from + 1)
    }
}

/// The temperatures of the entries of day `day` whose hour is below
/// `before_hour`, in the order of the entries.
pub open spec fn morning_temperatures(entries: Seq<Sample>, day: DayKey, before_hour: u8) -> Seq<
    i32,
>
    decreases entries.len(),
{
    if entries.len() == 0 {
        Seq::empty()
    } else {
        let rest = morning_temperatures(entries.drop_last(), day, before_hour);
        if entries.last().day == day && entries.last().hour < before_hour {
            rest.push(entries.last().temperature_milli_c)
        } else {
            rest
        }
    }
}

/// The temperatures of the entries, in their order.
pub open spec fn temperatures(entries: Seq<Sample>) -> Seq<i32> {
    Seq::new(entries.len(), |i: int| entries[i].temperature_milli_c)
}

/// What a sample holds on `channel`.
pub open spec fn channel_value(sample: Sample, channel: Channel) -> i32 {
    match channel {
        Channel::Temperature => sample.temperature_milli_c,
        Channel::Humidity => sample.humidity_milli_pct,
        Channel::Co2 => sample.co2_ppm as i32,
    }
}

/// The store as contracts see it.
pub struct WindowView {
    /// The stored samples, oldest first.
    pub entries: Seq<Sample>,
    /// How far back the store reaches, in seconds.
    pub horizon_seconds: u32,
    /// The timestamp of the sample inserted last; it means nothing while
    /// the store is empty.
    pub last_inserted: i64,
}

impl WindowView {
    /// The empty store that reaches back `horizon_seconds`.
    pub open spec fn empty(horizon_seconds: u32) -> WindowView {
        WindowView { entries: Seq::empty(), horizon_seconds, last_inserted: 0 }
    }

    /// The instant before which a sample is too old once one taken at
    /// `timestamp` has come in.
    pub open spec fn cutoff(self, timestamp: i64) -> int {
        timestamp - self.horizon_seconds * 1_000_000_000
    }

    /// The entries with `sample` put in at its place in time.
    pub open spec fn placed(self, sample: Sample) -> Seq<Sample> {
        self.entries.insert(insertion_point(self.entries, sample.timestamp), sample)
    }

    /// How many entries leave when `sample` comes in: those at the front
    /// that are older than its cutoff.
    pub open spec fn evicted(self, sample: Sample) -> int {
        first_kept_from(self.placed(sample), self.cutoff(sample.timestamp), 0)
    }

    /// The store after `sample` has come in.
    pub open spec fn push(self, sample: Sample) -> WindowView {
        WindowView {
            entries: self.placed(sample).skip(self.evicted(sample)),
            horizon_seconds: self.horizon_seconds,
            last_inserted: sample.timestamp,
        }
    }

    /// Where `sample` stands in the store after it has come in.
    pub open spec fn index_of_pushed(self, sample: Sample) -> int {
        insertion_point(self.entries, sample.timestamp) - self.evicted(sample)
    }

    /// The entries are ordered by time, the sample inserted last is among
    /// them, and none is older than the span allows.
    pub open spec fn wf(self) -> bool {
        &&& time_ordered(self.entries)
        &&& self.entries.len() > 0 ==> {
            &&& exists|i: int|
                0 <= i < self.entries.len() && (#[trigger] self.entries[i]).timestamp
                    == self.last_inserted
            &&& forall|i: int|
                0 <= i < self.entries.len() ==> (#[trigger] self.entries[i]).timestamp
                    >= self.cutoff(self.last_inserted)
        }
    }

    /// The median temperature of the entries of day `day` with an hour
    /// below `before_hour`, if there are at least three of them.
    pub open spec fn early_morning_median(self, day: DayKey, before_hour: u8) -> Option<i32> {
        let found = morning_temperatures(self.entries, day, before_hour);
        if found.len() < 3 {
            None
        } else {
            Some(median_value(found))
        }
    }

    /// The lowest temperature in the store, if it holds at least ten
    /// samples.
    pub open spec fn fallback_minimum(self) -> Option<i32> {
        if self.entries.len() < 10 {
            None
        } else {
            Some(least_value(temperatures(self.entries)))
        }
    }

    /// The entries other than the one at `index`; all of them if there is
    /// no entry at `index`.
    pub open spec fn others(self, index: int) -> Seq<Sample> {
        if 0 <= index < self.entries.len() {
            self.entries.remove(index)
        } else {
            self.entries
        }
    }

    /// What the entries other than the one at `index` hold on `channel`,
    /// oldest first, and of these only the last `size`.
    pub open spec fn rolling_values(self, index: int, channel: Channel, size: u16) -> Seq<i32> {
        let others = self.others(index);
        let start = if others.len() > size {
            others.len() - size
        } else {
            0
        };
        Seq::new((others.len() - start) as nat, |k: int| channel_value(others[start + k], channel))
    }
}

/// The insertion point lies behind every entry that is not newer than the
/// timestamp, as far as such entries stand at the end of the part looked
/// at, and before every entry that is newer.
pub proof fn lemma_insertion_point(entries: Seq<Sample>, timestamp: i64, upper: int)
    requires
        0 <= upper <= entries.len(),
    ensures
        ({
            let point = insertion_point_below(entries, timestamp, upper);
            &&& 0 <= point <= upper
            &&& point > 0 ==> entries[point - 1].timestamp <= timestamp
            &&& forall|i: int| point <= i < upper ==> (#[trigger] entries[i]).timestamp > timestamp
        }),
    decreases upper,
{
    if upper > 0 && entries[upper - 1].timestamp > timestamp {
        lemma_insertion_point(entries, timestamp, upper - 1);
    }
}

/// Every entry between `from` and the first kept one is older than the
/// cutoff, and the first kept one is not.
pub proof fn lemma_first_kept(entries: Seq<Sample>, cutoff: int, from: int)
    requires
        0 <= from <= entries.len(),
    ensures
        ({
            let kept = first_kept_from(entries, cutoff, from);
            &&& from <= kept <= entries.len()
            &&& kept < entries.len() ==> entries[kept].timestamp >= cutoff
            &&& forall|i: int| from <= i < kept ==> (#[trigger] entries[i]).timestamp < cutoff
        }),
    decreases entries.len() - from,
{
    if from < entries.len() && entries[from].timestamp < cutoff {
        lemma_first_kept(entries, cutoff, from + 1);
    }
}

/// What holds of a well-formed store after a sample has come in: it is
/// well formed again; the sample stands at the index given for it; and of
/// the old entries exactly those stay that are not older than the sample's
/// cutoff, in their old order.
pub proof fn lemma_push(window: WindowView, sample: Sample)
    requires
        window.wf(),
    ensures
        window.push(sample).wf(),
        0 <= window.evicted(sample) <= insertion_point(window.entries, sample.timestamp)
            <= window.entries.len(),
        0 <= window.index_of_pushed(sample) < window.push(sample).entries.len(),
        window.push(sample).entries[window.index_of_pushed(sample)] == sample,
        time_ordered(window.placed(sample)),
        forall|i: int|
            0 <= i < window.placed(sample).len() ==> ((#[trigger] window.placed(
                sample,
            )[i]).timestamp >= window.cutoff(sample.timestamp) <==> i >= window.evicted(sample)),
{
    let entries = window.entries;
    let point = insertion_point(entries, sample.timestamp);
    lemma_insertion_point(entries, sample.timestamp, entries.len() as int);
    let placed = window.placed(sample);
    let cutoff = window.cutoff(sample.timestamp);
    assert(placed[point] == sample);
    assert forall|i: int, j: int| 0 <= i <= j < placed.len() implies (#[trigger] placed[i]).timestamp
        <= (#[trigger] placed[j]).timestamp by {
        if i < point && j < point {
            assert(entries[i].timestamp <= entries[j].timestamp);
        } else if i < point && j == point {
            assert(entries[i].timestamp <= entries[point - 1].timestamp);
        } else if i < point && j > point {
            assert(entries[i].timestamp <= entries[j - 1].timestamp);
        } else if i == point && j > point {
            assert(entries[j - 1].timestamp > sample.timestamp);
        } else if i > point {
            assert(entries[i - 1].timestamp <= entries[j - 1].timestamp);
        }
    }
    lemma_first_kept(placed, cutoff, 0);
    let evicted = window.evicted(sample);
    assert(evicted <= point) by {
        if evicted > point {
            assert(placed[point].timestamp < cutoff);
        }
    }
    assert forall|i: int| 0 <= i < placed.len() implies ((#[trigger] placed[i]).timestamp >= cutoff
        <==> i >= evicted) by {
        if i >= evicted {
            assert(placed[evicted].timestamp <= placed[i].timestamp);
        }
    }
    let after = window.push(sample);
    assert(after.entries[point - evicted] == placed[point]);
    assert forall|i: int, j: int| 0 <= i <= j < after.entries.len() implies (
    #[trigger] after.entries[i]).timestamp <= (#[trigger] after.entries[j]).timestamp by {
        assert(after.entries[i] == placed[i + evicted]);
        assert(after.entries[j] == placed[j + evicted]);
    }
    assert forall|i: int| 0 <= i < after.entries.len() implies (
    #[trigger] after.entries[i]).timestamp >= after.cutoff(after.last_inserted) by {
        assert(after.entries[i] == placed[i + evicted]);
    }
}

/// The store of recent samples. It keeps them ordered by time and, each
/// time a sample comes in, drops those that lie further back from it than
/// the span the store was made with.
pub struct RecentWindow {
    entries: Vec<Sample>,
    horizon_seconds: u32,
    last_inserted: i64,
}

impl View for RecentWindow {
    type V = WindowView;

    closed spec fn view(&self) -> WindowView {
        WindowView {
            entries: self.entries@,
            horizon_seconds: self.horizon_seconds,
            last_inserted: self.last_inserted,
        }
    }
}

impl RecentWindow {
    /// An empty store that reaches back `horizon_seconds`.
    pub fn new(horizon_seconds: u32) -> (window: RecentWindow)
        ensures
            window@ == WindowView::empty(horizon_seconds),
            window@.wf(),
    {
        RecentWindow { entries: Vec::new(), horizon_seconds, last_inserted: 0 }
    }

    /// The number of samples in the store.
    pub fn len(&self) -> (count: usize)
        ensures
            count == self@.entries.len(),
    {
        self.entries.len()
    }

    /// The sample at `index`, counted from the oldest.
    pub fn get(&self, index: usize) -> (sample: Option<Sample>)
        ensures
            sample == (if index < self@.entries.len() {
                Some(self@.entries[index as int])
            } else {
                None
            }),
    {
        if index < self.entries.len() {
            Some(self.entries[index])
        } else {
            None
        }
    }

    /// Puts `sample` in at its place in time, behind the samples that are
    /// not newer, and drops every sample that is older than `sample` by
    /// more than the span of the store. Returns the index at which
    /// `sample` now stands.
    pub fn push(&mut self, sample: Sample) -> (index: usize)
        requires
            old(self)@.wf(),
        ensures
            final(self)@ == old(self)@.push(sample),
            index == old(self)@.index_of_pushed(sample),
            final(self)@.wf(),
            index < final(self)@.entries.len(),
            final(self)@.entries[index as int] == sample,
    {
        let ghost before = self@;
        let mut position: usize = self.entries.len();
        while position > 0 && self.entries[position - 1].timestamp > sample.timestamp
            invariant
                position <= self.entries.len(),
                self@ == before,
                insertion_point_below(self.entries@, sample.timestamp, position as int)
                    == insertion_point(self.entries@, sample.timestamp),
            decreases position,
        {
            position = position - 1;
        }
        self.entries.insert(position, sample);
        proof {
            lemma_push(before, sample);
            assert(self.entries@ == before.placed(sample));
        }
        let cutoff: i128 = sample.timestamp as i128 - (self.horizon_seconds as i128)
            * 1_000_000_000;
        let mut evicted: usize = 0;
        while evicted < self.entries.len() && (self.entries[evicted].timestamp as i128) < cutoff
            invariant
                evicted <= self.entries.len(),
                self.entries@ == before.placed(sample),
                cutoff == before.cutoff(sample.timestamp),
                first_kept_from(self.entries@, cutoff as int, evicted as int) == before.evicted(
                    sample,
                ),
            decreases self.entries.len() - evicted,
        {
            evicted = evicted + 1;
        }
        let kept = self.entries.split_off(evicted);
        self.entries = kept;
        self.last_inserted = sample.timestamp;
        proof {
            assert(self.entries@ =~= before.placed(sample).skip(evicted as int));
        }
        position - evicted
    }

    /// The median temperature of the samples of day `for_day` whose hour
    /// of the day is below `before_hour`, or `None` if there are fewer
    /// than three such samples.
    pub fn early_morning_median(&self, for_day: DayKey, before_hour: u8) -> (middle: Option<i32>)
        ensures
            middle == self@.early_morning_median(for_day, before_hour),
    {
        let mut found: Vec<i32> = Vec::new();
        let mut i: usize = 0;
        while i < self.entries.len()
            invariant
                i <= self.entries.len(),
                found@ == morning_temperatures(self.entries@.take(i as int), for_day, before_hour),
            decreases self.entries.len() - i,
        {
            proof {
                assert(self.entries@.take(i + 1).drop_last() =~= self.entries@.take(i as int));
            }
            let entry = self.entries[i];
            if entry.day == for_day && entry.hour < before_hour {
                found.push(entry.temperature_milli_c);
            }
            i = i + 1;
        }
        proof {
            assert(self.entries@.take(i as int) =~= self.entries@);
        }
        if found.len() < 3 {
            None
        } else {
            median(&found)
        }
    }

    /// The lowest temperature in the store, or `None` if it holds fewer
    /// than ten samples.
    pub fn fallback_minimum(&self) -> (least: Option<i32>)
        ensures
            least == self@.fallback_minimum(),
    {
        if self.entries.len() < 10 {
            return None;
        }
        let ghost all = temperatures(self.entries@);
        let mut least: i32 = self.entries[0].temperature_milli_c;
        let mut i: usize = 1;
        proof {
            assert(all.take(1).len() == 1);
        }
        while i < self.entries.len()
            invariant
                1 <= i <= self.entries.len(),
                all == temperatures(self.entries@),
                least == least_value(all.take(i as int)),
            decreases self.entries.len() - i,
        {
            proof {
                assert(all.take(i + 1).drop_last() =~= all.take(i as int));
            }
            if self.entries[i].temperature_milli_c < least {
                least = self.entries[i].temperature_milli_c;
            }
            i = i + 1;
        }
        proof {
            assert(all.take(i as int) =~= all);
        }
        Some(least)
    }

    /// What the samples other than the one at `index` hold on `channel`,
    /// oldest first, and of these only the last `size`. If there is no
    /// sample at `index`, none is left out.
    pub fn rolling_values(&self, index: usize, channel: Channel, size: u16) -> (values: Vec<i32>)
        ensures
            values@ == self@.rolling_values(index as int, channel, size),
    {
        let ghost others = self@.others(index as int);
        let count: usize = if index < self.entries.len() {
            self.entries.len() - 1
        } else {
            self.entries.len()
        };
        let start: usize = if count > size as usize {
            count - size as usize
        } else {
            0
        };
        let mut values: Vec<i32> = Vec::new();
        let mut k: usize = start;
        while k < count
            invariant
                start <= k <= count,
                count == others.len(),
                count <= self.entries.len(),
                index < self.entries.len() ==> count == self.entries.len() - 1,
                others == self@.others(index as int),
                values@.len() == k - start,
                forall|j: int|
                    0 <= j < k - start ==> values@[j] == channel_value(others[start + j], channel),
            decreases count - k,
        {
            let entry = if k < index {
                self.entries[k]
            } else {
                self.entries[k + 1]
            };
            let value: i32 = match channel {
                Channel::Temperature => entry.temperature_milli_c,
                Channel::Humidity => entry.humidity_milli_pct,
                Channel::Co2 => entry.co2_ppm as i32,
            };
            values.push(value);
            k = k + 1;
        }
        proof {
            assert(values@ =~= self@.rolling_values(index as int, channel, size));
        }
        values
    }
}

} // verus!
