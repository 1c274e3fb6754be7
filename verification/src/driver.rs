//! Replay of a batch of measurements and the report on it.

use vstd::prelude::*;
use crate::detector::{lemma_after_all, AnomalyDetector, DetectorView};
use crate::flags::{AnomalyFlags, FlagsView};
use crate::measurement::{batch_samples, Measurement, Sample};

verus! {

/// A measurement on which some indicator was set.
#[derive(Debug, PartialEq, Eq)]
pub struct FlaggedRecord {
    pub timestamp: i64,
    pub flags: AnomalyFlags,
    pub device: String,
}

/// A flagged measurement as contracts see it.
pub struct FlaggedRecordView {
    pub timestamp: i64,
    pub flags: FlagsView,
    pub device: Seq<char>,
}

impl View for FlaggedRecord {
    type V = FlaggedRecordView;

    open spec fn view(&self) -> FlaggedRecordView {
        FlaggedRecordView { timestamp: self.timestamp, flags: self.flags@, device: self.device@ }
    }
}

/// The summary of a replay.
#[derive(Debug, PartialEq, Eq)]
pub struct BatchReport {
    /// How many measurements were replayed.
    pub total: usize,
    /// On how many of them some indicator was set.
    pub flagged: usize,
    /// On how many of them the sunlight indicator was set.
    pub sunlight_events: usize,
    /// The flagged measurements, in the order of the batch.
    pub flagged_records: Vec<FlaggedRecord>,
}

/// A report as contracts see it.
pub struct BatchReportView {
    pub total: nat,
    pub flagged: nat,
    pub sunlight_events: nat,
    pub flagged_records: Seq<FlaggedRecordView>,
}

/// The views of `records`, in their order.
pub open spec fn record_views(records: Seq<FlaggedRecord>) -> Seq<FlaggedRecordView> {
    Seq::new(records.len(), |i: int| records[i]@)
}

impl View for BatchReport {
    type V = BatchReportView;

    open spec fn view(&self) -> BatchReportView {
        BatchReportView {
            total: self.total as nat,
            flagged: self.flagged as nat,
            sunlight_events: self.sunlight_events as nat,
            flagged_records: record_views(self.flagged_records@),
        }
    }
}

/// A batch was not in the order of time: the measurement at `index` is
/// older than the one before it, and it is the first such.
#[derive(Clone, Copy, Debug, PartialEq, Eq, Structural)]
pub struct OrderingViolation {
    pub index: usize,
}

/// No measurement is older than the one before it.
pub open spec fn chronological(measurements: Seq<Measurement>) -> bool {
    forall|i: int|
        0 <= i < measurements.len() - 1 ==> (#[trigger] measurements[i]).timestamp
            <= measurements[i + 1].timestamp
}

/// The measurement at `index` is older than the one before it, and no
/// measurement before it is.
pub open spec fn first_out_of_order(measurements: Seq<Measurement>, index: int) -> bool {
    &&& 1 <= index < measurements.len()
    &&& measurements[index].timestamp < measurements[index - 1].timestamp
    &&& forall|i: int|
        0 <= i < index - 1 ==> (#[trigger] measurements[i]).timestamp <= measurements[i
            + 1].timestamp
}

/// The records of those measurements whose verdict sets some indicator, in
/// the order of the measurements.
pub open spec fn flagged_records(measurements: Seq<Measurement>, verdicts: Seq<FlagsView>) -> Seq<
    FlaggedRecordView,
>
    recommends
        measurements.len() == verdicts.len(),
    decreases measurements.len(),
{
    if measurements.len() == 0 {
        Seq::empty()
    } else {
        let rest = flagged_records(measurements.drop_last(), verdicts.drop_last());
        if verdicts.last().any() {
            rest.push(
                FlaggedRecordView {
                    timestamp: measurements.last().timestamp,
                    flags: verdicts.last(),
                    device: measurements.last().device@,
                },
            )
        } else {
            rest
        }
    }
}

/// How many of the verdicts set the sunlight indicator.
pub open spec fn sunlight_count(verdicts: Seq<FlagsView>) -> nat
    decreases verdicts.len(),
{
    if verdicts.len() == 0 {
        0
    } else if verdicts.last().possible_sunlight {
        sunlight_count(verdicts.drop_last()) + 1
    } else {
        sunlight_count(verdicts.drop_last())
    }
}

/// The report on the replay of `measurements` through `detector`.
pub open spec fn batch_report(detector: DetectorView, measurements: Seq<Measurement>)
    -> BatchReportView {
    let verdicts = detector.verdicts(batch_samples(measurements));
    let records = flagged_records(measurements, verdicts);
    BatchReportView {
        total: measurements.len(),
        flagged: records.len(),
        sunlight_events: sunlight_count(verdicts),
        flagged_records: records,
    }
}

/// A sample together with the name of the device it comes from.
#[derive(Debug, PartialEq, Eq)]
pub struct TaggedSample {
    pub sample: Sample,
    pub device: String,
}

/// The sample of a measurement with the name of its device.
pub open spec fn tagged(measurement: Measurement) -> TaggedSample {
    TaggedSample { sample: measurement@.sample(), device: measurement.device }
}

/// The tagged samples of a batch of measurements, in its order.
pub open spec fn tagged_batch(measurements: Seq<Measurement>) -> Seq<TaggedSample> {
    Seq::new(measurements.len(), |i: int| tagged(measurements[i]))
}

/// The samples of a batch, without the names.
pub open spec fn samples_in(batch: Seq<TaggedSample>) -> Seq<Sample> {
    Seq::new(batch.len(), |i: int| batch[i].sample)
}

/// No sample is older than the one before it.
pub open spec fn in_time_order(batch: Seq<TaggedSample>) -> bool {
    forall|i: int|
        0 <= i < batch.len() - 1 ==> (#[trigger] batch[i]).sample.timestamp <= batch[i
            + 1].sample.timestamp
}

/// The sample at `index` is older than the one before it, and no sample
/// before it is.
pub open spec fn first_step_back(batch: Seq<TaggedSample>, index: int) -> bool {
    &&& 1 <= index < batch.len()
    &&& batch[index].sample.timestamp < batch[index - 1].sample.timestamp
    &&& forall|i: int|
        0 <= i < index - 1 ==> (#[trigger] batch[i]).sample.timestamp <= batch[i
            + 1].sample.timestamp
}

/// The records of those samples whose verdict sets some indicator, in the
/// order of the samples.
pub open spec fn flagged_among(batch: Seq<TaggedSample>, verdicts: Seq<FlagsView>) -> Seq<
    FlaggedRecordView,
>
    recommends
        batch.len() == verdicts.len(),
    decreases batch.len(),
{
    if batch.len() == 0 {
        Seq::empty()
    } else {
        let rest = flagged_among(batch.drop_last(), verdicts.drop_last());
        if verdicts.last().any() {
            rest.push(
                FlaggedRecordView {
                    timestamp: batch.last().sample.timestamp,
                    flags: verdicts.last(),
                    device: batch.last().device@,
                },
            )
        } else {
            rest
        }
    }
}

/// The report on the replay of the samples of `batch` through `detector`.
pub open spec fn report_on(detector: DetectorView, batch: Seq<TaggedSample>) -> BatchReportView {
    let verdicts = detector.verdicts(samples_in(batch));
    let records = flagged_among(batch, verdicts);
    BatchReportView {
        total: batch.len(),
        flagged: records.len(),
        sunlight_events: sunlight_count(verdicts),
        flagged_records: records,
    }
}

/// The flagged records of a batch of measurements are those of its tagged
/// samples.
pub proof fn lemma_flagged_among_tagged(measurements: Seq<Measurement>, verdicts: Seq<FlagsView>)
    requires
        measurements.len() == verdicts.len(),
    ensures
        flagged_among(tagged_batch(measurements), verdicts) == flagged_records(
            measurements,
            verdicts,
        ),
    decreases measurements.len(),
{
    if measurements.len() > 0 {
        lemma_flagged_among_tagged(measurements.drop_last(), verdicts.drop_last());
        assert(tagged_batch(measurements).drop_last() =~= tagged_batch(measurements.drop_last()));
    }
}

/// No more samples are flagged, and no more are put down to sunlight,
/// than there are.
pub proof fn lemma_tagged_counts(batch: Seq<TaggedSample>, verdicts: Seq<FlagsView>)
    requires
        batch.len() == verdicts.len(),
    ensures
        flagged_among(batch, verdicts).len() <= batch.len(),
        sunlight_count(verdicts) <= flagged_among(batch, verdicts).len(),
    decreases batch.len(),
{
    if batch.len() > 0 {
        lemma_tagged_counts(batch.drop_last(), verdicts.drop_last());
    }
}

/// No more measurements are flagged, and no more are put down to
/// sunlight, than there are.
pub proof fn lemma_report_counts(measurements: Seq<Measurement>, verdicts: Seq<FlagsView>)
    requires
        measurements.len() == verdicts.len(),
    ensures
        flagged_records(measurements, verdicts).len() <= measurements.len(),
        sunlight_count(verdicts) <= flagged_records(measurements, verdicts).len(),
    decreases measurements.len(),
{
    if measurements.len() > 0 {
        lemma_report_counts(measurements.drop_last(), verdicts.drop_last());
    }
}

/// The index of the first measurement that is older than the one before
/// it, if there is one.
pub fn find_disorder(measurements: &Vec<Measurement>) -> (found: Option<usize>)
    ensures
        match found {
            Some(index) => first_out_of_order(measurements@, index as int),
            None => chronological(measurements@),
        },
{
    if measurements.len() < 2 {
        return None;
    }
    let mut i: usize = 1;
    while i < measurements.len()
        invariant
            1 <= i <= measurements.len(),
            forall|k: int|
                0 <= k < i - 1 ==> (#[trigger] measurements@[k]).timestamp <= measurements@[k
                    + 1].timestamp,
        decreases measurements.len() - i,
    {
        if measurements[i].timestamp < measurements[i - 1].timestamp {
            return Some(i);
        }
        i = i + 1;
    }
    None
}

/// The tagged samples of a batch of measurements, in its order.
pub fn tag_batch(measurements: &Vec<Measurement>) -> (batch: Vec<TaggedSample>)
    ensures
        batch@ == tagged_batch(measurements@),
{
    let mut batch: Vec<TaggedSample> = Vec::new();
    let mut i: usize = 0;
    while i < measurements.len()
        invariant
            i <= measurements.len(),
            batch@.len() == i,
            forall|k: int| 0 <= k < i ==> batch@[k] == tagged(measurements@[k]),
        decreases measurements.len() - i,
    {
        let measurement = &measurements[i];
        batch.push(TaggedSample { sample: measurement.sample(), device: measurement.device.clone() });
        i = i + 1;
    }
    proof {
        assert(batch@ =~= tagged_batch(measurements@));
    }
    batch
}

/// The index of the first sample that is older than the one before it, if
/// there is one.
pub fn find_step_back(batch: &Vec<TaggedSample>) -> (found: Option<usize>)
    ensures
        match found {
            Some(index) => first_step_back(batch@, index as int),
            None => in_time_order(batch@),
        },
{
    if batch.len() < 2 {
        return None;
    }
    let mut i: usize = 1;
    while i < batch.len()
        invariant
            1 <= i <= batch.len(),
            forall|k: int|
                0 <= k < i - 1 ==> (#[trigger] batch@[k]).sample.timestamp <= batch@[k
                    + 1].sample.timestamp,
        decreases batch.len() - i,
    {
        if batch[i].sample.timestamp < batch[i - 1].sample.timestamp {
            return Some(i);
        }
        i = i + 1;
    }
    None
}

impl AnomalyDetector {
    /// Replays a batch of samples that is ordered by time. The daily
    /// profiles take in the whole batch first; then every sample runs
    /// through the rules in order.
    ///
    /// A batch that is not ordered by time is refused, with the index of
    /// the first sample that is older than the one before it, and the
    /// detector stays as it was.
    pub fn replay(&mut self, batch: &Vec<TaggedSample>) -> (result: Result<
        BatchReport,
        OrderingViolation,
    >)
        requires
            old(self)@.wf(),
        ensures
            final(self)@.wf(),
            match result {
                Ok(report) => {
                    &&& in_time_order(batch@)
                    &&& report@ == report_on(old(self)@, batch@)
                    &&& final(self)@ == old(self)@.after_all(samples_in(batch@))
                },
                Err(violation) => {
                    &&& first_step_back(batch@, violation.index as int)
                    &&& final(self)@ == old(self)@
                },
            },
    {
        match find_step_back(batch) {
            Some(index) => {
                return Err(OrderingViolation { index });
            },
            None => {},
        }
        let ghost start = self@;
        let ghost samples = samples_in(batch@);
        let ghost verdicts = start.verdicts(samples);
        let mut seeded: usize = 0;
        while seeded < batch.len()
            invariant
                seeded <= batch.len(),
                samples == samples_in(batch@),
                self@.wf(),
                self@.config == start.config,
                self@.window == start.window,
                self@.profiles == start.profiles.observe_all(samples.take(seeded as int)),
            decreases batch.len() - seeded,
        {
            proof {
                assert(samples.take(seeded + 1).drop_last() =~= samples.take(seeded as int));
            }
            self.seed_profile(batch[seeded].sample);
            seeded = seeded + 1;
        }
        proof {
            assert(samples.take(seeded as int) =~= samples);
        }
        let mut records: Vec<FlaggedRecord> = Vec::new();
        let mut sunlight_events: usize = 0;
        let mut i: usize = 0;
        while i < batch.len()
            invariant
                i <= batch.len(),
                samples == samples_in(batch@),
                verdicts == start.verdicts(samples),
                self@.wf(),
                self@.config == start.config,
                self@.profiles == start.profiles.observe_all(samples),
                self@.window == start.after_all(samples.take(i as int)).window,
                record_views(records@) == flagged_among(
                    batch@.take(i as int),
                    verdicts.take(i as int),
                ),
                sunlight_events == sunlight_count(verdicts.take(i as int)),
                sunlight_events <= records@.len() <= i,
            decreases batch.len() - i,
        {
            let entry = &batch[i];
            let ghost seen = start.after_all(samples.take(i as int));
            proof {
                lemma_after_all(start, samples.take(i as int));
                assert(samples.take(i + 1).drop_last() =~= samples.take(i as int));
                assert(batch@.take(i + 1).drop_last() =~= batch@.take(i as int));
                assert(verdicts.take(i + 1).drop_last() =~= verdicts.take(i as int));
                assert(verdicts[i as int] == seen.verdict(samples[i as int]));
                lemma_tagged_counts(batch@.take(i as int), verdicts.take(i as int));
            }
            let flags = self.judge(entry.sample);
            if flags.possible_sunlight {
                sunlight_events = sunlight_events + 1;
            }
            if flags.is_any_true() {
                let ghost before = record_views(records@);
                let record = FlaggedRecord {
                    timestamp: entry.sample.timestamp,
                    flags,
                    device: entry.device.clone(),
                };
                records.push(record);
                proof {
                    assert(record_views(records@) =~= before.push(record@));
                }
            }
            i = i + 1;
        }
        proof {
            assert(samples.take(i as int) =~= samples);
            assert(batch@.take(i as int) =~= batch@);
            assert(verdicts.take(i as int) =~= verdicts);
            lemma_after_all(start, samples);
        }
        Ok(
            BatchReport {
                total: batch.len(),
                flagged: records.len(),
                sunlight_events,
                flagged_records: records,
            },
        )
    }

    /// Replays a batch of measurements that is ordered by time. The daily
    /// profiles take in the whole batch first; then every measurement runs
    /// through the rules in order. The verdicts are those that feeding the
    /// measurements one at a time would give, and the detector ends in the
    /// state in which that would leave it.
    ///
    /// A batch that is not ordered by time is refused, with the index of
    /// the first measurement that is older than the one before it, and the
    /// detector stays as it was.
    pub fn analyze_batch(&mut self, measurements: &Vec<Measurement>) -> (result: Result<
        BatchReport,
        OrderingViolation,
    >)
        requires
            old(self)@.wf(),
        ensures
            final(self)@.wf(),
            match result {
                Ok(report) => {
                    &&& chronological(measurements@)
                    &&& report@ == batch_report(old(self)@, measurements@)
                    &&& final(self)@ == old(self)@.after_all(batch_samples(measurements@))
                },
                Err(violation) => {
                    &&& first_out_of_order(measurements@, violation.index as int)
                    &&& final(self)@ == old(self)@
                },
            },
    {
        let batch = tag_batch(measurements);
        proof {
            let samples = batch_samples(measurements@);
            assert(samples_in(batch@) =~= samples);
            lemma_flagged_among_tagged(measurements@, old(self)@.verdicts(samples));
        }
        let result = self.replay(&batch);
        proof {
            match result {
                Ok(_) => {
                    assert forall|i: int| 0 <= i < measurements@.len() - 1 implies (
                    #[trigger] measurements@[i]).timestamp <= measurements@[i + 1].timestamp by {
                        assert(batch@[i].sample.timestamp <= batch@[i + 1].sample.timestamp);
                    }
                },
                Err(violation) => {
                    assert forall|i: int| 0 <= i < violation.index - 1 implies (
                    #[trigger] measurements@[i]).timestamp <= measurements@[i + 1].timestamp by {
                        assert(batch@[i].sample.timestamp <= batch@[i + 1].sample.timestamp);
                    }
                },
            }
        }
        result
    }
}

} // verus!
