//! What goes to and comes from the time-series store, as text: the shape
//! of an answer, the lines in which flagged measurements are written, and
//! the chunks in which they are sent.

use vstd::prelude::*;
use crate::driver::{FlaggedRecord, FlaggedRecordView};
use crate::flags::FlagsView;

verus! {

/// What an answer of the store looks like at first sight.
#[derive(Clone, Copy, Debug, PartialEq, Eq, Structural)]
pub enum ResponseShape {
    /// The answer is empty: there are no rows.
    Empty,
    /// The answer begins with `[` and ends with `]`: it may be a list of
    /// rows.
    Rows,
    /// The answer is something else.
    Malformed,
}

/// How often the writing of one chunk is tried before it is given up.
pub const MAX_WRITE_TRIES: u8 = 2;

/// What follows an attempt to write a chunk.
#[derive(Clone, Copy, Debug, PartialEq, Eq, Structural)]
pub enum WriteStep {
    /// The chunk is written: go on to the next.
    Written,
    /// Try the same chunk once more.
    Retry,
    /// Report the chunk as lost and go on to the next; the replay is not
    /// given up for it.
    GiveUp,
}

/// What follows an attempt to write a chunk, given whether it succeeded
/// and how many attempts, this one included, were made on the chunk.
pub open spec fn write_step_for(succeeded: bool, tries: u8) -> WriteStep {
    if succeeded {
        WriteStep::Written
    } else if tries < MAX_WRITE_TRIES {
        WriteStep::Retry
    } else {
        WriteStep::GiveUp
    }
}

/// How many chunks are lost so far, after an attempt with the step
/// `step`.
pub open spec fn lost_after(lost: usize, step: WriteStep) -> usize {
    if step == WriteStep::GiveUp && lost < usize::MAX {
        (lost + 1) as usize
    } else {
        lost
    }
}

/// The shape of an answer.
pub open spec fn shape_of(text: Seq<char>) -> ResponseShape {
    if text.len() == 0 {
        ResponseShape::Empty
    } else if text[0] == '[' && text.last() == ']' {
        ResponseShape::Rows
    } else {
        ResponseShape::Malformed
    }
}

/// The shape of the answer `text`.
pub fn response_shape(text: &str) -> (shape: ResponseShape)
    ensures
        shape == shape_of(text@),
{
    let length = text.unicode_len();
    if length == 0 {
        ResponseShape::Empty
    } else if text.get_char(0) == '[' && text.get_char(length - 1) == ']' {
        ResponseShape::Rows
    } else {
        ResponseShape::Malformed
    }
}

/// The character of a decimal digit.
pub open spec fn digit_text(digit: nat) -> Seq<char> {
    if digit == 0 {
        "0"@
    } else if digit == 1 {
        "1"@
    } else if digit == 2 {
        "2"@
    } else if digit == 3 {
        "3"@
    } else if digit == 4 {
        "4"@
    } else if digit == 5 {
        "5"@
    } else if digit == 6 {
        "6"@
    } else if digit == 7 {
        "7"@
    } else if digit == 8 {
        "8"@
    } else {
        "9"@
    }
}

/// A natural number in decimal digits, without leading zeros.
pub open spec fn natural_text(number: nat) -> Seq<char>
    decreases number,
{
    if number < 10 {
        digit_text(number)
    } else {
        natural_text(number / 10) + digit_text(number % 10)
    }
}

/// An integer in decimal digits, with a minus sign if it is negative.
pub open spec fn integer_text(number: int) -> Seq<char> {
    if number < 0 {
        "-"@ + natural_text((-number) as nat)
    } else {
        natural_text(number as nat)
    }
}

/// A truth value as the store reads it.
pub open spec fn bool_text(value: bool) -> Seq<char> {
    if value {
        "true"@
    } else {
        "false"@
    }
}

/// The line in which a flagged measurement is written to the store: the
/// name of the table, the device as a tag, one field for each indicator,
/// and the instant in nanoseconds. The three fields on physical limits
/// are always false; they keep the table in the shape it has.
pub open spec fn anomaly_line_text(device: Seq<char>, flags: FlagsView, timestamp: i64) -> Seq<
    char,
> {
    "anomalies,device="@ + device + " temperature_spike="@ + bool_text(flags.temperature_spike)
        + ",humidity_spike="@ + bool_text(flags.humidity_spike) + ",co2_spike="@ + bool_text(
        flags.co2_spike,
    )
        + ",physical_constraint_temp_violation=false,physical_constraint_humidity_violation=false,physical_constraint_co2_violation=false,possible_sunlight="@
        + bool_text(flags.possible_sunlight) + " "@ + integer_text(timestamp as int)
}

/// The lines of the records from `from` up to, but not including, `to`,
/// with a line feed between one and the next.
pub open spec fn lines_text(records: Seq<FlaggedRecordView>, from: int, to: int) -> Seq<char>
    decreases to - from,
{
    if to <= from {
        Seq::empty()
    } else if to == from + 1 {
        anomaly_line_text(records[from].device, records[from].flags, records[from].timestamp)
    } else {
        lines_text(records, from, to - 1) + "\n"@ + anomaly_line_text(
            records[to - 1].device,
            records[to - 1].flags,
            records[to - 1].timestamp,
        )
    }
}

/// The chunk with the number `index`, counted from 0, of `total` records
/// sent `size` at a time: where it begins and where it ends.
pub open spec fn chunk_at(total: int, size: int, index: int) -> (int, int) {
    (index * size, if (index + 1) * size < total {
        (index + 1) * size
    } else {
        total
    })
}

/// How many chunks `total` records make when sent `size` at a time.
pub open spec fn chunk_count(total: int, size: int) -> int {
    (total + size - 1) / size
}

fn digit_str(digit: u64) -> (text: &'static str)
    requires
        digit < 10,
    ensures
        text@ == digit_text(digit as nat),
{
    if digit == 0 {
        "0"
    } else if digit == 1 {
        "1"
    } else if digit == 2 {
        "2"
    } else if digit == 3 {
        "3"
    } else if digit == 4 {
        "4"
    } else if digit == 5 {
        "5"
    } else if digit == 6 {
        "6"
    } else if digit == 7 {
        "7"
    } else if digit == 8 {
        "8"
    } else {
        "9"
    }
}

/// `number` in decimal digits.
pub fn natural_to_string(number: u64) -> (text: String)
    ensures
        text@ == natural_text(number as nat),
    decreases number,
{
    if number < 10 {
        String::from_str(digit_str(number))
    } else {
        let mut text = natural_to_string(number / 10);
        text.append(digit_str(number % 10));
        text
    }
}

/// `number` in decimal digits, with a minus sign if it is negative.
pub fn integer_to_string(number: i64) -> (text: String)
    ensures
        text@ == integer_text(number as int),
{
    if number < 0 {
        let magnitude: u64 = if number == i64::MIN {
            9_223_372_036_854_775_808
        } else {
            (-number) as u64
        };
        let mut text = String::from_str("-");
        let digits = natural_to_string(magnitude);
        text.append(digits.as_str());
        text
    } else {
        natural_to_string(number as u64)
    }
}

fn bool_str(value: bool) -> (text: &'static str)
    ensures
        text@ == bool_text(value),
{
    if value {
        "true"
    } else {
        "false"
    }
}

/// The line in which `record` is written to the store.
pub fn anomaly_line(record: &FlaggedRecord) -> (line: String)
    ensures
        line@ == anomaly_line_text(record@.device, record@.flags, record@.timestamp),
{
    let mut line = String::from_str("anomalies,device=");
    line.append(record.device.as_str());
    line.append(" temperature_spike=");
    line.append(bool_str(record.flags.temperature_spike));
    line.append(",humidity_spike=");
    line.append(bool_str(record.flags.humidity_spike));
    line.append(",co2_spike=");
    line.append(bool_str(record.flags.co2_spike));
    line.append(
        ",physical_constraint_temp_violation=false,physical_constraint_humidity_violation=false,physical_constraint_co2_violation=false,possible_sunlight=",
    );
    line.append(bool_str(record.flags.possible_sunlight));
    line.append(" ");
    let stamp = integer_to_string(record.timestamp);
    line.append(stamp.as_str());
    line
}

/// The lines of the records from `from` up to, but not including, `to`,
/// one below the other: the body of one request to the store.
pub fn batch_body(records: &Vec<FlaggedRecord>, from: usize, to: usize) -> (body: String)
    requires
        from <= to <= records@.len(),
    ensures
        body@ == lines_text(crate::driver::record_views(records@), from as int, to as int),
{
    let ghost views = crate::driver::record_views(records@);
    let mut body = String::new();
    let mut i: usize = from;
    while i < to
        invariant
            from <= i <= to <= records@.len(),
            views == crate::driver::record_views(records@),
            body@ == lines_text(views, from as int, i as int),
        decreases to - i,
    {
        let line = anomaly_line(&records[i]);
        proof {
            assert(views[i as int] == records@[i as int]@);
        }
        if i > from {
            body.append("\n");
        }
        body.append(line.as_str());
        i = i + 1;
    }
    body
}

/// What follows an attempt to write a chunk: a chunk that is written is
/// done; one that failed is tried again until two attempts were made on
/// it, and then given up, so that the chunks after it are still written.
pub fn write_step(succeeded: bool, tries: u8) -> (step: WriteStep)
    ensures
        step == write_step_for(succeeded, tries),
{
    if succeeded {
        WriteStep::Written
    } else if tries < MAX_WRITE_TRIES {
        WriteStep::Retry
    } else {
        WriteStep::GiveUp
    }
}

/// The count of lost chunks after an attempt with the step `step`: one
/// more for a chunk that is given up.
pub fn count_lost(lost: usize, step: WriteStep) -> (now: usize)
    ensures
        now == lost_after(lost, step),
{
    match step {
        WriteStep::GiveUp => if lost < usize::MAX {
            lost + 1
        } else {
            lost
        },
        _ => lost,
    }
}

/// The chunks in which `total` records are sent, `chunk_size` at a time:
/// for each chunk the index of its first record and the index behind its
/// last. Every chunk but the last is full, and none is empty.
pub fn chunk_ranges(total: usize, chunk_size: usize) -> (ranges: Vec<(usize, usize)>)
    requires
        chunk_size > 0,
    ensures
        ranges@.len() == chunk_count(total as int, chunk_size as int),
        forall|k: int|
            0 <= k < ranges@.len() ==> (#[trigger] ranges@[k]).0 as int == chunk_at(
                total as int,
                chunk_size as int,
                k,
            ).0 && ranges@[k].1 as int == chunk_at(total as int, chunk_size as int, k).1,
        forall|k: int|
            0 <= k < ranges@.len() ==> (#[trigger] ranges@[k]).0 < ranges@[k].1 <= total,
{
    let mut ranges: Vec<(usize, usize)> = Vec::new();
    let mut start: usize = 0;
    proof {
        assert(0 * (chunk_size as int) == 0) by (nonlinear_arith);
        lemma_no_chunk(chunk_size as int);
    }
    while start < total
        invariant
            chunk_size > 0,
            start <= total,
            start == ranges@.len() * chunk_size || start == total,
            start < total ==> start == ranges@.len() * chunk_size,
            start == total ==> ranges@.len() == chunk_count(total as int, chunk_size as int),
            ranges@.len() * chunk_size <= total + chunk_size,
            forall|k: int|
                0 <= k < ranges@.len() ==> (#[trigger] ranges@[k]).0 as int == chunk_at(
                    total as int,
                    chunk_size as int,
                    k,
                ).0 && ranges@[k].1 as int == chunk_at(total as int, chunk_size as int, k).1,
            forall|k: int|
                0 <= k < ranges@.len() ==> (#[trigger] ranges@[k]).0 < ranges@[k].1 <= total,
        decreases total - start,
    {
        let end: usize = if total - start > chunk_size {
            start + chunk_size
        } else {
            total
        };
        proof {
            let count = ranges@.len() as int;
            let size = chunk_size as int;
            assert((count + 1) * size == count * size + size) by (nonlinear_arith);
            if end == total {
                lemma_last_chunk(total as int, size, count);
            }
        }
        ranges.push((start, end));
        start = end;
    }
    ranges
}

/// No records make no chunk.
proof fn lemma_no_chunk(size: int)
    by (nonlinear_arith)
    requires
        size > 0,
    ensures
        (0 + size - 1) / size == 0,
{
}

/// When the chunk with the number `count` reaches the end, there are
/// `count + 1` chunks.
proof fn lemma_last_chunk(total: int, size: int, count: int)
    by (nonlinear_arith)
    requires
        size > 0,
        count >= 0,
        count * size < total,
        total - count * size <= size,
    ensures
        (total + size - 1) / size == count + 1,
{
}

} // verus!
