//! Backlog of the consumer group: how far the committed offsets lie behind
//! the high watermarks of the topic's partitions.
//!
//! The monitor only observes. Once per interval its driver fetches the
//! partitions, and for each the high watermark and the group's current
//! offset, and hands them here as plain numbers.

use vstd::prelude::*;

verus! {

/// Seconds between two readings of the backlog.
pub const LAG_INTERVAL_SECS: u64 = 5;

/// What was learned of one partition in one cycle.
#[derive(Clone, Copy, Debug, PartialEq, Eq, Structural)]
pub struct PartitionReading {
    /// The high watermark, `None` where the fetch failed.
    pub watermark: Option<i64>,
    /// The offset the group stands at, `None` where it has none yet.
    pub committed: Option<i64>,
}

/// Where the group stands in one partition, as the broker client reports it.
#[derive(Clone, Copy, Debug, PartialEq, Eq, Structural)]
pub struct PartitionPosition {
    /// The partition.
    pub partition: i32,
    /// The offset, `None` where the position is not a plain offset.
    pub offset: Option<i64>,
}

/// Why a cycle publishes nothing.
#[derive(Clone, Copy, Debug, PartialEq, Eq, Structural)]
pub enum Skip {
    /// The partitions of the topic could not be fetched.
    NoMetadata,
    /// The high watermark of some partition could not be fetched.
    NoWatermark,
    /// The total does not fit the gauge.
    OutOfRange,
}

/// Result of one cycle.
#[derive(Clone, Copy, Debug, PartialEq, Eq, Structural)]
pub enum LagReport {
    /// The total lag, to be published as the gauge.
    Total(i64),
    /// Nothing is published in this cycle.
    Skipped(Skip),
}

/// The offset of `partition` among `positions`: that of the first position
/// given for the partition, if it is a plain offset.
pub open spec fn committed_in(positions: Seq<PartitionPosition>, partition: i32) -> Option<i64>
    decreases positions.len(),
{
    if positions.len() == 0 {
        None
    } else if positions[0].partition == partition {
        positions[0].offset
    } else {
        committed_in(positions.drop_first(), partition)
    }
}

/// What one cycle learned of a partition: the watermark, `None` where its
/// fetch failed, and the positions of the group, `None` where their fetch
/// failed.
pub open spec fn reading_of(
    partition: i32,
    watermark: Option<i64>,
    positions: Option<Seq<PartitionPosition>>,
) -> PartitionReading {
    PartitionReading {
        watermark,
        committed: match positions {
            Some(positions) => committed_in(positions, partition),
            None => None,
        },
    }
}

/// Lag of one partition: watermark minus committed offset. A partition
/// without a committed offset adds nothing.
pub open spec fn reading_lag(reading: PartitionReading) -> int {
    match (reading.watermark, reading.committed) {
        (Some(watermark), Some(committed)) => watermark - committed,
        _ => 0,
    }
}

/// Sum of the partitions' lags.
pub open spec fn total_lag(readings: Seq<PartitionReading>) -> int
    decreases readings.len(),
{
    if readings.len() == 0 {
        0
    } else {
        total_lag(readings.drop_last()) + reading_lag(readings.last())
    }
}

/// Whether the high watermark of every partition is known.
pub open spec fn watermarks_known(readings: Seq<PartitionReading>) -> bool {
    forall|i: int| 0 <= i < readings.len() ==> (#[trigger] readings[i]).watermark is Some
}

/// What a cycle reports, given the readings of the topic's partitions, or
/// nothing where the partitions could not be fetched.
pub open spec fn report_of(metadata: Option<Seq<PartitionReading>>) -> LagReport {
    match metadata {
        None => LagReport::Skipped(Skip::NoMetadata),
        Some(readings) => if !watermarks_known(readings) {
            LagReport::Skipped(Skip::NoWatermark)
        } else if i64::MIN <= total_lag(readings) <= i64::MAX {
            LagReport::Total(total_lag(readings) as i64)
        } else {
            LagReport::Skipped(Skip::OutOfRange)
        },
    }
}

/// Adding one reading adds its lag.
pub proof fn total_lag_push(readings: Seq<PartitionReading>, reading: PartitionReading)
    ensures
        total_lag(readings.push(reading)) == total_lag(readings) + reading_lag(reading),
{
    assert(readings.push(reading).drop_last() == readings);
}

/// Finds the offset of `partition` among the positions of the group: the
/// first position given for the partition counts, and only a plain offset.
pub fn committed_offset(positions: &Vec<PartitionPosition>, partition: i32) -> (offset: Option<i64>)
    ensures
        offset == committed_in(positions@, partition),
{
    let mut i: usize = 0;
    proof {
        assert(positions@.subrange(0, positions@.len() as int) == positions@);
    }
    while i < positions.len()
        invariant
            i <= positions.len(),
            committed_in(positions@, partition) == committed_in(
                positions@.subrange(i as int, positions@.len() as int),
                partition,
            ),
        decreases positions.len() - i,
    {
        proof {
            let rest = positions@.subrange(i as int, positions@.len() as int);
            assert(rest.len() > 0);
            assert(rest[0] == positions@[i as int]);
            assert(rest.drop_first() == positions@.subrange(i + 1, positions@.len() as int));
        }
        if positions[i].partition == partition {
            return positions[i].offset;
        }
        i += 1;
    }
    proof {
        assert(positions@.subrange(i as int, positions@.len() as int).len() == 0);
    }
    None
}

/// Puts together what one cycle learned of a partition.
pub fn partition_reading(
    partition: i32,
    watermark: Option<i64>,
    positions: Option<&Vec<PartitionPosition>>,
) -> (reading: PartitionReading)
    ensures
        reading == reading_of(
            partition,
            watermark,
            match positions {
                Some(positions) => Some(positions@),
                None => None,
            },
        ),
{
    let committed = match positions {
        Some(positions) => committed_offset(positions, partition),
        None => None,
    };
    PartitionReading { watermark, committed }
}

/// Lag of one partition from its two offsets, `None` where the difference
/// does not fit.
pub fn partition_lag(watermark: i64, committed: i64) -> (lag: Option<i64>)
    ensures
        lag == (if i64::MIN <= watermark - committed <= i64::MAX {
            Some((watermark - committed) as i64)
        } else {
            None
        }),
{
    watermark.checked_sub(committed)
}

/// Computes the report of one cycle. A failed fetch of the partitions or of
/// any watermark skips the cycle; otherwise the report is the sum, over the
/// partitions, of watermark minus committed offset.
pub fn lag_report(metadata: Option<&Vec<PartitionReading>>) -> (report: LagReport)
    ensures
        report == report_of(
            match metadata {
                Some(readings) => Some(readings@),
                None => None,
            },
        ),
{
    let readings = match metadata {
        Some(readings) => readings,
        None => {
            return LagReport::Skipped(Skip::NoMetadata);
        },
    };
    // The watermarks and the committed offsets are summed apart: each sum of
    // at most `usize::MAX` offsets fits 128 bits, their difference may not.
    let mut watermarks: i128 = 0;
    let mut committed: i128 = 0;
    let mut i: usize = 0;
    while i < readings.len()
        invariant
            metadata == Some(readings),
            i <= readings.len(),
            watermarks_known(readings@.subrange(0, i as int)),
            watermarks - committed == total_lag(readings@.subrange(0, i as int)),
            -(i * 0x8000_0000_0000_0000) <= watermarks <= i * 0x8000_0000_0000_0000,
            -(i * 0x8000_0000_0000_0000) <= committed <= i * 0x8000_0000_0000_0000,
        decreases readings.len() - i,
    {
        let reading = readings[i];
        proof {
            assert(readings@.subrange(0, i + 1) == readings@.subrange(0, i as int).push(reading));
            total_lag_push(readings@.subrange(0, i as int), reading);
        }
        match reading.watermark {
            None => {
                proof {
                    assert(readings@[i as int].watermark is None);
                }
                return LagReport::Skipped(Skip::NoWatermark);
            },
            Some(high) => {
                match reading.committed {
                    Some(offset) => {
                        watermarks = watermarks + high as i128;
                        committed = committed + offset as i128;
                    },
                    None => {},
                }
            },
        }
        i += 1;
    }
    proof {
        assert(readings@.subrange(0, i as int) == readings@);
    }
    match watermarks.checked_sub(committed) {
        Some(total) => {
            if total < i64::MIN as i128 || total > i64::MAX as i128 {
                LagReport::Skipped(Skip::OutOfRange)
            } else {
                LagReport::Total(total as i64)
            }
        },
        None => LagReport::Skipped(Skip::OutOfRange),
    }
}

} // verus!
