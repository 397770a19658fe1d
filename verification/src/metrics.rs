//! Metric series construction: aligning the samples a metrics backend
//! returned onto the fixed bucket grid of the trailing window, filling the
//! buckets the backend omitted with zero so that every series charts
//! evenly.

use vstd::prelude::*;

use crate::model::Metric;

verus! {

/// Length of one time bucket, in seconds.
pub const METRIC_PERIOD_SECONDS: u64 = 60;

/// Length of the trailing window a series covers, in seconds.
pub const METRIC_WINDOW_SECONDS: u64 = 86400;

/// Number of buckets in the window: the window length divided by the
/// bucket length.
pub const METRIC_BUCKET_COUNT: usize = 1440;

/// The timestamp of bucket `i` of the window starting at `start_time`:
/// the start of the `i`-th period after the one containing `start_time`.
pub open spec fn bucket_timestamp(start_time: u64, i: int) -> int {
    ((start_time / METRIC_PERIOD_SECONDS) as int + i) * (METRIC_PERIOD_SECONDS as int)
}

/// The value charted for the bucket with index `bucket` (a timestamp
/// divided by the period): the value of the last sample falling into that
/// bucket, or zero where no sample does.
pub open spec fn bucket_value(ts: Seq<u64>, vs: Seq<u64>, bucket: int) -> u64
    recommends
        ts.len() == vs.len(),
    decreases ts.len(),
{
    if ts.len() == 0 {
        0
    } else if ts.last() as int / (METRIC_PERIOD_SECONDS as int) == bucket {
        vs.last()
    } else {
        bucket_value(ts.drop_last(), vs.drop_last(), bucket)
    }
}

/// Builds the series named `name` (labelled `metric`) for the window
/// starting at `start_time`, from the parallel sample sequences the backend
/// returned: exactly `METRIC_BUCKET_COUNT` buckets, one per period,
/// timestamps aligned to the period, each bucket carrying the last sample
/// that falls into it and zero where none does.
pub fn fill_metric_buckets(
    name: String,
    metric: String,
    start_time: u64,
    sample_timestamps: &Vec<u64>,
    sample_values: &Vec<u64>,
) -> (r: Metric)
    requires
        sample_timestamps@.len() == sample_values@.len(),
        start_time + METRIC_WINDOW_SECONDS <= u64::MAX,
    ensures
        r@.name == name@,
        r@.metric == metric@,
        r@.timestamps.len() == METRIC_BUCKET_COUNT,
        r@.values.len() == METRIC_BUCKET_COUNT,
        forall|i: int|
            0 <= i < METRIC_BUCKET_COUNT ==> r@.timestamps[i] as int == bucket_timestamp(
                start_time,
                i,
            ),
        forall|i: int|
            0 <= i < METRIC_BUCKET_COUNT ==> r@.values[i] == bucket_value(
                sample_timestamps@,
                sample_values@,
                (start_time / METRIC_PERIOD_SECONDS) as int + i,
            ),
{
    let base: u64 = start_time / METRIC_PERIOD_SECONDS;
    let ghost b0 = base as int;
    let mut timestamps: Vec<u64> = Vec::new();
    let mut values: Vec<u64> = Vec::new();
    let mut i: usize = 0;
    assert(base * METRIC_PERIOD_SECONDS <= start_time) by (nonlinear_arith)
        requires
            base == start_time / METRIC_PERIOD_SECONDS,
    ;
    while i < METRIC_BUCKET_COUNT
        invariant
            i <= METRIC_BUCKET_COUNT,
            base as int == b0,
            b0 == start_time as int / METRIC_PERIOD_SECONDS as int,
            b0 * METRIC_PERIOD_SECONDS as int <= start_time as int,
            start_time + METRIC_WINDOW_SECONDS <= u64::MAX,
            timestamps@.len() == i,
            values@.len() == i,
            forall|k: int| 0 <= k < i ==> timestamps@[k] as int == bucket_timestamp(start_time, k),
            forall|k: int| 0 <= k < i ==> values@[k] == 0u64,
        decreases METRIC_BUCKET_COUNT - i,
    {
        assert((b0 + i) * METRIC_PERIOD_SECONDS as int == b0 * METRIC_PERIOD_SECONDS as int + i
            * METRIC_PERIOD_SECONDS as int) by (nonlinear_arith);
        assert((i as int) * (METRIC_PERIOD_SECONDS as int) < (METRIC_WINDOW_SECONDS as int))
            by (nonlinear_arith)
            requires
                0 <= i < METRIC_BUCKET_COUNT,
        ;
        let ts: u64 = base * METRIC_PERIOD_SECONDS + (i as u64) * METRIC_PERIOD_SECONDS;
        timestamps.push(ts);
        values.push(0);
        i = i + 1;
    }
    let mut j: usize = 0;
    while j < sample_timestamps.len()
        invariant
            j <= sample_timestamps@.len(),
            sample_timestamps@.len() == sample_values@.len(),
            base as int == b0,
            b0 == start_time as int / METRIC_PERIOD_SECONDS as int,
            timestamps@.len() == METRIC_BUCKET_COUNT,
            values@.len() == METRIC_BUCKET_COUNT,
            forall|k: int|
                0 <= k < METRIC_BUCKET_COUNT ==> timestamps@[k] as int == bucket_timestamp(
                    start_time,
                    k,
                ),
            forall|k: int|
                0 <= k < METRIC_BUCKET_COUNT ==> values@[k] == bucket_value(
                    sample_timestamps@.take(j as int),
                    sample_values@.take(j as int),
                    b0 + k,
                ),
        decreases sample_timestamps@.len() - j,
    {
        let ghost tpre = sample_timestamps@.take(j as int);
        let ghost vpre = sample_values@.take(j as int);
        let ghost tnext = sample_timestamps@.take(j as int + 1);
        let ghost vnext = sample_values@.take(j as int + 1);
        proof {
            assert(tnext.drop_last() =~= tpre);
            assert(vnext.drop_last() =~= vpre);
            assert(tnext.last() == sample_timestamps@[j as int]);
            assert(vnext.last() == sample_values@[j as int]);
        }
        let sample_bucket: u64 = sample_timestamps[j] / METRIC_PERIOD_SECONDS;
        let in_range = sample_bucket >= base && sample_bucket - base < METRIC_BUCKET_COUNT as u64;
        let ghost vold = values@;
        if in_range {
            let idx: usize = (sample_bucket - base) as usize;
            values.set(idx, sample_values[j]);
        }
        proof {
            let sb = sample_timestamps@[j as int] as int / (METRIC_PERIOD_SECONDS as int);
            assert(sample_bucket as int == sb);
            assert forall|k: int| 0 <= k < METRIC_BUCKET_COUNT implies values@[k] == bucket_value(
                tnext,
                vnext,
                b0 + k,
            ) by {
                assert(bucket_value(tnext, vnext, b0 + k) == (if sb == b0 + k {
                    vnext.last()
                } else {
                    bucket_value(tpre, vpre, b0 + k)
                }));
                if sb == b0 + k {
                    assert(in_range);
                    assert(values@[k] == sample_values@[j as int]);
                } else {
                    if in_range {
                        assert(k != sample_bucket as int - b0);
                    }
                    assert(values@[k] == vold[k]);
                }
            }
        }
        j = j + 1;
    }
    assert(sample_timestamps@.take(sample_timestamps@.len() as int) =~= sample_timestamps@);
    assert(sample_values@.take(sample_values@.len() as int) =~= sample_values@);
    Metric { name, metric, timestamps, values }
}

} // verus!
