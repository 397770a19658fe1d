use shepherd::metrics::{
    fill_metric_buckets, METRIC_BUCKET_COUNT, METRIC_PERIOD_SECONDS, METRIC_WINDOW_SECONDS,
};

const START: u64 = 1_700_000_000;

#[test]
fn a_series_always_has_exactly_1440_pairs() {
    let series = fill_metric_buckets(
        "invocations".to_string(),
        "Invocations".to_string(),
        START,
        &Vec::new(),
        &Vec::new(),
    );
    assert_eq!(METRIC_BUCKET_COUNT, 1440);
    assert_eq!(METRIC_WINDOW_SECONDS / METRIC_PERIOD_SECONDS, 1440);
    assert_eq!(series.timestamps.len(), 1440);
    assert_eq!(series.values.len(), 1440);
    assert_eq!(series.name, "invocations");
    assert_eq!(series.metric, "Invocations");
}

#[test]
fn missing_buckets_are_zero_filled_and_present_samples_land_in_theirs() {
    let base = START / 60;
    let sample_ts = vec![(base + 3) * 60 + 7, (base + 100) * 60];
    let sample_vals = vec![f64::to_bits(2.5), f64::to_bits(9.0)];
    let series = fill_metric_buckets(
        "errors".to_string(),
        "Errors".to_string(),
        START,
        &sample_ts,
        &sample_vals,
    );
    assert_eq!(series.values.len(), 1440);
    for (i, v) in series.values.iter().enumerate() {
        if i == 3 {
            assert_eq!(f64::from_bits(*v), 2.5);
        } else if i == 100 {
            assert_eq!(f64::from_bits(*v), 9.0);
        } else {
            assert_eq!(f64::from_bits(*v), 0.0);
        }
    }
}

#[test]
fn timestamps_are_aligned_to_the_period_and_consecutive() {
    let series = fill_metric_buckets(
        "duration".to_string(),
        "Duration".to_string(),
        START,
        &Vec::new(),
        &Vec::new(),
    );
    let base = START / 60;
    for (i, ts) in series.timestamps.iter().enumerate() {
        assert_eq!(*ts, (base + i as u64) * 60);
        assert_eq!(*ts % 60, 0);
    }
}

#[test]
fn the_last_sample_of_a_bucket_wins() {
    let base = START / 60;
    let sample_ts = vec![(base + 5) * 60, (base + 5) * 60 + 30];
    let sample_vals = vec![f64::to_bits(1.0), f64::to_bits(4.0)];
    let series = fill_metric_buckets(
        "concurrent_executions".to_string(),
        "ConcurrentExecutions".to_string(),
        START,
        &sample_ts,
        &sample_vals,
    );
    assert_eq!(f64::from_bits(series.values[5]), 4.0);
}

#[test]
fn samples_outside_the_window_are_ignored() {
    let sample_ts = vec![START - 120, START + METRIC_WINDOW_SECONDS + 120];
    let sample_vals = vec![f64::to_bits(7.0), f64::to_bits(8.0)];
    let series = fill_metric_buckets(
        "invocations".to_string(),
        "Invocations".to_string(),
        START,
        &sample_ts,
        &sample_vals,
    );
    for v in &series.values {
        assert_eq!(f64::from_bits(*v), 0.0);
    }
}
