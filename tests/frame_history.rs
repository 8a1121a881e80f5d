use egui_demo::frame_history::{FrameHistory, FrameRate, Sample};

fn sample(t: u64) -> Sample {
    Sample { timestamp_micros: t, cpu_usage_micros: None }
}

#[test]
fn window_never_exceeds_capacity() {
    let mut h = FrameHistory::new(3);
    for t in 0..10u64 {
        h.record(sample(t));
        assert!(h.len() <= 3);
    }
    assert_eq!(h.len(), 3);
    assert_eq!(h.capacity(), 3);
}

#[test]
fn window_keeps_last_samples_in_order() {
    let mut h = FrameHistory::new(4);
    for t in 1..=7u64 {
        h.record(Sample { timestamp_micros: t * 10, cpu_usage_micros: Some(t) });
    }
    let got: Vec<u64> = h.samples().iter().map(|s| s.timestamp_micros).collect();
    assert_eq!(got, vec![40, 50, 60, 70]);
    let cpu: Vec<Option<u64>> = h.samples().iter().map(|s| s.cpu_usage_micros).collect();
    assert_eq!(cpu, vec![Some(4), Some(5), Some(6), Some(7)]);
}

#[test]
fn window_below_capacity_keeps_everything() {
    let mut h = FrameHistory::new(5);
    h.record(sample(1));
    h.record(sample(2));
    assert_eq!(h.samples(), vec![sample(1), sample(2)]);
}

#[test]
fn zero_capacity_keeps_nothing() {
    let mut h = FrameHistory::new(0);
    h.record(sample(1));
    assert_eq!(h.len(), 0);
    assert_eq!(h.estimated_fps(), FrameRate { frames: 0, elapsed_micros: 0 });
}

#[test]
fn empty_window_rate_is_zero() {
    let h = FrameHistory::new(10);
    assert_eq!(h.estimated_fps(), FrameRate { frames: 0, elapsed_micros: 0 });
}

#[test]
fn single_sample_rate_is_zero() {
    let mut h = FrameHistory::new(10);
    h.record(sample(500));
    assert_eq!(h.estimated_fps(), FrameRate { frames: 0, elapsed_micros: 0 });
}

#[test]
fn two_samples_rate_is_one_over_interval() {
    let mut h = FrameHistory::new(10);
    h.record(sample(1_000_000));
    h.record(sample(1_016_000));
    assert_eq!(h.estimated_fps(), FrameRate { frames: 1, elapsed_micros: 16_000 });
}

#[test]
fn rate_spans_oldest_to_newest() {
    let mut h = FrameHistory::new(3);
    for t in [0u64, 10, 25, 45, 70] {
        h.record(sample(t));
    }
    // window holds 25, 45, 70
    assert_eq!(h.estimated_fps(), FrameRate { frames: 2, elapsed_micros: 45 });
}

#[test]
fn equal_timestamps_give_no_elapsed_time() {
    let mut h = FrameHistory::new(3);
    h.record(sample(7));
    h.record(sample(7));
    assert_eq!(h.estimated_fps(), FrameRate { frames: 1, elapsed_micros: 0 });
}

#[test]
fn clock_going_backwards_counts_as_no_time() {
    let mut h = FrameHistory::new(3);
    h.record(sample(100));
    h.record(sample(40));
    assert_eq!(h.estimated_fps(), FrameRate { frames: 1, elapsed_micros: 0 });
}

#[test]
fn largest_timestamps_do_not_overflow() {
    let mut h = FrameHistory::new(2);
    h.record(sample(0));
    h.record(sample(u64::MAX));
    assert_eq!(h.estimated_fps(), FrameRate { frames: 1, elapsed_micros: u64::MAX });
}
