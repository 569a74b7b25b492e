use alvr_server::bitrate_estimator::{BitrateEstimator, WindowSample};

#[test]
fn new_window_is_empty() {
    let w = BitrateEstimator::new();
    assert_eq!((w.sum_, w.current_window_ms_, w.prev_time_ms_), (0, 0, -1));
    assert_eq!((w.initial_window_ms_, w.noninitial_window_ms_), (350, 250));
    assert_eq!((w.small_sample_threshold_, w.uncertainty_symmetry_cap_, w.estimate_floor_), (0, 0, 0));
}

#[test]
fn sample_after_a_full_window() {
    let mut w = BitrateEstimator::new();
    assert_eq!(w.UpdateWindow(1000, 100, 350), None);
    assert_eq!(w.sum_, 100);
    assert_eq!(w.UpdateWindow(1200, 100, 350), None);
    assert_eq!((w.sum_, w.current_window_ms_), (200, 200));
    assert_eq!(
        w.UpdateWindow(1350, 40, 350),
        Some(WindowSample { sum_bytes: 200, is_small_sample: false })
    );
    assert_eq!((w.sum_, w.current_window_ms_, w.prev_time_ms_), (40, 0, 1350));
}

#[test]
fn long_gap_drops_bytes() {
    let mut w = BitrateEstimator::new();
    w.UpdateWindow(1000, 100, 350);
    assert_eq!(w.UpdateWindow(1400, 50, 350), None);
    assert_eq!((w.sum_, w.current_window_ms_), (50, 50));
}

#[test]
fn time_going_back_restarts() {
    let mut w = BitrateEstimator::new();
    w.UpdateWindow(1000, 100, 350);
    w.UpdateWindow(1100, 100, 350);
    assert_eq!(w.UpdateWindow(900, 7, 350), None);
    assert_eq!((w.sum_, w.current_window_ms_, w.prev_time_ms_), (7, 0, 900));
}

#[test]
fn small_sample_flag() {
    let mut w = BitrateEstimator::new();
    w.small_sample_threshold_ = 100;
    w.UpdateWindow(0, 10, 250);
    let s = w.UpdateWindow(250, 0, 250);
    assert_eq!(s, Some(WindowSample { sum_bytes: 10, is_small_sample: true }));
}

#[test]
fn window_stays_shorter_than_window_length() {
    let mut w = BitrateEstimator::new();
    let mut t = 0i64;
    for k in 0..100i64 {
        t += (k * 37) % 400;
        w.UpdateWindow(t, 10, 250);
        assert!(w.current_window_ms_ >= 0 && w.current_window_ms_ < 250);
    }
}
