use alvr_server::rate_control::BandwidthUsage;
use alvr_server::trendline::{OveruseTimer, TrendZone, TrendlineEstimator};

#[test]
fn new_estimator_is_normal() {
    let t = TrendlineEstimator::new();
    assert_eq!(t.num_of_deltas_, 0);
    assert_eq!(t.first_arrival_time_ms_, -1);
    assert_eq!(t.last_update_ms_, -1);
    assert_eq!(t.overuse_counter_, 0);
    assert_eq!(t.hypothesis_, BandwidthUsage::kBwNormal);
    assert_eq!(t.hypothesis_predicted_, BandwidthUsage::kBwNormal);
}

#[test]
fn deltas_are_counted_up_to_a_limit() {
    let mut t = TrendlineEstimator::new();
    assert_eq!(t.CountDelta(500), 0);
    assert_eq!(t.first_arrival_time_ms_, 500);
    assert_eq!(t.CountDelta(530), 30);
    assert_eq!(t.num_of_deltas_, 2);
    for k in 0..2000 {
        t.CountDelta(600 + k);
    }
    assert_eq!(t.num_of_deltas_, 1000);
    assert_eq!(t.first_arrival_time_ms_, 500);
}

#[test]
fn trend_weight_is_capped() {
    let mut t = TrendlineEstimator::new();
    assert_eq!(t.TrendWeight(), 0);
    for k in 0..10 {
        t.CountDelta(k);
    }
    assert_eq!(t.TrendWeight(), 10);
    for k in 0..100 {
        t.CountDelta(k);
    }
    assert_eq!(t.TrendWeight(), 60);
}

#[test]
fn too_few_deltas_are_normal() {
    let mut t = TrendlineEstimator::new();
    t.CountDelta(0);
    t.hypothesis_ = BandwidthUsage::kBwOverusing;
    assert_eq!(t.DetectStep(TrendZone::AboveThreshold, true, true), None);
    assert_eq!(t.hypothesis_, BandwidthUsage::kBwNormal);
    assert_eq!(t.overuse_counter_, 0);
}

#[test]
fn overuse_needs_two_steps_timer_and_rising_trend() {
    let mut t = TrendlineEstimator::new();
    t.CountDelta(0);
    t.CountDelta(1);
    // The first step above the threshold only counts.
    assert_eq!(t.DetectStep(TrendZone::AboveThreshold, true, true), Some(OveruseTimer::Advance));
    assert_eq!(t.overuse_counter_, 1);
    assert_eq!(t.hypothesis_, BandwidthUsage::kBwNormal);
    // A falling trend keeps counting.
    assert_eq!(t.DetectStep(TrendZone::AboveThreshold, true, false), Some(OveruseTimer::Advance));
    assert_eq!(t.overuse_counter_, 2);
    // A timer below its limit keeps counting.
    assert_eq!(t.DetectStep(TrendZone::AboveThreshold, false, true), Some(OveruseTimer::Advance));
    assert_eq!(t.overuse_counter_, 3);
    assert_eq!(t.DetectStep(TrendZone::AboveThreshold, true, true), Some(OveruseTimer::Zero));
    assert_eq!(t.overuse_counter_, 0);
    assert_eq!(t.hypothesis_, BandwidthUsage::kBwOverusing);
}

#[test]
fn underuse_and_normal_stop_the_timer() {
    let mut t = TrendlineEstimator::new();
    t.CountDelta(0);
    t.CountDelta(1);
    t.DetectStep(TrendZone::AboveThreshold, false, true);
    assert_eq!(t.DetectStep(TrendZone::BelowNegatedThreshold, true, true), Some(OveruseTimer::Stop));
    assert_eq!(t.hypothesis_, BandwidthUsage::kBwUnderusing);
    assert_eq!(t.overuse_counter_, 0);
    assert_eq!(t.DetectStep(TrendZone::WithinThreshold, true, true), Some(OveruseTimer::Stop));
    assert_eq!(t.hypothesis_, BandwidthUsage::kBwNormal);
}

#[test]
fn threshold_time_delta() {
    let mut t = TrendlineEstimator::new();
    // The first update starts the clock.
    assert_eq!(t.ThresholdTimeDelta(1000, false), Some(0));
    assert_eq!(t.ThresholdTimeDelta(1040, false), Some(40));
    assert_eq!(t.ThresholdTimeDelta(1500, false), Some(100));
    // A spike only moves the clock.
    assert_eq!(t.ThresholdTimeDelta(1600, true), None);
    assert_eq!(t.last_update_ms_, 1600);
    assert_eq!(t.ThresholdTimeDelta(1610, false), Some(10));
}
