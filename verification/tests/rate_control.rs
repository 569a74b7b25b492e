use alvr_server::rate_control::{AimdRateControl, BandwidthUsage, BitrateStep, RateControlState};

fn with_state(state: RateControlState, t: i64) -> AimdRateControl {
    let mut a = AimdRateControl::new(false);
    a.rate_control_state_ = state;
    a.time_last_bitrate_change_ = t;
    a
}

#[test]
fn new_controller_holds() {
    let a = AimdRateControl::new(true);
    assert_eq!(a.rate_control_state_, RateControlState::kRcHold);
    assert_eq!(a.time_last_bitrate_change_, i64::MIN);
    assert_eq!(a.time_first_throughput_estimate_, i64::MIN);
    assert!(!a.bitrate_is_initialized_);
    assert!(a.send_side_);
    assert!(a.no_bitrate_increase_in_alr_);
    assert_eq!(a.rtt_, 200);
    assert_eq!(a.flag_for_qp, 1);
}

#[test]
fn normal_turns_hold_into_increase() {
    let mut a = with_state(RateControlState::kRcHold, 5);
    a.ChangeState(BandwidthUsage::kBwNormal, 42);
    assert_eq!((a.rate_control_state_, a.time_last_bitrate_change_), (RateControlState::kRcIncrease, 42));
    let mut a = with_state(RateControlState::kRcDecrease, 5);
    a.ChangeState(BandwidthUsage::kBwNormal, 42);
    assert_eq!((a.rate_control_state_, a.time_last_bitrate_change_), (RateControlState::kRcDecrease, 5));
    let mut a = with_state(RateControlState::kRcIncrease, 5);
    a.ChangeState(BandwidthUsage::kBwNormal, 42);
    assert_eq!((a.rate_control_state_, a.time_last_bitrate_change_), (RateControlState::kRcIncrease, 5));
}

#[test]
fn overuse_always_decreases() {
    for s in [RateControlState::kRcHold, RateControlState::kRcIncrease, RateControlState::kRcDecrease] {
        let mut a = with_state(s, 7);
        a.ChangeState(BandwidthUsage::kBwOverusing, 9);
        assert_eq!((a.rate_control_state_, a.time_last_bitrate_change_), (RateControlState::kRcDecrease, 7));
    }
}

#[test]
fn underuse_always_holds() {
    for s in [RateControlState::kRcHold, RateControlState::kRcIncrease, RateControlState::kRcDecrease] {
        let mut a = with_state(s, 7);
        a.ChangeState(BandwidthUsage::kBwUnderusing, 9);
        assert_eq!((a.rate_control_state_, a.time_last_bitrate_change_), (RateControlState::kRcHold, 7));
    }
}

#[test]
fn last_variant_changes_nothing() {
    let mut a = with_state(RateControlState::kRcIncrease, 7);
    a.ChangeState(BandwidthUsage::kLast, 9);
    assert_eq!((a.rate_control_state_, a.time_last_bitrate_change_), (RateControlState::kRcIncrease, 7));
}

#[test]
fn initialization_waits_five_seconds() {
    let mut a = AimdRateControl::new(false);
    // Without an estimate nothing is stamped.
    assert!(!a.InitializeFromThroughput(false, 100));
    assert_eq!(a.time_first_throughput_estimate_, i64::MIN);
    // The first estimate stamps the time.
    assert!(!a.InitializeFromThroughput(true, 100));
    assert_eq!(a.time_first_throughput_estimate_, 100);
    // Adopted only after more than 5000 ms and with an estimate.
    assert!(!a.InitializeFromThroughput(true, 5100));
    assert!(!a.InitializeFromThroughput(false, 9000));
    assert!(!a.bitrate_is_initialized_);
    assert!(a.InitializeFromThroughput(true, 5101));
    assert!(a.bitrate_is_initialized_);
    // Nothing happens once initialised.
    assert!(!a.InitializeFromThroughput(true, 20000));
    assert_eq!(a.time_first_throughput_estimate_, 100);
}

#[test]
fn bitrate_change_waits_for_initialisation_or_overuse() {
    let mut a = AimdRateControl::new(false);
    assert_eq!(a.ChangeBitrateState(BandwidthUsage::kBwNormal, 10), None);
    assert_eq!(a.ChangeBitrateState(BandwidthUsage::kBwUnderusing, 10), None);
    assert_eq!(a.rate_control_state_, RateControlState::kRcHold);
    assert_eq!(a.time_last_bitrate_change_, i64::MIN);
}

#[test]
fn overuse_decreases_once_and_initialises() {
    let mut a = AimdRateControl::new(false);
    let step = a.ChangeBitrateState(BandwidthUsage::kBwOverusing, 10);
    assert_eq!(
        step,
        Some(BitrateStep {
            state: RateControlState::kRcDecrease,
            time_last_bitrate_change: i64::MIN,
            was_initialized: false
        })
    );
    assert!(a.bitrate_is_initialized_);
    assert_eq!(a.rate_control_state_, RateControlState::kRcHold);
    assert_eq!(a.time_last_bitrate_change_, 10);
    assert_eq!(a.time_last_bitrate_decrease_, 10);
}

#[test]
fn normal_after_initialisation_increases() {
    let mut a = AimdRateControl::new(false);
    a.bitrate_is_initialized_ = true;
    let step = a.ChangeBitrateState(BandwidthUsage::kBwNormal, 30).unwrap();
    // Hold becomes increase; the increase sees the change time just stamped.
    assert_eq!(step.state, RateControlState::kRcIncrease);
    assert_eq!(step.time_last_bitrate_change, 30);
    assert!(step.was_initialized);
    let step = a.ChangeBitrateState(BandwidthUsage::kBwNormal, 45).unwrap();
    assert_eq!(step.state, RateControlState::kRcIncrease);
    assert_eq!(step.time_last_bitrate_change, 30);
    assert_eq!(a.time_last_bitrate_change_, 45);
    let step = a.ChangeBitrateState(BandwidthUsage::kBwUnderusing, 50).unwrap();
    assert_eq!(step.state, RateControlState::kRcHold);
    assert_eq!(a.rate_control_state_, RateControlState::kRcHold);
    assert_eq!(a.time_last_bitrate_change_, 45);
}

#[test]
fn no_bitrate_change_leaves_decrease() {
    let mut a = AimdRateControl::new(false);
    let reports = [
        BandwidthUsage::kBwOverusing,
        BandwidthUsage::kBwNormal,
        BandwidthUsage::kBwOverusing,
        BandwidthUsage::kBwUnderusing,
        BandwidthUsage::kBwNormal,
        BandwidthUsage::kLast,
    ];
    for (t, r) in reports.iter().enumerate() {
        if a.ChangeBitrateState(*r, t as i64).is_some() {
            assert_ne!(a.rate_control_state_, RateControlState::kRcDecrease);
        }
    }
}
