//! The discrete part of the additive-increase / multiplicative-decrease
//! rate controller: what the detector reports, the controller state and
//! the rules that move between them.
use vstd::prelude::*;

verus! {

/// What the delay-based overuse detector concludes about the link.
#[derive(Clone, Copy, Debug, PartialEq, Eq, Structural)]
pub enum BandwidthUsage {
    kBwNormal,
    kBwUnderusing,
    kBwOverusing,
    kLast,
}

/// State of the rate controller.
#[derive(Clone, Copy, Debug, PartialEq, Eq, Structural)]
pub enum RateControlState {
    kRcHold,
    kRcIncrease,
    kRcDecrease,
}

/// The controller state and the time of the last bitrate change after the
/// detector reported `bw_state` at `at_time`.
pub open spec fn spec_change_state(
    state: RateControlState,
    time_last_bitrate_change: i64,
    bw_state: BandwidthUsage,
    at_time: i64,
) -> (RateControlState, i64) {
    match bw_state {
        BandwidthUsage::kBwNormal => if state == RateControlState::kRcHold {
            (RateControlState::kRcIncrease, at_time)
        } else {
            (state, time_last_bitrate_change)
        },
        BandwidthUsage::kBwOverusing => (RateControlState::kRcDecrease, time_last_bitrate_change),
        BandwidthUsage::kBwUnderusing => (RateControlState::kRcHold, time_last_bitrate_change),
        BandwidthUsage::kLast => (state, time_last_bitrate_change),
    }
}

/// The integer and boolean state of the additive-increase /
/// multiplicative-decrease rate controller; `i64::MIN` marks an unset time.
pub struct AimdRateControl {
    pub rate_control_state_: RateControlState,
    pub time_last_bitrate_change_: i64,
    pub time_last_bitrate_decrease_: i64,
    pub time_first_throughput_estimate_: i64,
    pub bitrate_is_initialized_: bool,
    pub in_alr_: bool,
    pub rtt_: i64,
    pub send_side_: bool,
    pub no_bitrate_increase_in_alr_: bool,
    pub flag_for_qp: u64,
}

/// The branch that a bitrate change takes, with what the branch reads of
/// the controller before the branch updates it.
#[derive(Clone, Copy, Debug, PartialEq, Eq, Structural)]
pub struct BitrateStep {
    pub state: RateControlState,
    pub time_last_bitrate_change: i64,
    pub was_initialized: bool,
}

/// Length of the period over which throughput is observed before the
/// bitrate is initialised from it.
pub const INITIALIZATION_TIME_MS: i64 = 5000;

impl AimdRateControl {
    pub fn new(send_side: bool) -> (r: Self)
        ensures
            r.rate_control_state_ == RateControlState::kRcHold,
            r.time_last_bitrate_change_ == i64::MIN,
            r.time_last_bitrate_decrease_ == i64::MIN,
            r.time_first_throughput_estimate_ == i64::MIN,
            !r.bitrate_is_initialized_,
            !r.in_alr_,
            r.rtt_ == 200,
            r.send_side_ == send_side,
            r.no_bitrate_increase_in_alr_,
            r.flag_for_qp == 1,
    {
        AimdRateControl {
            rate_control_state_: RateControlState::kRcHold,
            time_last_bitrate_change_: i64::MIN,
            time_last_bitrate_decrease_: i64::MIN,
            time_first_throughput_estimate_: i64::MIN,
            bitrate_is_initialized_: false,
            in_alr_: false,
            rtt_: 200,
            send_side_: send_side,
            no_bitrate_increase_in_alr_: true,
            flag_for_qp: 1,
        }
    }

    /// Moves the rate controller on what the detector reported: an overuse
    /// always leads to a decrease and an underuse to a hold; a normal report
    /// makes a hold an increase and records `at_time` as the time of the
    /// change.
    pub fn ChangeState(&mut self, bw_state: BandwidthUsage, at_time: i64)
        ensures
            (final(self).rate_control_state_, final(self).time_last_bitrate_change_)
                == spec_change_state(
                old(self).rate_control_state_,
                old(self).time_last_bitrate_change_,
                bw_state,
                at_time,
            ),
            final(self).time_last_bitrate_decrease_ == old(self).time_last_bitrate_decrease_,
            final(self).time_first_throughput_estimate_
                == old(self).time_first_throughput_estimate_,
            final(self).bitrate_is_initialized_ == old(self).bitrate_is_initialized_,
            final(self).in_alr_ == old(self).in_alr_,
            final(self).rtt_ == old(self).rtt_,
            final(self).send_side_ == old(self).send_side_,
            final(self).no_bitrate_increase_in_alr_ == old(self).no_bitrate_increase_in_alr_,
            final(self).flag_for_qp == old(self).flag_for_qp,
            // An overuse always leads to a decrease and an underuse to a hold.
            bw_state == BandwidthUsage::kBwOverusing ==> final(self).rate_control_state_
                == RateControlState::kRcDecrease,
            bw_state == BandwidthUsage::kBwUnderusing ==> final(self).rate_control_state_
                == RateControlState::kRcHold,
            // A normal report turns a hold into an increase at `at_time`, and
            // leaves any other state as it is.
            bw_state == BandwidthUsage::kBwNormal && old(self).rate_control_state_
                == RateControlState::kRcHold ==> final(self).rate_control_state_
                == RateControlState::kRcIncrease && final(self).time_last_bitrate_change_
                == at_time,
            bw_state == BandwidthUsage::kBwNormal && old(self).rate_control_state_
                != RateControlState::kRcHold ==> final(self).rate_control_state_ == old(
                self,
            ).rate_control_state_,
            bw_state == BandwidthUsage::kLast ==> final(self).rate_control_state_ == old(
                self,
            ).rate_control_state_,
            // Only a hold turned into an increase stamps the change time.
            !(bw_state == BandwidthUsage::kBwNormal && old(self).rate_control_state_
                == RateControlState::kRcHold) ==> final(self).time_last_bitrate_change_ == old(
                self,
            ).time_last_bitrate_change_,
    {
        match bw_state {
            BandwidthUsage::kBwNormal => {
                if self.rate_control_state_ == RateControlState::kRcHold {
                    self.time_last_bitrate_change_ = at_time;
                    self.rate_control_state_ = RateControlState::kRcIncrease;
                }
            },
            BandwidthUsage::kBwOverusing => {
                if self.rate_control_state_ != RateControlState::kRcDecrease {
                    self.rate_control_state_ = RateControlState::kRcDecrease;
                }
            },
            BandwidthUsage::kBwUnderusing => {
                self.rate_control_state_ = RateControlState::kRcHold;
            },
            BandwidthUsage::kLast => {},
        }
    }

    /// The time of the first throughput estimate is stamped at all, or
    /// stamped long enough ago, for an estimate to be taken as the bitrate.
    pub open spec fn spec_initialization(
        self,
        has_estimated_throughput: bool,
        at_time: i64,
    ) -> (i64, bool) {
        if self.bitrate_is_initialized_ {
            (self.time_first_throughput_estimate_, false)
        } else if self.time_first_throughput_estimate_ == i64::MIN {
            (
                if has_estimated_throughput {
                    at_time
                } else {
                    self.time_first_throughput_estimate_
                },
                false,
            )
        } else {
            (
                self.time_first_throughput_estimate_,
                at_time - self.time_first_throughput_estimate_ > INITIALIZATION_TIME_MS
                    && has_estimated_throughput,
            )
        }
    }

    /// The initialisation step that opens each bitrate update. While the
    /// bitrate is not initialised, the first update that carries a throughput
    /// estimate stamps its time; once more than `INITIALIZATION_TIME_MS`
    /// have passed since then, an update that carries an estimate initialises
    /// the bitrate. Returns whether the caller is to take the estimate as the
    /// current bitrate.
    pub fn InitializeFromThroughput(&mut self, has_estimated_throughput: bool, at_time: i64) -> (adopt: bool)
        requires
            !old(self).bitrate_is_initialized_ && old(self).time_first_throughput_estimate_
                != i64::MIN ==> i64::MIN <= at_time - old(self).time_first_throughput_estimate_
                <= i64::MAX,
        ensures
            (final(self).time_first_throughput_estimate_, adopt) == old(self).spec_initialization(
                has_estimated_throughput,
                at_time,
            ),
            final(self).bitrate_is_initialized_ == (old(self).bitrate_is_initialized_ || adopt),
            adopt ==> has_estimated_throughput && !old(self).bitrate_is_initialized_,
            // The estimate is taken exactly when the bitrate is not yet
            // initialised, an estimate is at hand, and more than
            // `INITIALIZATION_TIME_MS` passed since the first one was stamped.
            adopt == (!old(self).bitrate_is_initialized_ && has_estimated_throughput
                && old(self).time_first_throughput_estimate_ != i64::MIN && at_time
                - old(self).time_first_throughput_estimate_ > INITIALIZATION_TIME_MS),
            // Only the first estimate before initialisation stamps its time.
            final(self).time_first_throughput_estimate_ == if !old(self).bitrate_is_initialized_
                && old(self).time_first_throughput_estimate_ == i64::MIN
                && has_estimated_throughput {
                at_time
            } else {
                old(self).time_first_throughput_estimate_
            },
            final(self).rate_control_state_ == old(self).rate_control_state_,
            final(self).time_last_bitrate_change_ == old(self).time_last_bitrate_change_,
            final(self).time_last_bitrate_decrease_ == old(self).time_last_bitrate_decrease_,
            final(self).in_alr_ == old(self).in_alr_,
            final(self).rtt_ == old(self).rtt_,
            final(self).send_side_ == old(self).send_side_,
            final(self).no_bitrate_increase_in_alr_ == old(self).no_bitrate_increase_in_alr_,
            final(self).flag_for_qp == old(self).flag_for_qp,
    {
        let mut adopt = false;
        if !self.bitrate_is_initialized_ {
            if self.time_first_throughput_estimate_ == i64::MIN {
                if has_estimated_throughput {
                    self.time_first_throughput_estimate_ = at_time;
                }
            } else if at_time - self.time_first_throughput_estimate_ > INITIALIZATION_TIME_MS
                && has_estimated_throughput {
                self.bitrate_is_initialized_ = true;
                adopt = true;
            }
        }
        adopt
    }

    /// The state part of a bitrate change. Returns `None`, changing nothing,
    /// while the bitrate is not initialised and no overuse is reported.
    /// Otherwise the controller moves on `bw_state` and the step names the
    /// branch to take, the time of the last bitrate change as the branch
    /// sees it, and whether the bitrate was initialised before the step. An
    /// increase stamps `at_time` as the last change; a decrease initialises
    /// the bitrate, stamps `at_time` as the last change and decrease, and
    /// returns to hold.
    pub fn ChangeBitrateState(&mut self, bw_state: BandwidthUsage, at_time: i64) -> (step: Option<
        BitrateStep,
    >)
        ensures
            !old(self).bitrate_is_initialized_ && bw_state != BandwidthUsage::kBwOverusing ==> {
                &&& step is None
                &&& *final(self) == *old(self)
            },
            old(self).bitrate_is_initialized_ || bw_state == BandwidthUsage::kBwOverusing ==> {
                let (state, last_change) = spec_change_state(
                    old(self).rate_control_state_,
                    old(self).time_last_bitrate_change_,
                    bw_state,
                    at_time,
                );
                &&& step == Some(
                    BitrateStep {
                        state,
                        time_last_bitrate_change: last_change,
                        was_initialized: old(self).bitrate_is_initialized_,
                    },
                )
                &&& *final(self) == match state {
                    RateControlState::kRcHold => AimdRateControl {
                        rate_control_state_: state,
                        time_last_bitrate_change_: last_change,
                        ..*old(self)
                    },
                    RateControlState::kRcIncrease => AimdRateControl {
                        rate_control_state_: state,
                        time_last_bitrate_change_: at_time,
                        ..*old(self)
                    },
                    RateControlState::kRcDecrease => AimdRateControl {
                        rate_control_state_: RateControlState::kRcHold,
                        time_last_bitrate_change_: at_time,
                        time_last_bitrate_decrease_: at_time,
                        bitrate_is_initialized_: true,
                        ..*old(self)
                    },
                }
            },
            // A decrease lasts a single step: no bitrate change leaves the
            // controller decreasing.
            step is Some ==> final(self).rate_control_state_ != RateControlState::kRcDecrease,
            // An overuse always initialises the bitrate.
            bw_state == BandwidthUsage::kBwOverusing ==> final(self).bitrate_is_initialized_,
            // Once initialised, or on an overuse, a change always takes place.
            old(self).bitrate_is_initialized_ || bw_state == BandwidthUsage::kBwOverusing
                ==> (step matches Some(st) && st.was_initialized
                == old(self).bitrate_is_initialized_),
            // An overuse takes the decrease branch, stamping `at_time` as the
            // last change and decrease, and returns to hold.
            bw_state == BandwidthUsage::kBwOverusing ==> {
                &&& (step matches Some(st) && st.state == RateControlState::kRcDecrease)
                &&& final(self).rate_control_state_ == RateControlState::kRcHold
                &&& final(self).time_last_bitrate_change_ == at_time
                &&& final(self).time_last_bitrate_decrease_ == at_time
            },
            // An underuse holds without touching the change times.
            bw_state == BandwidthUsage::kBwUnderusing && old(self).bitrate_is_initialized_ ==> {
                &&& (step matches Some(st) && st.state == RateControlState::kRcHold)
                &&& final(self).rate_control_state_ == RateControlState::kRcHold
                &&& final(self).time_last_bitrate_change_ == old(self).time_last_bitrate_change_
                &&& final(self).time_last_bitrate_decrease_ == old(
                    self,
                ).time_last_bitrate_decrease_
            },
            // Only the decrease branch stamps the time of a decrease.
            (step is None || step.unwrap().state != RateControlState::kRcDecrease)
                ==> final(self).time_last_bitrate_decrease_ == old(self).time_last_bitrate_decrease_,
    {
        if !self.bitrate_is_initialized_ && bw_state != BandwidthUsage::kBwOverusing {
            return None;
        }
        let was_initialized = self.bitrate_is_initialized_;
        self.ChangeState(bw_state, at_time);
        let step = BitrateStep {
            state: self.rate_control_state_,
            time_last_bitrate_change: self.time_last_bitrate_change_,
            was_initialized,
        };
        match self.rate_control_state_ {
            RateControlState::kRcHold => {},
            RateControlState::kRcIncrease => {
                self.time_last_bitrate_change_ = at_time;
            },
            RateControlState::kRcDecrease => {
                self.bitrate_is_initialized_ = true;
                self.rate_control_state_ = RateControlState::kRcHold;
                self.time_last_bitrate_change_ = at_time;
                self.time_last_bitrate_decrease_ = at_time;
            },
        }
        Some(step)
    }
}

} // verus!
