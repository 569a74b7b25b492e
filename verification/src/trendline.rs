//! The discrete part of the delay-trend overuse detector: how many delay
//! deltas were seen, the overuse counter and the detector's conclusion.
use vstd::prelude::*;
use crate::inter_arrival::fits_i64;
use crate::rate_control::BandwidthUsage;

verus! {

/// Where the weighted delay trend lies relative to the adaptive threshold.
#[derive(Clone, Copy, Debug, PartialEq, Eq, Structural)]
pub enum TrendZone {
    /// Above the threshold.
    AboveThreshold,
    /// Below the negated threshold.
    BelowNegatedThreshold,
    /// Between the two.
    WithinThreshold,
}

/// What becomes of the overuse timer in one detection step.
#[derive(Clone, Copy, Debug, PartialEq, Eq, Structural)]
pub enum OveruseTimer {
    /// The timer is advanced by the send-time delta (started at half of it
    /// when stopped).
    Advance,
    /// The timer is set to zero.
    Zero,
    /// The timer is stopped.
    Stop,
}

/// Most deltas the detector counts.
pub const MAX_NUM_OF_DELTAS: i64 = 1000;

/// Most deltas that weigh the trend.
pub const MAX_TREND_WEIGHT: i64 = 60;

/// Longest time step, in milliseconds, by which the threshold adapts at once.
pub const MAX_THRESHOLD_TIME_DELTA_MS: i64 = 100;

/// The integer and enum state of the trend-line estimator; `-1` marks an
/// unset time.
pub struct TrendlineEstimator {
    pub num_of_deltas_: i64,
    pub first_arrival_time_ms_: i64,
    pub last_update_ms_: i64,
    pub overuse_counter_: i64,
    pub hypothesis_: BandwidthUsage,
    pub hypothesis_predicted_: BandwidthUsage,
}

impl TrendlineEstimator {
    /// The deltas counted stay within `0..=MAX_NUM_OF_DELTAS` and the overuse
    /// counter is never negative.
    pub open spec fn wf(&self) -> bool {
        &&& 0 <= self.num_of_deltas_ <= MAX_NUM_OF_DELTAS
        &&& 0 <= self.overuse_counter_
    }

    pub fn new() -> (r: Self)
        ensures
            r.num_of_deltas_ == 0,
            r.first_arrival_time_ms_ == -1,
            r.last_update_ms_ == -1,
            r.overuse_counter_ == 0,
            r.hypothesis_ == BandwidthUsage::kBwNormal,
            r.hypothesis_predicted_ == BandwidthUsage::kBwNormal,
            r.wf(),
    {
        TrendlineEstimator {
            num_of_deltas_: 0,
            first_arrival_time_ms_: -1,
            last_update_ms_: -1,
            overuse_counter_: 0,
            hypothesis_: BandwidthUsage::kBwNormal,
            hypothesis_predicted_: BandwidthUsage::kBwNormal,
        }
    }

    /// The first arrival time once the arrival at `arrival_time_ms` is counted.
    pub open spec fn first_arrival_after(&self, arrival_time_ms: i64) -> i64 {
        if self.first_arrival_time_ms_ == -1 {
            arrival_time_ms
        } else {
            self.first_arrival_time_ms_
        }
    }

    /// Counts one delay delta that arrived at `arrival_time_ms`, up to
    /// `MAX_NUM_OF_DELTAS`; the first arrival becomes the time origin.
    /// Returns the arrival time relative to that origin.
    pub fn CountDelta(&mut self, arrival_time_ms: i64) -> (offset: i64)
        requires
            old(self).wf(),
            fits_i64(arrival_time_ms - old(self).first_arrival_after(arrival_time_ms)),
        ensures
            final(self).wf(),
            final(self).num_of_deltas_ == if old(self).num_of_deltas_ + 1 < MAX_NUM_OF_DELTAS {
                old(self).num_of_deltas_ + 1
            } else {
                MAX_NUM_OF_DELTAS as int
            },
            final(self).first_arrival_time_ms_ == old(self).first_arrival_after(arrival_time_ms),
            offset == arrival_time_ms - final(self).first_arrival_time_ms_,
            final(self).last_update_ms_ == old(self).last_update_ms_,
            final(self).overuse_counter_ == old(self).overuse_counter_,
            final(self).hypothesis_ == old(self).hypothesis_,
            final(self).hypothesis_predicted_ == old(self).hypothesis_predicted_,
    {
        self.num_of_deltas_ = self.num_of_deltas_ + 1;
        if self.num_of_deltas_ > MAX_NUM_OF_DELTAS {
            self.num_of_deltas_ = MAX_NUM_OF_DELTAS;
        }
        if self.first_arrival_time_ms_ == -1 {
            self.first_arrival_time_ms_ = arrival_time_ms;
        }
        arrival_time_ms - self.first_arrival_time_ms_
    }

    /// How many deltas weigh the trend: the deltas counted, at most
    /// `MAX_TREND_WEIGHT`.
    pub fn TrendWeight(&self) -> (w: i64)
        ensures
            w == if self.num_of_deltas_ < MAX_TREND_WEIGHT {
                self.num_of_deltas_
            } else {
                MAX_TREND_WEIGHT
            },
    {
        if self.num_of_deltas_ < MAX_TREND_WEIGHT {
            self.num_of_deltas_
        } else {
            MAX_TREND_WEIGHT
        }
    }

    /// One detection step. With fewer than two deltas counted the link is
    /// taken as normal and `None` is returned: nothing else is detected.
    /// Otherwise a trend above the threshold counts as one more overuse,
    /// and becomes a detected overuse once the overuse timer, advanced by
    /// this step, exceeded its limit (`timer_exceeded`) on at least the
    /// second overuse in a row and the trend did not fall (`trend_rising`);
    /// the counter and the timer then start over. A trend below the negated
    /// threshold is an underuse, one in between is normal; both stop the
    /// timer and clear the counter.
    pub fn DetectStep(&mut self, zone: TrendZone, timer_exceeded: bool, trend_rising: bool) -> (timer:
        Option<OveruseTimer>)
        requires
            old(self).wf(),
            old(self).num_of_deltas_ >= 2 && zone == TrendZone::AboveThreshold
                ==> old(self).overuse_counter_ < i64::MAX,
        ensures
            final(self).wf(),
            final(self).num_of_deltas_ == old(self).num_of_deltas_,
            final(self).first_arrival_time_ms_ == old(self).first_arrival_time_ms_,
            final(self).last_update_ms_ == old(self).last_update_ms_,
            final(self).hypothesis_predicted_ == old(self).hypothesis_predicted_,
            old(self).num_of_deltas_ < 2 ==> {
                &&& timer is None
                &&& final(self).hypothesis_ == BandwidthUsage::kBwNormal
                &&& final(self).overuse_counter_ == old(self).overuse_counter_
            },
            old(self).num_of_deltas_ >= 2 ==> match zone {
                TrendZone::AboveThreshold => if timer_exceeded && old(self).overuse_counter_ + 1 > 1
                    && trend_rising {
                    &&& timer == Some(OveruseTimer::Zero)
                    &&& final(self).overuse_counter_ == 0
                    &&& final(self).hypothesis_ == BandwidthUsage::kBwOverusing
                } else {
                    &&& timer == Some(OveruseTimer::Advance)
                    &&& final(self).overuse_counter_ == old(self).overuse_counter_ + 1
                    &&& final(self).hypothesis_ == old(self).hypothesis_
                },
                TrendZone::BelowNegatedThreshold => {
                    &&& timer == Some(OveruseTimer::Stop)
                    &&& final(self).overuse_counter_ == 0
                    &&& final(self).hypothesis_ == BandwidthUsage::kBwUnderusing
                },
                TrendZone::WithinThreshold => {
                    &&& timer == Some(OveruseTimer::Stop)
                    &&& final(self).overuse_counter_ == 0
                    &&& final(self).hypothesis_ == BandwidthUsage::kBwNormal
                },
            },
            // An overuse is only ever concluded from a trend above the threshold.
            final(self).hypothesis_ == BandwidthUsage::kBwOverusing ==> zone
                == TrendZone::AboveThreshold || old(self).hypothesis_
                == BandwidthUsage::kBwOverusing,
    {
        if self.num_of_deltas_ < 2 {
            self.hypothesis_ = BandwidthUsage::kBwNormal;
            return None;
        }
        match zone {
            TrendZone::AboveThreshold => {
                self.overuse_counter_ = self.overuse_counter_ + 1;
                if timer_exceeded && self.overuse_counter_ > 1 && trend_rising {
                    self.overuse_counter_ = 0;
                    self.hypothesis_ = BandwidthUsage::kBwOverusing;
                    Some(OveruseTimer::Zero)
                } else {
                    Some(OveruseTimer::Advance)
                }
            },
            TrendZone::BelowNegatedThreshold => {
                self.overuse_counter_ = 0;
                self.hypothesis_ = BandwidthUsage::kBwUnderusing;
                Some(OveruseTimer::Stop)
            },
            TrendZone::WithinThreshold => {
                self.overuse_counter_ = 0;
                self.hypothesis_ = BandwidthUsage::kBwNormal;
                Some(OveruseTimer::Stop)
            },
        }
    }

    /// The time part of a threshold update at `now_ms`. The first update
    /// starts the clock. A latency spike (`spike`) does not adapt the
    /// threshold and `None` is returned; otherwise the threshold adapts over
    /// the time since the last update, at most
    /// `MAX_THRESHOLD_TIME_DELTA_MS`, which is returned. Either way `now_ms`
    /// becomes the time of the last update.
    pub fn ThresholdTimeDelta(&mut self, now_ms: i64, spike: bool) -> (time_delta_ms: Option<i64>)
        requires
            !spike && old(self).last_update_ms_ != -1 ==> fits_i64(
                now_ms - old(self).last_update_ms_,
            ),
        ensures
            final(self).last_update_ms_ == now_ms,
            final(self).num_of_deltas_ == old(self).num_of_deltas_,
            final(self).first_arrival_time_ms_ == old(self).first_arrival_time_ms_,
            final(self).overuse_counter_ == old(self).overuse_counter_,
            final(self).hypothesis_ == old(self).hypothesis_,
            final(self).hypothesis_predicted_ == old(self).hypothesis_predicted_,
            spike ==> time_delta_ms is None,
            !spike ==> ({
                let last = if old(self).last_update_ms_ == -1 {
                    now_ms as int
                } else {
                    old(self).last_update_ms_ as int
                };
                time_delta_ms == Some(
                    (if now_ms - last < MAX_THRESHOLD_TIME_DELTA_MS {
                        now_ms - last
                    } else {
                        MAX_THRESHOLD_TIME_DELTA_MS as int
                    }) as i64,
                )
            }),
    {
        if self.last_update_ms_ == -1 {
            self.last_update_ms_ = now_ms;
        }
        if spike {
            self.last_update_ms_ = now_ms;
            return None;
        }
        let elapsed: i64 = now_ms - self.last_update_ms_;
        let time_delta: i64 = if elapsed < MAX_THRESHOLD_TIME_DELTA_MS {
            elapsed
        } else {
            MAX_THRESHOLD_TIME_DELTA_MS
        };
        self.last_update_ms_ = now_ms;
        Some(time_delta)
    }
}

} // verus!
