//! The byte-counting window behind the acknowledged-bitrate estimate:
//! the integer state of the bitrate estimator.
use vstd::prelude::*;
use crate::inter_arrival::fits_i64;

verus! {

/// Bytes received in the current window, the time already covered by the
/// window and the time of the previous update (`-1` when unset), with the
/// window lengths and thresholds of the estimator.
#[derive(Clone, Copy, Debug, PartialEq, Eq, Structural)]
pub struct BitrateEstimator {
    pub sum_: i64,
    pub initial_window_ms_: i64,
    pub noninitial_window_ms_: i64,
    pub small_sample_threshold_: usize,
    pub uncertainty_symmetry_cap_: usize,
    pub estimate_floor_: usize,
    pub current_window_ms_: i64,
    pub prev_time_ms_: i64,
}

/// A completed window: the bytes it holds and whether they fall below the
/// small-sample threshold. The bitrate sample in kbit/s is
/// `8 * sum_bytes / rate_window_ms`.
#[derive(Clone, Copy, Debug, PartialEq, Eq, Structural)]
pub struct WindowSample {
    pub sum_bytes: i64,
    pub is_small_sample: bool,
}

impl BitrateEstimator {
    /// The covered time is never negative.
    pub open spec fn wf(&self) -> bool {
        self.current_window_ms_ >= 0
    }

    /// An update with a time before the previous update starts over.
    pub open spec fn restarted(&self, now_ms: i64) -> BitrateEstimator {
        if now_ms < self.prev_time_ms_ {
            BitrateEstimator { sum_: 0, current_window_ms_: 0, prev_time_ms_: -1i64, ..*self }
        } else {
            *self
        }
    }

    /// The window after the time since the previous update has been added
    /// to it; after a gap longer than a whole window the bytes are dropped
    /// and only the remainder of the gap is kept.
    pub open spec fn advanced(&self, now_ms: i64, rate_window_ms: i64) -> BitrateEstimator {
        if self.prev_time_ms_ >= 0 {
            let gap: int = now_ms - self.prev_time_ms_;
            let covered: int = self.current_window_ms_ + gap;
            if gap > rate_window_ms {
                BitrateEstimator {
                    sum_: 0,
                    current_window_ms_: (covered % (rate_window_ms as int)) as i64,
                    ..*self
                }
            } else {
                BitrateEstimator { current_window_ms_: covered as i64, ..*self }
            }
        } else {
            *self
        }
    }

    /// The arithmetic of `UpdateWindow` stays within `i64` and never divides by zero.
    pub open spec fn update_defined(&self, now_ms: i64, bytes: usize, rate_window_ms: i64) -> bool {
        let s = self.restarted(now_ms);
        let a = s.advanced(now_ms, rate_window_ms);
        &&& s.prev_time_ms_ >= 0 ==> {
            &&& fits_i64(s.current_window_ms_ + (now_ms - s.prev_time_ms_))
            &&& now_ms - s.prev_time_ms_ > rate_window_ms ==> rate_window_ms != 0
        }
        &&& a.current_window_ms_ >= rate_window_ms ==> fits_i64(
            a.current_window_ms_ - rate_window_ms,
        )
        &&& a.current_window_ms_ < rate_window_ms ==> fits_i64(a.sum_ + (bytes as i64))
    }

    /// An update at or after the previous update does not start over.
    pub proof fn lemma_no_restart_unless_time_goes_back(&self, now_ms: i64)
        requires
            self.prev_time_ms_ <= now_ms,
        ensures
            self.restarted(now_ms) == *self,
    {
    }

    pub fn new() -> (w: Self)
        ensures
            w == (BitrateEstimator {
                sum_: 0,
                initial_window_ms_: 350,
                noninitial_window_ms_: 250,
                small_sample_threshold_: 0,
                uncertainty_symmetry_cap_: 0,
                estimate_floor_: 0,
                current_window_ms_: 0,
                prev_time_ms_: -1i64,
            }),
            w.wf(),
    {
        BitrateEstimator {
            sum_: 0,
            initial_window_ms_: 350,
            noninitial_window_ms_: 250,
            small_sample_threshold_: 0,
            uncertainty_symmetry_cap_: 0,
            estimate_floor_: 0,
            current_window_ms_: 0,
            prev_time_ms_: -1,
        }
    }

    /// Counts `bytes` received at `now_ms`. When the window has covered
    /// `rate_window_ms`, its bytes are handed out as a sample (marked small
    /// when below the small-sample threshold) and a new window begins, which
    /// starts with these `bytes`.
    pub fn UpdateWindow(&mut self, now_ms: i64, bytes: usize, rate_window_ms: i64) -> (sample:
        Option<WindowSample>)
        requires
            old(self).wf(),
            old(self).update_defined(now_ms, bytes, rate_window_ms),
        ensures
            final(self).wf(),
            final(self).prev_time_ms_ == now_ms,
            final(self).initial_window_ms_ == old(self).initial_window_ms_,
            final(self).noninitial_window_ms_ == old(self).noninitial_window_ms_,
            final(self).small_sample_threshold_ == old(self).small_sample_threshold_,
            final(self).uncertainty_symmetry_cap_ == old(self).uncertainty_symmetry_cap_,
            final(self).estimate_floor_ == old(self).estimate_floor_,
            ({
                let a = old(self).restarted(now_ms).advanced(now_ms, rate_window_ms);
                if a.current_window_ms_ >= rate_window_ms {
                    &&& sample == Some(
                        WindowSample {
                            sum_bytes: a.sum_,
                            is_small_sample: a.sum_ < (old(self).small_sample_threshold_ as i64),
                        },
                    )
                    &&& final(self).current_window_ms_ == a.current_window_ms_ - rate_window_ms
                    &&& final(self).sum_ == bytes as i64
                } else {
                    &&& sample is None
                    &&& final(self).current_window_ms_ == a.current_window_ms_
                    &&& final(self).sum_ == a.sum_ + (bytes as i64)
                }
            }),
            // A window shorter than the window length stays shorter.
            0 < rate_window_ms && old(self).current_window_ms_ < rate_window_ms
                ==> final(self).current_window_ms_ < rate_window_ms,
            // An update at or after the previous one, within a window of it,
            // keeps every byte counted so far: while the window is not full
            // the new bytes are added to them and the gap to the covered time,
            // and once it is full the sample holds all of them.
            old(self).prev_time_ms_ >= 0 && old(self).prev_time_ms_ <= now_ms && now_ms
                - old(self).prev_time_ms_ <= rate_window_ms ==> {
                let covered = old(self).current_window_ms_ + (now_ms - old(self).prev_time_ms_);
                if covered < rate_window_ms {
                    &&& sample is None
                    &&& final(self).sum_ == old(self).sum_ + (bytes as i64)
                    &&& final(self).current_window_ms_ == covered
                } else {
                    &&& sample matches Some(smp) && smp.sum_bytes == old(self).sum_
                    &&& final(self).sum_ == bytes as i64
                    &&& final(self).current_window_ms_ == covered - rate_window_ms
                }
            },
            // After a gap longer than a whole window the bytes counted so far
            // are dropped and the window keeps only the remainder of the gap.
            old(self).prev_time_ms_ >= 0 && old(self).prev_time_ms_ <= now_ms && now_ms
                - old(self).prev_time_ms_ > rate_window_ms && rate_window_ms > 0 ==> {
                &&& sample is None
                &&& final(self).sum_ == bytes as i64
                &&& final(self).current_window_ms_ == (old(self).current_window_ms_ + (now_ms
                    - old(self).prev_time_ms_)) % (rate_window_ms as int)
            },
            // Only an update before the previous one starts over: the bytes
            // counted so far are dropped.
            now_ms < old(self).prev_time_ms_ && rate_window_ms > 0 ==> {
                &&& sample is None
                &&& final(self).sum_ == bytes as i64
                &&& final(self).current_window_ms_ == 0
            },
    {
        if now_ms < self.prev_time_ms_ {
            self.prev_time_ms_ = -1;
            self.sum_ = 0;
            self.current_window_ms_ = 0;
        }
        if self.prev_time_ms_ >= 0 {
            self.current_window_ms_ = self.current_window_ms_ + (now_ms - self.prev_time_ms_);
            // Reset if nothing has been received for more than a full window.
            if now_ms - self.prev_time_ms_ > rate_window_ms {
                self.sum_ = 0;
                self.current_window_ms_ = self.current_window_ms_ % rate_window_ms;
            }
        }
        self.prev_time_ms_ = now_ms;
        let mut sample: Option<WindowSample> = None;
        if self.current_window_ms_ >= rate_window_ms {
            let is_small_sample = self.sum_ < #[verifier::truncate] (self.small_sample_threshold_ as i64);
            sample = Some(WindowSample { sum_bytes: self.sum_, is_small_sample });
            self.current_window_ms_ = self.current_window_ms_ - rate_window_ms;
            self.sum_ = 0;
        }
        self.sum_ = self.sum_ + #[verifier::truncate] (bytes as i64);
        sample
    }
}

} // verus!
