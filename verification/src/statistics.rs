//! Per-frame latency history and stream counters of the server.
//!
//! Times are integers: instants are readings of a monotonic clock in
//! nanoseconds, durations are nanoseconds, and send and arrival timestamps
//! are microseconds of UTC time.
use vstd::prelude::*;
use crate::inter_arrival::fits_i64;

verus! {

/// The largest duration, in nanoseconds, that a `std::time::Duration` holds;
/// clock readings are bounded by it as well.
pub const MAX_DURATION_NANOS: u128 = 18_446_744_073_709_551_615_999_999_999u128;

/// Interval between two full statistics reports, in nanoseconds.
pub const FULL_REPORT_INTERVAL_NANOS: u128 = 500_000_000u128;

/// `a - b`, or zero when `b` exceeds `a`.
pub open spec fn sat_sub(a: u128, b: u128) -> u128 {
    if a > b {
        (a - b) as u128
    } else {
        0
    }
}

fn saturating_sub(a: u128, b: u128) -> (r: u128)
    ensures
        r == sat_sub(a, b),
{
    if a > b {
        a - b
    } else {
        0
    }
}

/// Timing record of one frame, identified by its target timestamp.
#[derive(Clone, Copy, Debug, PartialEq, Eq, Structural)]
pub struct HistoryFrame {
    pub target_timestamp: u128,
    pub tracking_received: u128,
    pub frame_present: u128,
    pub frame_composed: u128,
    pub frame_encoded: u128,
    pub total_pipeline_latency: u128,
    pub frame_send_timestamp: i64,
    pub total_packets_belong: i64,
    pub total_size_for_this_frame: usize,
    pub reported: bool,
    pub last_repeat_game_latency: u128,
    pub save_flag: bool,
}

impl HistoryFrame {
    /// A frame whose tracking was received at `now`; all its stages are
    /// stamped with `now` until they are reported.
    pub open spec fn tracked_at(target_timestamp: u128, now: u128, frame_send_timestamp: i64) -> HistoryFrame {
        HistoryFrame {
            target_timestamp,
            tracking_received: now,
            frame_present: now,
            frame_composed: now,
            frame_encoded: now,
            total_pipeline_latency: 0,
            frame_send_timestamp,
            total_packets_belong: 0,
            total_size_for_this_frame: 0,
            reported: false,
            last_repeat_game_latency: 0,
            save_flag: false,
        }
    }

    /// A frame whose tracking was received at `now`, provisionally sent at
    /// `frame_send_timestamp`.
    pub fn new(target_timestamp: u128, now: u128, frame_send_timestamp: i64) -> (f: HistoryFrame)
        ensures
            f == HistoryFrame::tracked_at(target_timestamp, now, frame_send_timestamp),
    {
        HistoryFrame {
            target_timestamp,
            tracking_received: now,
            frame_present: now,
            frame_composed: now,
            frame_encoded: now,
            total_pipeline_latency: 0,
            frame_send_timestamp,
            total_packets_belong: 0,
            total_size_for_this_frame: 0,
            reported: false,
            last_repeat_game_latency: 0,
            save_flag: false,
        }
    }
}

/// The position of the first frame with the given target timestamp.
pub open spec fn is_first_match(s: Seq<HistoryFrame>, target_timestamp: u128, i: int) -> bool {
    &&& 0 <= i < s.len()
    &&& s[i].target_timestamp == target_timestamp
    &&& forall|j: int| 0 <= j < i ==> s[j].target_timestamp != target_timestamp
}

pub open spec fn has_frame(s: Seq<HistoryFrame>, target_timestamp: u128) -> bool {
    exists|i: int| 0 <= i < s.len() && s[i].target_timestamp == target_timestamp
}

/// Index of the first frame with the given target timestamp, if any.
pub open spec fn find_frame(s: Seq<HistoryFrame>, target_timestamp: u128) -> Option<int> {
    if exists|i: int| is_first_match(s, target_timestamp, i) {
        Some(choose|i: int| is_first_match(s, target_timestamp, i))
    } else {
        None
    }
}

/// The first frame with a target timestamp is the one `find_frame` finds.
pub proof fn lemma_find_first_match(s: Seq<HistoryFrame>, target_timestamp: u128, i: int)
    requires
        is_first_match(s, target_timestamp, i),
    ensures
        find_frame(s, target_timestamp) == Some(i),
{
    let k: int = choose|k: int| is_first_match(s, target_timestamp, k);
    assert(k == i) by {
        if k < i {
            assert(s[k].target_timestamp != target_timestamp);
        } else if k > i {
            assert(s[i].target_timestamp != target_timestamp);
        }
    }
}

/// No two frames share a target timestamp.
pub open spec fn distinct_targets(s: Seq<HistoryFrame>) -> bool {
    forall|i: int, j: int|
        0 <= i < j < s.len() ==> s[i].target_timestamp != s[j].target_timestamp
}

/// The history after tracking for `frame` was received: the frame is put
/// in front unless its target timestamp is known, then the oldest frame is
/// dropped when the history is over its size.
pub open spec fn with_tracking_received(
    s: Seq<HistoryFrame>,
    frame: HistoryFrame,
    max_history_size: usize,
) -> Seq<HistoryFrame> {
    let pushed = if has_frame(s, frame.target_timestamp) {
        s
    } else {
        seq![frame] + s
    };
    if pushed.len() > max_history_size {
        pushed.drop_last()
    } else {
        pushed
    }
}

/// The history after the frame with the given target timestamp, if any,
/// was changed by `f`.
pub open spec fn update_frame(
    s: Seq<HistoryFrame>,
    target_timestamp: u128,
    f: spec_fn(HistoryFrame) -> HistoryFrame,
) -> Seq<HistoryFrame> {
    match find_frame(s, target_timestamp) {
        Some(i) => s.update(i, f(s[i])),
        None => s,
    }
}

fn find_frame_index(buf: &std::collections::VecDeque<HistoryFrame>, target_timestamp: u128) -> (r:
    Option<usize>)
    ensures
        r matches Some(i) ==> find_frame(buf@, target_timestamp) == Some(i as int),
        r is None ==> find_frame(buf@, target_timestamp) is None,
        r is None <==> !has_frame(buf@, target_timestamp),
{
    let len: usize = buf.len();
    let mut i: usize = 0;
    while i < len
        invariant
            len == buf@.len(),
            i <= len,
            forall|j: int| 0 <= j < i ==> buf@[j].target_timestamp != target_timestamp,
        decreases len - i,
    {
        if buf[i].target_timestamp == target_timestamp {
            proof {
                lemma_find_first_match(buf@, target_timestamp, i as int);
            }
            return Some(i);
        }
        i = i + 1;
    }
    assert(!exists|k: int| is_first_match(buf@, target_timestamp, k));
    None
}

fn replace_frame(buf: &mut std::collections::VecDeque<HistoryFrame>, i: usize, frame: HistoryFrame)
    requires
        i < old(buf)@.len(),
    ensures
        final(buf)@ == old(buf)@.update(i as int, frame),
{
    let _ = buf.remove(i);
    buf.insert(i, frame);
    assert(final(buf)@ =~= old(buf)@.update(i as int, frame));
}

/// Everything the manager holds besides its frame history.
#[derive(Clone, Copy, Debug, PartialEq, Eq, Structural)]
pub struct StatisticsScalars {
    pub max_history_size: usize,
    pub last_full_report_instant: u128,
    pub last_frame_present_instant: u128,
    pub last_frame_present_interval: u128,
    pub video_packets_total: usize,
    pub video_packets_partial_sum: usize,
    pub video_bytes_total: usize,
    pub video_bytes_partial_sum: usize,
    pub packets_lost_total: usize,
    pub packets_lost_partial_sum: usize,
    pub steamvr_pipeline_latency: u128,
    pub total_pipeline_latency_average: u128,
    pub last_vsync_time: u128,
    pub frame_interval: u128,
    pub packet_loss_partial_sum: i32,
    pub video_bytes_sended_for_webrtc: usize,
    pub time_instant_for_webrtc: u128,
    pub last_frame_send_timestamp: i64,
    pub last_frame_arrival_timestamp: i64,
    pub first_data_send_timestamp: i64,
}

/// History of recent frames and counters of the video stream.
pub struct StatisticsManager {
    pub history_buffer: std::collections::VecDeque<HistoryFrame>,
    pub max_history_size: usize,
    pub last_full_report_instant: u128,
    pub last_frame_present_instant: u128,
    pub last_frame_present_interval: u128,
    pub video_packets_total: usize,
    pub video_packets_partial_sum: usize,
    pub video_bytes_total: usize,
    pub video_bytes_partial_sum: usize,
    pub packets_lost_total: usize,
    pub packets_lost_partial_sum: usize,
    pub steamvr_pipeline_latency: u128,
    /// Current value of the sliding average of total pipeline latencies;
    /// no operation of the manager submits a sample to it, so it keeps the
    /// value it was created with.
    pub total_pipeline_latency_average: u128,
    pub last_vsync_time: u128,
    pub frame_interval: u128,
    pub packet_loss_partial_sum: i32,
    pub video_bytes_sended_for_webrtc: usize,
    pub time_instant_for_webrtc: u128,
    pub last_frame_send_timestamp: i64,
    pub last_frame_arrival_timestamp: i64,
    pub first_data_send_timestamp: i64,
}

impl StatisticsManager {
    pub open spec fn scalars(&self) -> StatisticsScalars {
        StatisticsScalars {
            max_history_size: self.max_history_size,
            last_full_report_instant: self.last_full_report_instant,
            last_frame_present_instant: self.last_frame_present_instant,
            last_frame_present_interval: self.last_frame_present_interval,
            video_packets_total: self.video_packets_total,
            video_packets_partial_sum: self.video_packets_partial_sum,
            video_bytes_total: self.video_bytes_total,
            video_bytes_partial_sum: self.video_bytes_partial_sum,
            packets_lost_total: self.packets_lost_total,
            packets_lost_partial_sum: self.packets_lost_partial_sum,
            steamvr_pipeline_latency: self.steamvr_pipeline_latency,
            total_pipeline_latency_average: self.total_pipeline_latency_average,
            last_vsync_time: self.last_vsync_time,
            frame_interval: self.frame_interval,
            packet_loss_partial_sum: self.packet_loss_partial_sum,
            video_bytes_sended_for_webrtc: self.video_bytes_sended_for_webrtc,
            time_instant_for_webrtc: self.time_instant_for_webrtc,
            last_frame_send_timestamp: self.last_frame_send_timestamp,
            last_frame_arrival_timestamp: self.last_frame_arrival_timestamp,
            first_data_send_timestamp: self.first_data_send_timestamp,
        }
    }

    /// The history is within its size and holds each target timestamp at
    /// most once; the counts since the last full report never exceed the
    /// totals.
    pub open spec fn wf(&self) -> bool {
        &&& self.history_buffer@.len() <= self.max_history_size
        &&& distinct_targets(self.history_buffer@)
        &&& self.video_packets_partial_sum <= self.video_packets_total
        &&& self.video_bytes_partial_sum <= self.video_bytes_total
        &&& self.packets_lost_partial_sum <= self.packets_lost_total
    }

    /// A manager that keeps at most `max_history_size` frames, created at
    /// `now`. `steamvr_pipeline_latency` is the latency of the nominal
    /// number of frames in the SteamVR pipeline.
    pub fn new(
        max_history_size: usize,
        nominal_server_frame_interval: u128,
        steamvr_pipeline_latency: u128,
        now: u128,
    ) -> (r: Self)
        ensures
            r.wf(),
            r.history_buffer@ == Seq::<HistoryFrame>::empty(),
            r.scalars() == (StatisticsScalars {
                max_history_size,
                last_full_report_instant: now,
                last_frame_present_instant: now,
                last_frame_present_interval: 0,
                video_packets_total: 0,
                video_packets_partial_sum: 0,
                video_bytes_total: 0,
                video_bytes_partial_sum: 0,
                packets_lost_total: 0,
                packets_lost_partial_sum: 0,
                steamvr_pipeline_latency,
                total_pipeline_latency_average: 0,
                last_vsync_time: now,
                frame_interval: nominal_server_frame_interval,
                packet_loss_partial_sum: 0,
                video_bytes_sended_for_webrtc: 0,
                time_instant_for_webrtc: now,
                last_frame_send_timestamp: 0,
                last_frame_arrival_timestamp: 0,
                first_data_send_timestamp: -1i64,
            }),
    {
        StatisticsManager {
            history_buffer: std::collections::VecDeque::new(),
            max_history_size,
            last_full_report_instant: now,
            last_frame_present_instant: now,
            last_frame_present_interval: 0,
            video_packets_total: 0,
            video_packets_partial_sum: 0,
            video_bytes_total: 0,
            video_bytes_partial_sum: 0,
            packets_lost_total: 0,
            packets_lost_partial_sum: 0,
            steamvr_pipeline_latency,
            total_pipeline_latency_average: 0,
            last_vsync_time: now,
            frame_interval: nominal_server_frame_interval,
            packet_loss_partial_sum: 0,
            video_bytes_sended_for_webrtc: 0,
            time_instant_for_webrtc: now,
            last_frame_send_timestamp: 0,
            last_frame_arrival_timestamp: 0,
            first_data_send_timestamp: -1,
        }
    }

    /// Records that tracking for `target_timestamp` was received at `now`,
    /// with `frame_send_timestamp` (the UTC clock read by the caller) as the
    /// frame's provisional send time. A known target timestamp leaves the
    /// history as it is; the value is then not used.
    pub fn report_tracking_received(
        &mut self,
        target_timestamp: u128,
        now: u128,
        frame_send_timestamp: i64,
    )
        requires
            old(self).wf(),
        ensures
            final(self).wf(),
            final(self).scalars() == old(self).scalars(),
            final(self).history_buffer@ == with_tracking_received(
                old(self).history_buffer@,
                HistoryFrame::tracked_at(target_timestamp, now, frame_send_timestamp),
                old(self).max_history_size,
            ),
            // A target timestamp already in the history changes nothing.
            (exists|i: int|
                0 <= i < old(self).history_buffer@.len()
                    && #[trigger] old(self).history_buffer@[i].target_timestamp == target_timestamp)
                ==> final(self).history_buffer@ == old(self).history_buffer@,
            // A new one goes in front of the frames kept so far, stamped with
            // `now`; the oldest frame drops out when the history is over its
            // size.
            (forall|i: int|
                0 <= i < old(self).history_buffer@.len()
                    ==> #[trigger] old(self).history_buffer@[i].target_timestamp != target_timestamp)
                && old(self).max_history_size >= 1 ==> {
                &&& final(self).history_buffer@.len() == if old(self).history_buffer@.len()
                    < old(self).max_history_size {
                    old(self).history_buffer@.len() + 1int
                } else {
                    old(self).max_history_size as int
                }
                &&& final(self).history_buffer@[0].target_timestamp == target_timestamp
                &&& final(self).history_buffer@[0].tracking_received == now
                &&& final(self).history_buffer@[0].frame_present == now
                &&& final(self).history_buffer@[0].frame_send_timestamp == frame_send_timestamp
                &&& !final(self).history_buffer@[0].reported
                &&& forall|i: int|
                    0 < i < final(self).history_buffer@.len()
                        ==> #[trigger] final(self).history_buffer@[i] == old(self).history_buffer@[i
                        - 1]
            },
    {
        let ghost s = self.history_buffer@;
        let frame = HistoryFrame::new(target_timestamp, now, frame_send_timestamp);
        let found = find_frame_index(&self.history_buffer, target_timestamp);
        if found.is_none() {
            self.history_buffer.push_front(frame);
            assert(distinct_targets(self.history_buffer@)) by {
                assert forall|i: int, j: int|
                    0 <= i < j < self.history_buffer@.len() implies self.history_buffer@[i].target_timestamp
                    != self.history_buffer@[j].target_timestamp by {
                    if i == 0 {
                        assert(self.history_buffer@[j] == s[j - 1]);
                    } else {
                        assert(self.history_buffer@[i] == s[i - 1]);
                        assert(self.history_buffer@[j] == s[j - 1]);
                    }
                }
            }
        }
        let ghost pushed = self.history_buffer@;
        if self.history_buffer.len() > self.max_history_size {
            let _ = self.history_buffer.pop_back();
            assert(self.history_buffer@ =~= pushed.drop_last());
        }
    }
}


/// Number of whole frame intervals by which the last vsync is advanced so
/// that the vsync after it is not before `now`.
pub open spec fn vsync_periods_elapsed(last_vsync: u128, frame_interval: u128, now: u128) -> int {
    if now > last_vsync + frame_interval {
        (now - last_vsync - 1) / (frame_interval as int)
    } else {
        0
    }
}

/// The first vsync, on the grid of `last_vsync` plus multiples of the frame
/// interval, that comes after `last_vsync` and is not before `now`.
pub open spec fn next_vsync(last_vsync: u128, frame_interval: u128, now: u128) -> int {
    last_vsync + (vsync_periods_elapsed(last_vsync, frame_interval, now) + 1) * frame_interval
}

proof fn lemma_vsync_periods(last_vsync: u128, frame_interval: u128, now: u128)
    requires
        frame_interval > 0,
    ensures
        0 <= vsync_periods_elapsed(last_vsync, frame_interval, now),
        vsync_periods_elapsed(last_vsync, frame_interval, now) * frame_interval + last_vsync < now
            || vsync_periods_elapsed(last_vsync, frame_interval, now) == 0,
        next_vsync(last_vsync, frame_interval, now) >= now,
        now > last_vsync + frame_interval ==> next_vsync(last_vsync, frame_interval, now) < now
            + frame_interval,
{
    let k: int = vsync_periods_elapsed(last_vsync, frame_interval, now);
    let i: int = frame_interval as int;
    if now > last_vsync + frame_interval {
        let d: int = now - last_vsync - 1;
        assert(d >= 0);
        assert(0 <= d / i) by (nonlinear_arith)
            requires
                d >= 0,
                i > 0,
        ;
        assert(d / i * i <= d && d < (d / i + 1) * i) by (nonlinear_arith)
            requires
                d >= 0,
                i > 0,
        ;
        assert(k == d / i);
        assert((k + 1) * i == k * i + i) by (nonlinear_arith);
    }
}

proof fn lemma_step_within_periods(j: int, k: int, i: int, d: int)
    requires
        i > 0,
        j >= 0,
        d >= 1,
        k == (d - 1) / i,
        (j + 1) * i < d,
    ensures
        j + 1 <= k,
{
    assert(j + 1 <= (d - 1) / i) by (nonlinear_arith)
        requires
            i > 0,
            j >= 0,
            (j + 1) * i <= d - 1,
    ;
}

proof fn lemma_mul_mono(a: int, b: int, i: int)
    requires
        0 <= a <= b,
        i >= 0,
    ensures
        a * i <= b * i,
{
    assert(a * i <= b * i) by (nonlinear_arith)
        requires
            0 <= a <= b,
            i >= 0,
    ;
}

impl StatisticsManager {
    /// Records that the frame for `target_timestamp` was presented `offset`
    /// before `now`, and the interval since the previous presentation.
    pub fn report_frame_present(&mut self, target_timestamp: u128, offset: u128, now: u128)
        requires
            old(self).wf(),
            has_frame(old(self).history_buffer@, target_timestamp) ==> offset <= now,
        ensures
            final(self).wf(),
            find_frame(old(self).history_buffer@, target_timestamp) matches Some(i) ==> {
                let present: u128 = (now - offset) as u128;
                &&& final(self).history_buffer@ == old(self).history_buffer@.update(
                    i,
                    HistoryFrame { frame_present: present, ..old(self).history_buffer@[i] },
                )
                &&& final(self).scalars() == (StatisticsScalars {
                    last_frame_present_interval: sat_sub(
                        present,
                        old(self).last_frame_present_instant,
                    ),
                    last_frame_present_instant: present,
                    ..old(self).scalars()
                })
            },
            find_frame(old(self).history_buffer@, target_timestamp) is None ==> {
                &&& final(self).history_buffer@ == old(self).history_buffer@
                &&& final(self).scalars() == old(self).scalars()
            },
    {
        if let Some(i) = find_frame_index(&self.history_buffer, target_timestamp) {
            let now_presented: u128 = now - offset;
            self.last_frame_present_interval = saturating_sub(
                now_presented,
                self.last_frame_present_instant,
            );
            self.last_frame_present_instant = now_presented;
            let frame = HistoryFrame { frame_present: now_presented, ..self.history_buffer[i] };
            replace_frame(&mut self.history_buffer, i, frame);
        }
    }

    /// Records that the frame for `target_timestamp` was composed `offset`
    /// before `now`.
    pub fn report_frame_composed(&mut self, target_timestamp: u128, offset: u128, now: u128)
        requires
            old(self).wf(),
            has_frame(old(self).history_buffer@, target_timestamp) ==> offset <= now,
        ensures
            final(self).wf(),
            final(self).scalars() == old(self).scalars(),
            find_frame(old(self).history_buffer@, target_timestamp) matches Some(i)
                ==> final(self).history_buffer@ == old(self).history_buffer@.update(
                i,
                HistoryFrame {
                    frame_composed: (now - offset) as u128,
                    ..old(self).history_buffer@[i]
                },
            ),
            find_frame(old(self).history_buffer@, target_timestamp) is None
                ==> final(self).history_buffer@ == old(self).history_buffer@,
    {
        if let Some(i) = find_frame_index(&self.history_buffer, target_timestamp) {
            let frame = HistoryFrame { frame_composed: now - offset, ..self.history_buffer[i] };
            replace_frame(&mut self.history_buffer, i, frame);
        }
    }

    /// Records that the frame for `target_timestamp` was encoded at `now`.
    pub fn report_frame_encoded(&mut self, target_timestamp: u128, now: u128)
        requires
            old(self).wf(),
        ensures
            final(self).wf(),
            final(self).scalars() == old(self).scalars(),
            find_frame(old(self).history_buffer@, target_timestamp) matches Some(i)
                ==> final(self).history_buffer@ == old(self).history_buffer@.update(
                i,
                HistoryFrame { frame_encoded: now, ..old(self).history_buffer@[i] },
            ),
            find_frame(old(self).history_buffer@, target_timestamp) is None
                ==> final(self).history_buffer@ == old(self).history_buffer@,
    {
        if let Some(i) = find_frame_index(&self.history_buffer, target_timestamp) {
            let frame = HistoryFrame { frame_encoded: now, ..self.history_buffer[i] };
            replace_frame(&mut self.history_buffer, i, frame);
        }
    }

    /// Marks the frame for `target_timestamp` as saved.
    pub fn report_save(&mut self, target_timestamp: u128)
        requires
            old(self).wf(),
        ensures
            final(self).wf(),
            final(self).scalars() == old(self).scalars(),
            find_frame(old(self).history_buffer@, target_timestamp) matches Some(i)
                ==> final(self).history_buffer@ == old(self).history_buffer@.update(
                i,
                HistoryFrame { save_flag: true, ..old(self).history_buffer@[i] },
            ),
            find_frame(old(self).history_buffer@, target_timestamp) is None
                ==> final(self).history_buffer@ == old(self).history_buffer@,
    {
        if let Some(i) = find_frame_index(&self.history_buffer, target_timestamp) {
            let frame = HistoryFrame { save_flag: true, ..self.history_buffer[i] };
            replace_frame(&mut self.history_buffer, i, frame);
        }
    }

    /// Counts a video packet of `bytes_count` bytes; the frame for
    /// `target_timestamp` counts one more packet and takes `bytes_count` as
    /// its size.
    pub fn report_video_packet(&mut self, bytes_count: usize, target_timestamp: u128)
        requires
            old(self).wf(),
            old(self).video_packets_total < usize::MAX,
            old(self).video_bytes_total + bytes_count <= usize::MAX,
            old(self).video_bytes_sended_for_webrtc + bytes_count <= usize::MAX,
            find_frame(old(self).history_buffer@, target_timestamp) matches Some(i)
                ==> old(self).history_buffer@[i].total_packets_belong < i64::MAX,
        ensures
            final(self).wf(),
            final(self).scalars() == (StatisticsScalars {
                video_packets_total: (old(self).video_packets_total + 1) as usize,
                video_packets_partial_sum: (old(self).video_packets_partial_sum + 1) as usize,
                video_bytes_total: (old(self).video_bytes_total + bytes_count) as usize,
                video_bytes_partial_sum: (old(self).video_bytes_partial_sum
                    + bytes_count) as usize,
                video_bytes_sended_for_webrtc: (old(self).video_bytes_sended_for_webrtc
                    + bytes_count) as usize,
                ..old(self).scalars()
            }),
            find_frame(old(self).history_buffer@, target_timestamp) matches Some(i)
                ==> final(self).history_buffer@ == old(self).history_buffer@.update(
                i,
                HistoryFrame {
                    total_packets_belong: (old(self).history_buffer@[i].total_packets_belong
                        + 1) as i64,
                    total_size_for_this_frame: bytes_count,
                    ..old(self).history_buffer@[i]
                },
            ),
            find_frame(old(self).history_buffer@, target_timestamp) is None
                ==> final(self).history_buffer@ == old(self).history_buffer@,
    {
        self.video_packets_total = self.video_packets_total + 1;
        self.video_packets_partial_sum = self.video_packets_partial_sum + 1;
        self.video_bytes_total = self.video_bytes_total + bytes_count;
        self.video_bytes_partial_sum = self.video_bytes_partial_sum + bytes_count;
        self.video_bytes_sended_for_webrtc = self.video_bytes_sended_for_webrtc + bytes_count;
        if let Some(i) = find_frame_index(&self.history_buffer, target_timestamp) {
            let old_frame = self.history_buffer[i];
            let frame = HistoryFrame {
                total_packets_belong: old_frame.total_packets_belong + 1,
                total_size_for_this_frame: bytes_count,
                ..old_frame
            };
            replace_frame(&mut self.history_buffer, i, frame);
        }
    }

    /// Stamps the frame for `target_timestamp`, if it is known, with the send
    /// time `send_timestamp_us` (the UTC clock read by the caller).
    pub fn report_send_timestamp(&mut self, target_timestamp: u128, send_timestamp_us: i64)
        requires
            old(self).wf(),
        ensures
            final(self).wf(),
            final(self).scalars() == old(self).scalars(),
            find_frame(old(self).history_buffer@, target_timestamp) matches Some(i)
                ==> final(self).history_buffer@ == old(self).history_buffer@.update(
                i,
                HistoryFrame {
                    frame_send_timestamp: send_timestamp_us,
                    ..old(self).history_buffer@[i]
                },
            ),
            find_frame(old(self).history_buffer@, target_timestamp) is None
                ==> final(self).history_buffer@ == old(self).history_buffer@,
    {
        if let Some(i) = find_frame_index(&self.history_buffer, target_timestamp) {
            let frame = HistoryFrame {
                frame_send_timestamp: send_timestamp_us,
                ..self.history_buffer[i]
            };
            replace_frame(&mut self.history_buffer, i, frame);
        }
    }

    /// Counts a lost packet.
    pub fn report_packet_loss(&mut self)
        requires
            old(self).wf(),
            old(self).packets_lost_total < usize::MAX,
        ensures
            final(self).wf(),
            final(self).history_buffer@ == old(self).history_buffer@,
            final(self).scalars() == (StatisticsScalars {
                packets_lost_total: (old(self).packets_lost_total + 1) as usize,
                packets_lost_partial_sum: (old(self).packets_lost_partial_sum + 1) as usize,
                ..old(self).scalars()
            }),
    {
        self.packets_lost_total = self.packets_lost_total + 1;
        self.packets_lost_partial_sum = self.packets_lost_partial_sum + 1;
    }

    /// How far ahead of the measured pipeline latency the SteamVR pipeline
    /// runs; zero when the measured latency is the larger.
    pub fn tracker_pose_time_offset(&self) -> (offset: u128)
        ensures
            offset == sat_sub(self.steamvr_pipeline_latency, self.total_pipeline_latency_average),
    {
        saturating_sub(self.steamvr_pipeline_latency, self.total_pipeline_latency_average)
    }

    /// Advances the last vsync by whole frame intervals until the next vsync
    /// is not before `now`, and returns the time from `now` to that vsync.
    pub fn duration_until_next_vsync(&mut self, now: u128) -> (wait: u128)
        requires
            old(self).frame_interval > 0,
            next_vsync(old(self).last_vsync_time, old(self).frame_interval, now)
                <= MAX_DURATION_NANOS,
        ensures
            final(self).history_buffer@ == old(self).history_buffer@,
            final(self).scalars() == (StatisticsScalars {
                last_vsync_time: (old(self).last_vsync_time + vsync_periods_elapsed(
                    old(self).last_vsync_time,
                    old(self).frame_interval,
                    now,
                ) * old(self).frame_interval) as u128,
                ..old(self).scalars()
            }),
            wait == next_vsync(old(self).last_vsync_time, old(self).frame_interval, now) - now,
            // The wait never exceeds one frame interval once the last vsync
            // is not in the future.
            old(self).last_vsync_time <= now ==> wait <= old(self).frame_interval,
            // The last vsync moves forward by whole frame intervals, and only
            // while it and the vsync after it lie before `now`; the wait is
            // the time from `now` to the vsync after it.
            final(self).last_vsync_time >= old(self).last_vsync_time,
            (final(self).last_vsync_time - old(self).last_vsync_time) % (old(
                self,
            ).frame_interval as int) == 0,
            final(self).last_vsync_time + old(self).frame_interval >= now,
            final(self).last_vsync_time > old(self).last_vsync_time
                ==> final(self).last_vsync_time < now,
            wait == final(self).last_vsync_time + old(self).frame_interval - now,
    {
        let ghost old_last: int = self.last_vsync_time as int;
        let interval: u128 = self.frame_interval;
        let ghost k: int = vsync_periods_elapsed(self.last_vsync_time, interval, now);
        proof {
            lemma_vsync_periods(self.last_vsync_time, interval, now);
            lemma_mul_mono(0, k + 1, interval as int);
            lemma_mul_mono(1, k + 1, interval as int);
        }
        let mut last: u128 = self.last_vsync_time;
        let ghost mut j: int = 0;
        // update the last vsync if it's too old
        while last + interval < now
            invariant
                interval > 0,
                interval == old(self).frame_interval,
                k == vsync_periods_elapsed(old_last as u128, interval, now),
                old_last == old(self).last_vsync_time,
                old_last + (k + 1) * interval <= MAX_DURATION_NANOS,
                0 <= j <= k,
                last == old_last + j * interval,
                last + interval <= MAX_DURATION_NANOS,
            decreases now - last,
        {
            proof {
                assert((j + 1) * interval == j * interval + interval) by (nonlinear_arith);
                assert(now > old_last + interval) by {
                    lemma_mul_mono(0, j, interval as int);
                }
                lemma_step_within_periods(j, k, interval as int, now - old_last);
                lemma_mul_mono(j + 2, k + 1, interval as int);
                assert((j + 2) * interval == (j + 1) * interval + interval) by (nonlinear_arith);
                j = j + 1;
            }
            last = last + interval;
        }
        proof {
            if j < k {
                let d: int = now - old_last;
                assert(k * interval <= d - 1) by (nonlinear_arith)
                    requires
                        interval > 0,
                        d - 1 >= 0,
                        k == (d - 1) / (interval as int),
                ;
                lemma_mul_mono(j + 1, k, interval as int);
                assert((j + 1) * interval == j * interval + interval) by (nonlinear_arith);
                assert(false);
            }
            assert((k + 1) * interval == k * interval + interval) by (nonlinear_arith);
            vstd::arithmetic::div_mod::lemma_mod_multiples_basic(k, interval as int);
            if k > 0 {
                assert((k - 1) * interval + interval == k * interval) by (nonlinear_arith);
                lemma_mul_mono(k - 1, k, interval as int);
                assert(old_last + (k - 1) * interval + interval < now) by {
                    let d: int = now - old_last;
                    assert(k * interval <= d - 1) by (nonlinear_arith)
                        requires
                            interval > 0,
                            d - 1 >= 0,
                            k == (d - 1) / (interval as int),
                    ;
                }
                lemma_mul_mono(1, k, interval as int);
            }
        }
        self.last_vsync_time = last;
        saturating_sub(last + interval, now)
    }
}


/// The timings that the client reports for one frame.
#[derive(Clone, Copy, Debug, PartialEq, Eq, Structural)]
pub struct ClientTimings {
    pub target_timestamp: u128,
    pub total_pipeline_latency: u128,
    pub video_decode: u128,
    pub video_decoder_queue: u128,
    pub rendering: u128,
    pub vsync_queue: u128,
    /// Arrival time of the frame at the client, in microseconds of UTC time.
    pub frame_arrival_timestamp: i64,
}

/// The stream counters at a full report, taken before the counts since the
/// previous full report are cleared.
#[derive(Clone, Copy, Debug, PartialEq, Eq, Structural)]
pub struct FullReport {
    pub video_packets_total: usize,
    pub video_packets_partial_sum: usize,
    pub video_bytes_total: usize,
    pub video_bytes_partial_sum: usize,
    pub packets_lost_total: usize,
    pub packets_lost_partial_sum: usize,
    /// Bytes per packet since the previous full report, when a packet was sent.
    pub average_packet_size: Option<usize>,
}

/// Send and arrival time differences between two reported frames, in microseconds.
#[derive(Clone, Copy, Debug, PartialEq, Eq, Structural)]
pub struct TimestampDeltas {
    pub send_delta_us: i64,
    pub recv_delta_us: i64,
}

/// What one client report yields for its frame.
#[derive(Clone, Copy, Debug, PartialEq, Eq, Structural)]
pub struct FrameStatistics {
    /// The frame as it is kept after the report.
    pub frame: HistoryFrame,
    /// Time from tracking to presentation, less what earlier reports of the
    /// same frame already accounted for.
    pub game_time_latency: u128,
    pub server_compositor_latency: u128,
    pub encoder_latency: u128,
    /// What is left of the total pipeline latency after all other stages.
    pub network_latency: u128,
    /// Send and arrival time differences, in microseconds, to the previously
    /// reported frame, when there is one.
    pub send_recv_deltas_us: Option<TimestampDeltas>,
    /// The counters, when a full report was due.
    pub full_report: Option<FullReport>,
}

impl HistoryFrame {
    pub open spec fn game_time_latency(self) -> u128 {
        sat_sub(self.frame_present, self.tracking_received)
    }

    pub open spec fn server_compositor_latency(self) -> u128 {
        sat_sub(self.frame_composed, self.frame_present)
    }

    pub open spec fn encoder_latency(self) -> u128 {
        sat_sub(self.frame_encoded, self.frame_composed)
    }

    /// Sum of all stage latencies of the frame but the network.
    pub open spec fn stages_latency(self, client: ClientTimings) -> int {
        self.game_time_latency() + self.server_compositor_latency() + self.encoder_latency()
            + client.video_decode + client.video_decoder_queue + client.rendering
            + client.vsync_queue
    }

    pub open spec fn network_latency(self, client: ClientTimings) -> u128 {
        sat_sub(client.total_pipeline_latency, self.stages_latency(client) as u128)
    }

    /// Game time latency of this report: a frame reported again only counts
    /// what its earlier reports did not.
    pub open spec fn repeat_game_latency(self) -> u128 {
        if self.reported {
            sat_sub(self.game_time_latency(), self.last_repeat_game_latency)
        } else {
            self.game_time_latency()
        }
    }

    /// The frame after the client reported it.
    pub open spec fn after_report(self, client: ClientTimings) -> HistoryFrame {
        HistoryFrame {
            total_pipeline_latency: if self.reported {
                sat_sub(client.total_pipeline_latency, self.last_repeat_game_latency)
            } else {
                client.total_pipeline_latency
            },
            reported: true,
            last_repeat_game_latency: (self.last_repeat_game_latency
                + self.repeat_game_latency()) as u128,
            ..self
        }
    }
}

impl StatisticsManager {
    /// A full report is due once a whole report interval has passed since the last one.
    pub open spec fn full_report_due(&self, now: u128) -> bool {
        self.last_full_report_instant + FULL_REPORT_INTERVAL_NANOS < now
    }

    pub open spec fn full_report(&self) -> FullReport {
        FullReport {
            video_packets_total: self.video_packets_total,
            video_packets_partial_sum: self.video_packets_partial_sum,
            video_bytes_total: self.video_bytes_total,
            video_bytes_partial_sum: self.video_bytes_partial_sum,
            packets_lost_total: self.packets_lost_total,
            packets_lost_partial_sum: self.packets_lost_partial_sum,
            average_packet_size: if self.video_packets_partial_sum != 0 {
                Some((self.video_bytes_partial_sum / self.video_packets_partial_sum) as usize)
            } else {
                None
            },
        }
    }

    /// The counters after the client reported `frame` at `now`.
    pub open spec fn scalars_after_report(
        &self,
        frame: HistoryFrame,
        client: ClientTimings,
        now: u128,
    ) -> StatisticsScalars {
        let s = StatisticsScalars {
            first_data_send_timestamp: if self.first_data_send_timestamp == -1 {
                frame.frame_send_timestamp
            } else {
                self.first_data_send_timestamp
            },
            last_frame_send_timestamp: frame.frame_send_timestamp,
            last_frame_arrival_timestamp: client.frame_arrival_timestamp,
            video_bytes_sended_for_webrtc: 0,
            time_instant_for_webrtc: now,
            ..self.scalars()
        };
        if self.full_report_due(now) {
            StatisticsScalars {
                last_full_report_instant: (self.last_full_report_instant
                    + FULL_REPORT_INTERVAL_NANOS) as u128,
                video_packets_partial_sum: 0,
                video_bytes_partial_sum: 0,
                packets_lost_partial_sum: 0,
                packet_loss_partial_sum: 0,
                ..s
            }
        } else {
            s
        }
    }

    /// The arithmetic of a client report on `frame` stays within range.
    pub open spec fn report_defined(&self, frame: HistoryFrame, client: ClientTimings) -> bool {
        &&& self.last_frame_send_timestamp != 0 ==> {
            &&& fits_i64(frame.frame_send_timestamp - self.last_frame_send_timestamp)
            &&& fits_i64(client.frame_arrival_timestamp - self.last_frame_arrival_timestamp)
        }
        &&& frame.stages_latency(client) <= MAX_DURATION_NANOS
        &&& self.last_full_report_instant + FULL_REPORT_INTERVAL_NANOS <= MAX_DURATION_NANOS
        &&& frame.last_repeat_game_latency + frame.repeat_game_latency() <= MAX_DURATION_NANOS
    }

    /// Takes in the client's report of a frame received at `now`. For a known
    /// frame, returns its stage latencies and, when one is due, a full report
    /// of the counters; `None` when the frame is not in the history.
    pub fn report_statistics(&mut self, client: ClientTimings, now: u128) -> (r: Option<
        FrameStatistics,
    >)
        requires
            old(self).wf(),
            find_frame(old(self).history_buffer@, client.target_timestamp) matches Some(i)
                ==> old(self).report_defined(old(self).history_buffer@[i], client),
        ensures
            final(self).wf(),
            find_frame(old(self).history_buffer@, client.target_timestamp) matches Some(i) ==> {
                let f = old(self).history_buffer@[i];
                &&& final(self).history_buffer@ == old(self).history_buffer@.update(
                    i,
                    f.after_report(client),
                )
                &&& final(self).scalars() == old(self).scalars_after_report(f, client, now)
                &&& r == Some(
                    FrameStatistics {
                        frame: f.after_report(client),
                        game_time_latency: f.repeat_game_latency(),
                        server_compositor_latency: f.server_compositor_latency(),
                        encoder_latency: f.encoder_latency(),
                        network_latency: f.network_latency(client),
                        send_recv_deltas_us: if old(self).last_frame_send_timestamp != 0 {
                            Some(
                                TimestampDeltas {
                                    send_delta_us: (f.frame_send_timestamp
                                        - old(self).last_frame_send_timestamp) as i64,
                                    recv_delta_us: (client.frame_arrival_timestamp
                                        - old(self).last_frame_arrival_timestamp) as i64,
                                },
                            )
                        } else {
                            None
                        },
                        full_report: if old(self).full_report_due(now) {
                            Some(old(self).full_report())
                        } else {
                            None
                        },
                    },
                )
            },
            find_frame(old(self).history_buffer@, client.target_timestamp) is None ==> {
                &&& r is None
                &&& final(self).history_buffer@ == old(self).history_buffer@
                &&& final(self).scalars() == old(self).scalars()
            },
            // The network latency is a share of the total pipeline latency.
            r matches Some(st) ==> st.network_latency <= client.total_pipeline_latency,
            // The report is about the frame with the client's target timestamp,
            // and its stage latencies are the time between the frame's stamps.
            // The network latency is what the total pipeline latency leaves
            // after the whole time from tracking to presentation, on every
            // report of the frame, first or repeated, and after all other stages.
            r matches Some(st) ==> {
                let game: int = if st.frame.frame_present > st.frame.tracking_received {
                    st.frame.frame_present - st.frame.tracking_received
                } else {
                    0
                };
                let stages: int = game + st.server_compositor_latency + st.encoder_latency
                    + client.video_decode + client.video_decoder_queue + client.rendering
                    + client.vsync_queue;
                &&& st.frame.target_timestamp == client.target_timestamp
                &&& st.server_compositor_latency == if st.frame.frame_composed
                    > st.frame.frame_present {
                    st.frame.frame_composed - st.frame.frame_present
                } else {
                    0
                }
                &&& st.encoder_latency == if st.frame.frame_encoded > st.frame.frame_composed {
                    st.frame.frame_encoded - st.frame.frame_composed
                } else {
                    0
                }
                &&& st.network_latency == if client.total_pipeline_latency > stages {
                    client.total_pipeline_latency - stages
                } else {
                    0
                }
            },
            // A full report hands out the counters as they were before it: the
            // totals, and the counts accumulated since the previous full
            // report; those counts then start again from zero, while without
            // a full report they are kept.
            r matches Some(st) ==> match st.full_report {
                Some(full) => {
                    &&& full.video_packets_total == old(self).video_packets_total
                    &&& full.video_packets_partial_sum == old(self).video_packets_partial_sum
                    &&& full.video_bytes_total == old(self).video_bytes_total
                    &&& full.video_bytes_partial_sum == old(self).video_bytes_partial_sum
                    &&& full.packets_lost_total == old(self).packets_lost_total
                    &&& full.packets_lost_partial_sum == old(self).packets_lost_partial_sum
                    &&& full.average_packet_size == if old(self).video_packets_partial_sum == 0 {
                        None
                    } else {
                        Some(
                            (old(self).video_bytes_partial_sum
                                / old(self).video_packets_partial_sum) as usize,
                        )
                    }
                    &&& final(self).video_packets_partial_sum == 0
                    &&& final(self).video_bytes_partial_sum == 0
                    &&& final(self).packets_lost_partial_sum == 0
                },
                None => {
                    &&& final(self).video_packets_partial_sum == old(
                        self,
                    ).video_packets_partial_sum
                    &&& final(self).video_bytes_partial_sum == old(self).video_bytes_partial_sum
                    &&& final(self).packets_lost_partial_sum == old(self).packets_lost_partial_sum
                },
            },
            final(self).video_packets_total == old(self).video_packets_total,
            final(self).video_bytes_total == old(self).video_bytes_total,
            final(self).packets_lost_total == old(self).packets_lost_total,
    {
        let found = find_frame_index(&self.history_buffer, client.target_timestamp);
        let i: usize = match found {
            Some(i) => i,
            None => {
                return None;
            },
        };
        let mut frame = self.history_buffer[i];
        if self.first_data_send_timestamp == -1 {
            self.first_data_send_timestamp = frame.frame_send_timestamp;
        }
        let mut send_recv_deltas_us: Option<TimestampDeltas> = None;
        if self.last_frame_send_timestamp != 0 {
            send_recv_deltas_us = Some(
                TimestampDeltas {
                    send_delta_us: frame.frame_send_timestamp - self.last_frame_send_timestamp,
                    recv_delta_us: client.frame_arrival_timestamp
                        - self.last_frame_arrival_timestamp,
                },
            );
        }
        self.last_frame_send_timestamp = frame.frame_send_timestamp;
        self.last_frame_arrival_timestamp = client.frame_arrival_timestamp;
        self.video_bytes_sended_for_webrtc = 0;
        self.time_instant_for_webrtc = now;

        frame.total_pipeline_latency = client.total_pipeline_latency;
        let mut game_time_latency: u128 = saturating_sub(frame.frame_present, frame.tracking_received);
        let server_compositor_latency: u128 = saturating_sub(frame.frame_composed, frame.frame_present);
        let encoder_latency: u128 = saturating_sub(frame.frame_encoded, frame.frame_composed);

        // The network latency cannot be estimated directly: it is what is
        // left of the total latency after all other latency intervals.
        let network_latency: u128 = saturating_sub(
            frame.total_pipeline_latency,
            game_time_latency + server_compositor_latency + encoder_latency + client.video_decode
                + client.video_decoder_queue + client.rendering + client.vsync_queue,
        );

        let mut full_report: Option<FullReport> = None;
        if self.last_full_report_instant + FULL_REPORT_INTERVAL_NANOS < now {
            self.last_full_report_instant = self.last_full_report_instant
                + FULL_REPORT_INTERVAL_NANOS;
            let average_packet_size = if self.video_packets_partial_sum != 0 {
                Some(self.video_bytes_partial_sum / self.video_packets_partial_sum)
            } else {
                None
            };
            full_report = Some(
                FullReport {
                    video_packets_total: self.video_packets_total,
                    video_packets_partial_sum: self.video_packets_partial_sum,
                    video_bytes_total: self.video_bytes_total,
                    video_bytes_partial_sum: self.video_bytes_partial_sum,
                    packets_lost_total: self.packets_lost_total,
                    packets_lost_partial_sum: self.packets_lost_partial_sum,
                    average_packet_size,
                },
            );
            self.video_packets_partial_sum = 0;
            self.video_bytes_partial_sum = 0;
            self.packets_lost_partial_sum = 0;
            self.packet_loss_partial_sum = 0;
        }

        // A frame reported again only accounts for what was not reported before.
        if frame.reported {
            game_time_latency = saturating_sub(game_time_latency, frame.last_repeat_game_latency);
            frame.total_pipeline_latency = saturating_sub(
                frame.total_pipeline_latency,
                frame.last_repeat_game_latency,
            );
        }
        frame.reported = true;
        frame.last_repeat_game_latency = frame.last_repeat_game_latency + game_time_latency;
        replace_frame(&mut self.history_buffer, i, frame);

        Some(
            FrameStatistics {
                frame,
                game_time_latency,
                server_compositor_latency,
                encoder_latency,
                network_latency,
                send_recv_deltas_us,
                full_report,
            },
        )
    }
}


/// Reporting tracking for a target timestamp that the history already holds
/// leaves the history as it is.
pub proof fn lemma_tracking_received_idempotent(
    s: Seq<HistoryFrame>,
    frame: HistoryFrame,
    max_history_size: usize,
)
    requires
        s.len() <= max_history_size,
        has_frame(s, frame.target_timestamp),
    ensures
        with_tracking_received(s, frame, max_history_size) == s,
{
}

/// After tracking for a frame was reported, the history holds a frame with
/// its target timestamp, unless the history keeps no frames at all; a new
/// frame is the first one.
pub proof fn lemma_tracking_received_is_kept(
    s: Seq<HistoryFrame>,
    frame: HistoryFrame,
    max_history_size: usize,
)
    requires
        s.len() <= max_history_size,
        max_history_size >= 1,
    ensures
        has_frame(with_tracking_received(s, frame, max_history_size), frame.target_timestamp),
        !has_frame(s, frame.target_timestamp) ==> with_tracking_received(
            s,
            frame,
            max_history_size,
        )[0] == frame,
{
    let r = with_tracking_received(s, frame, max_history_size);
    if has_frame(s, frame.target_timestamp) {
        let i: int = choose|i: int| 0 <= i < s.len() && s[i].target_timestamp == frame.target_timestamp;
        assert(r[i].target_timestamp == frame.target_timestamp);
    } else {
        assert((seq![frame] + s)[0] == frame);
        assert(r[0] == frame);
    }
}

/// A frame reported again does not count its game time latency again: the
/// first report of a fresh frame accounts for all of it, and a second
/// report that follows finds nothing left.
pub proof fn lemma_game_latency_counted_once(
    frame: HistoryFrame,
    first: ClientTimings,
    second: ClientTimings,
)
    requires
        !frame.reported,
        frame.last_repeat_game_latency == 0,
    ensures
        frame.repeat_game_latency() == frame.game_time_latency(),
        frame.after_report(first).last_repeat_game_latency == frame.game_time_latency(),
        frame.after_report(first).repeat_game_latency() == 0,
        frame.after_report(first).after_report(second).last_repeat_game_latency
            == frame.game_time_latency(),
{
}

/// Once the last vsync has been advanced for `now`, advancing it again for
/// the same `now` changes nothing: the next vsync stays where it is.
pub proof fn lemma_vsync_advance_idempotent(last_vsync: u128, frame_interval: u128, now: u128)
    requires
        frame_interval > 0,
        next_vsync(last_vsync, frame_interval, now) <= MAX_DURATION_NANOS,
    ensures
        ({
            let advanced: u128 = (last_vsync + vsync_periods_elapsed(last_vsync, frame_interval, now)
                * frame_interval) as u128;
            &&& vsync_periods_elapsed(advanced, frame_interval, now) == 0
            &&& next_vsync(advanced, frame_interval, now) == next_vsync(
                last_vsync,
                frame_interval,
                now,
            )
        }),
{
    lemma_vsync_periods(last_vsync, frame_interval, now);
    let k: int = vsync_periods_elapsed(last_vsync, frame_interval, now);
    assert((k + 1) * frame_interval == k * frame_interval + frame_interval) by (nonlinear_arith);
    lemma_mul_mono(0, k, frame_interval as int);
}

/// The network latency of a frame does not depend on earlier reports of
/// it: two records of one frame that differ only in what earlier reports
/// left behind give the same network latency for the same client timings.
pub proof fn lemma_network_latency_ignores_earlier_reports(
    f: HistoryFrame,
    g: HistoryFrame,
    client: ClientTimings,
)
    requires
        f.tracking_received == g.tracking_received,
        f.frame_present == g.frame_present,
        f.frame_composed == g.frame_composed,
        f.frame_encoded == g.frame_encoded,
    ensures
        f.network_latency(client) == g.network_latency(client),
        f.after_report(client).network_latency(client) == f.network_latency(client),
{
}

/// A full report's counts since the previous full report depend on those
/// counts alone: managers that differ in their totals report the same.
pub proof fn lemma_full_report_counts_since_previous(a: StatisticsManager, b: StatisticsManager)
    requires
        a.video_packets_partial_sum == b.video_packets_partial_sum,
        a.video_bytes_partial_sum == b.video_bytes_partial_sum,
        a.packets_lost_partial_sum == b.packets_lost_partial_sum,
    ensures
        a.full_report().video_packets_partial_sum == b.full_report().video_packets_partial_sum,
        a.full_report().video_bytes_partial_sum == b.full_report().video_bytes_partial_sum,
        a.full_report().packets_lost_partial_sum == b.full_report().packets_lost_partial_sum,
        a.full_report().average_packet_size == b.full_report().average_packet_size,
        a.video_bytes_partial_sum == 0 ==> a.full_report().video_bytes_partial_sum == 0,
{
}

} // verus!
