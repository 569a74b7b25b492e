//! Grouping of packets by send timestamp and computation of the
//! inter-arrival deltas between consecutive groups.
use vstd::prelude::*;

verus! {

/// Whether an integer is representable as an `i64`.
pub open spec fn fits_i64(x: int) -> bool {
    i64::MIN <= x <= i64::MAX
}

/// A group of packets whose send timestamps lie close together.
#[derive(Clone, Copy, Debug, PartialEq, Eq, Structural)]
pub struct TimestampGroup {
    pub size: usize,
    pub first_timestamp: i64,
    pub timestamp: i64,
    pub first_arrival_ms: i64,
    pub complete_time_ms: i64,
    pub last_system_time_ms: i64,
}

impl TimestampGroup {
    /// The group before any packet has been seen: `-1` marks the times as unset.
    pub open spec fn initial() -> TimestampGroup {
        TimestampGroup {
            size: 0,
            first_timestamp: 0,
            timestamp: 0,
            first_arrival_ms: -1i64,
            complete_time_ms: -1i64,
            last_system_time_ms: -1i64,
        }
    }

    /// A group that holds a single packet.
    pub open spec fn starting_with(
        packet_size: usize,
        timestamp: i64,
        arrival_time_ms: i64,
        system_time_ms: i64,
    ) -> TimestampGroup {
        TimestampGroup {
            size: packet_size,
            first_timestamp: timestamp,
            timestamp: timestamp,
            first_arrival_ms: arrival_time_ms,
            complete_time_ms: arrival_time_ms,
            last_system_time_ms: system_time_ms,
        }
    }
}

impl Default for TimestampGroup {
    fn default() -> (g: Self)
        ensures
            g == TimestampGroup::initial(),
    {
        TimestampGroup {
            size: 0,
            first_timestamp: 0,
            timestamp: 0,
            first_arrival_ms: -1,
            complete_time_ms: -1,
            last_system_time_ms: -1,
        }
    }
}

/// Splits a packet stream into timestamp groups and reports, for each
/// completed group, how its send and arrival times differ from the
/// previous completed group.
pub struct InterArrival {
    pub kReorderedResetThreshold: i32,
    pub kArrivalTimeOffsetThresholdMs: i64,
    pub kTimestampGroupLengthTicks: i32,
    pub current_timestamp_group_: TimestampGroup,
    pub prev_timestamp_group_: TimestampGroup,
    pub num_consecutive_reordered_packets_: i64,
}

impl InterArrival {
    /// The counter of reordered groups stays below the reset threshold
    /// (below one when the threshold is not positive), and within each
    /// group the latest timestamp is not older than the first one.
    pub open spec fn wf(&self) -> bool {
        &&& 0 <= self.num_consecutive_reordered_packets_
        &&& self.num_consecutive_reordered_packets_ < (if self.kReorderedResetThreshold > 0 {
            self.kReorderedResetThreshold as int
        } else {
            1
        })
        &&& self.current_timestamp_group_.first_timestamp <= self.current_timestamp_group_.timestamp
        &&& self.prev_timestamp_group_.first_timestamp <= self.prev_timestamp_group_.timestamp
    }

    /// No packet has been accepted since construction or the last reset.
    pub open spec fn awaiting_first_packet(&self) -> bool {
        self.current_timestamp_group_.complete_time_ms == -1
    }

    /// Distance of a send timestamp from the first timestamp of the current group.
    pub open spec fn timestamp_offset(&self, timestamp: i64) -> int {
        timestamp - self.current_timestamp_group_.first_timestamp
    }

    pub open spec fn spec_packet_in_order(&self, timestamp: i64) -> bool {
        self.awaiting_first_packet() || self.timestamp_offset(timestamp) < 0x80000000
    }

    pub open spec fn spec_new_timestamp_group(&self, timestamp: i64) -> bool {
        !self.awaiting_first_packet() && self.timestamp_offset(timestamp)
            > self.kTimestampGroupLengthTicks
    }

    /// The packet is in order and opens a new group.
    pub open spec fn opens_group(&self, timestamp: i64) -> bool {
        self.spec_packet_in_order(timestamp) && self.spec_new_timestamp_group(timestamp)
    }

    /// Send-time difference between the current and the previous group.
    pub open spec fn timestamp_delta(&self) -> int {
        self.current_timestamp_group_.timestamp - self.prev_timestamp_group_.timestamp
    }

    /// Arrival-time difference between the current and the previous group.
    pub open spec fn arrival_delta(&self) -> int {
        self.current_timestamp_group_.complete_time_ms - self.prev_timestamp_group_.complete_time_ms
    }

    /// System-clock difference between the current and the previous group.
    pub open spec fn system_delta(&self) -> int {
        self.current_timestamp_group_.last_system_time_ms
            - self.prev_timestamp_group_.last_system_time_ms
    }

    /// Size difference between the current and the previous group, each size
    /// taken as an `i64`.
    pub open spec fn size_delta(&self) -> int {
        (self.current_timestamp_group_.size as i64) - (self.prev_timestamp_group_.size as i64)
    }

    /// The arrival times jumped out of proportion to the system clock.
    pub open spec fn arrival_jump(&self) -> bool {
        self.arrival_delta() - self.system_delta() >= self.kArrivalTimeOffsetThresholdMs
    }

    /// The previous group has been completed, so deltas can be formed.
    pub open spec fn has_prev_group(&self) -> bool {
        self.prev_timestamp_group_.complete_time_ms >= 0
    }

    /// The state after a reset: both groups initial, no reordering counted.
    pub open spec fn reset_of(&self) -> InterArrival {
        InterArrival {
            current_timestamp_group_: TimestampGroup::initial(),
            prev_timestamp_group_: TimestampGroup::initial(),
            num_consecutive_reordered_packets_: 0,
            ..*self
        }
    }

    /// The integer arithmetic that `ComputeDeltas` performs on this packet
    /// does not overflow.
    pub open spec fn compute_deltas_defined(&self, timestamp: i64, packet_size: usize) -> bool {
        if self.awaiting_first_packet() {
            self.current_timestamp_group_.size + packet_size <= usize::MAX
        } else {
            &&& fits_i64(self.timestamp_offset(timestamp))
            &&& self.spec_packet_in_order(timestamp) ==> if self.spec_new_timestamp_group(
                timestamp,
            ) {
                self.has_prev_group() ==> {
                    &&& fits_i64(self.timestamp_delta())
                    &&& fits_i64(self.arrival_delta())
                    &&& fits_i64(self.system_delta())
                    &&& fits_i64(self.arrival_delta() - self.system_delta())
                    &&& (!self.arrival_jump() && self.arrival_delta() >= 0) ==> fits_i64(
                        self.size_delta(),
                    )
                }
            } else {
                self.current_timestamp_group_.size + packet_size <= usize::MAX
            }
        }
    }

    pub fn new(timestamp_group_length_ticks: i32) -> (r: Self)
        ensures
            r.kReorderedResetThreshold == 3,
            r.kArrivalTimeOffsetThresholdMs == 3000,
            r.kTimestampGroupLengthTicks == timestamp_group_length_ticks,
            r.current_timestamp_group_ == TimestampGroup::initial(),
            r.prev_timestamp_group_ == TimestampGroup::initial(),
            r.num_consecutive_reordered_packets_ == 0,
            r.wf(),
    {
        InterArrival {
            kReorderedResetThreshold: 3,
            kArrivalTimeOffsetThresholdMs: 3000,
            kTimestampGroupLengthTicks: timestamp_group_length_ticks,
            current_timestamp_group_: TimestampGroup::default(),
            prev_timestamp_group_: TimestampGroup::default(),
            num_consecutive_reordered_packets_: 0,
        }
    }

    /// Feeds one packet. Returns `true` exactly when the packet opens a new
    /// group while a completed previous group exists and the deltas between
    /// the group it closes and that previous group were accepted; the three
    /// deltas are then written to the output parameters.
    pub fn ComputeDeltas(
        &mut self,
        timestamp: i64,
        arrival_time_ms: i64,
        system_time_ms: i64,
        packet_size: usize,
        timestamp_delta: &mut i64,
        arrival_time_delta_ms: &mut i64,
        packet_size_delta: &mut i64,
    ) -> (calculated: bool)
        requires
            old(self).wf(),
            old(self).compute_deltas_defined(timestamp, packet_size),
        ensures
            final(self).wf(),
            // Configuration is never changed.
            final(self).kReorderedResetThreshold == old(self).kReorderedResetThreshold,
            final(self).kArrivalTimeOffsetThresholdMs == old(self).kArrivalTimeOffsetThresholdMs,
            final(self).kTimestampGroupLengthTicks == old(self).kTimestampGroupLengthTicks,
            // Deltas are only reported when arrival order was kept.
            calculated ==> *final(arrival_time_delta_ms) >= 0,
            // The first packet after construction or reset starts a group.
            old(self).awaiting_first_packet() ==> {
                &&& !calculated
                &&& *final(self) == (InterArrival {
                    current_timestamp_group_: TimestampGroup::starting_with(
                        (old(self).current_timestamp_group_.size + packet_size) as usize,
                        timestamp,
                        arrival_time_ms,
                        system_time_ms,
                    ),
                    ..*old(self)
                })
                &&& *final(timestamp_delta) == *old(timestamp_delta)
                &&& *final(arrival_time_delta_ms) == *old(arrival_time_delta_ms)
                &&& *final(packet_size_delta) == *old(packet_size_delta)
            },
            // A packet sent too far before the current group is dropped.
            !old(self).spec_packet_in_order(timestamp) ==> {
                &&& !calculated
                &&& *final(self) == *old(self)
                &&& *final(timestamp_delta) == *old(timestamp_delta)
                &&& *final(arrival_time_delta_ms) == *old(arrival_time_delta_ms)
                &&& *final(packet_size_delta) == *old(packet_size_delta)
            },
            // A packet of the current group extends it.
            !old(self).awaiting_first_packet() && old(self).spec_packet_in_order(timestamp)
                && !old(self).spec_new_timestamp_group(timestamp) ==> {
                &&& !calculated
                &&& *final(self) == (InterArrival {
                    current_timestamp_group_: TimestampGroup {
                        size: (old(self).current_timestamp_group_.size + packet_size) as usize,
                        timestamp: if old(self).current_timestamp_group_.timestamp < timestamp {
                            timestamp
                        } else {
                            old(self).current_timestamp_group_.timestamp
                        },
                        complete_time_ms: arrival_time_ms,
                        last_system_time_ms: system_time_ms,
                        ..old(self).current_timestamp_group_
                    },
                    ..*old(self)
                })
                &&& *final(timestamp_delta) == *old(timestamp_delta)
                &&& *final(arrival_time_delta_ms) == *old(arrival_time_delta_ms)
                &&& *final(packet_size_delta) == *old(packet_size_delta)
            },
            // A packet of a later group closes the current one: the send and
            // arrival deltas are written whenever a previous group exists.
            old(self).opens_group(timestamp) && old(self).has_prev_group() ==> {
                &&& *final(timestamp_delta) == old(self).timestamp_delta()
                &&& *final(arrival_time_delta_ms) == old(self).arrival_delta()
            },
            // An arrival-time jump resets everything.
            old(self).opens_group(timestamp) && old(self).has_prev_group()
                && old(self).arrival_jump() ==> {
                &&& !calculated
                &&& *final(self) == old(self).reset_of()
                &&& *final(packet_size_delta) == *old(packet_size_delta)
            },
            // A reordered group is counted, and enough of them in a row reset.
            old(self).opens_group(timestamp) && old(self).has_prev_group()
                && !old(self).arrival_jump() && old(self).arrival_delta() < 0 ==> {
                &&& !calculated
                &&& *final(self) == (if old(self).num_consecutive_reordered_packets_ + 1
                    >= old(self).kReorderedResetThreshold {
                    old(self).reset_of()
                } else {
                    InterArrival {
                        num_consecutive_reordered_packets_: (
                        old(self).num_consecutive_reordered_packets_ + 1) as i64,
                        ..*old(self)
                    }
                })
                &&& *final(packet_size_delta) == *old(packet_size_delta)
            },
            // Otherwise the current group becomes the previous one and the
            // packet starts a new current group.
            old(self).opens_group(timestamp) && (!old(self).has_prev_group() || (
            !old(self).arrival_jump() && old(self).arrival_delta() >= 0)) ==> {
                &&& calculated == old(self).has_prev_group()
                &&& final(self).prev_timestamp_group_ == old(self).current_timestamp_group_
                &&& final(self).current_timestamp_group_ == TimestampGroup::starting_with(
                    packet_size,
                    timestamp,
                    arrival_time_ms,
                    system_time_ms,
                )
                &&& final(self).num_consecutive_reordered_packets_ == if old(
                    self,
                ).has_prev_group() {
                    0
                } else {
                    old(self).num_consecutive_reordered_packets_
                }
                &&& *final(packet_size_delta) == if old(self).has_prev_group() {
                    old(self).size_delta()
                } else {
                    *old(packet_size_delta) as int
                }
                &&& !old(self).has_prev_group() ==> {
                    &&& *final(timestamp_delta) == *old(timestamp_delta)
                    &&& *final(arrival_time_delta_ms) == *old(arrival_time_delta_ms)
                }
            },
            // The grouping rule: a packet in order stays in the current group
            // while its send timestamp lies at most the group length after the
            // FIRST timestamp of the group, adding its size to the group.
            old(self).current_timestamp_group_.complete_time_ms != -1 && timestamp
                - old(self).current_timestamp_group_.first_timestamp < 0x80000000 && timestamp
                - old(self).current_timestamp_group_.first_timestamp
                <= old(self).kTimestampGroupLengthTicks ==> {
                &&& !calculated
                &&& final(self).prev_timestamp_group_ == old(self).prev_timestamp_group_
                &&& final(self).current_timestamp_group_.first_timestamp
                    == old(self).current_timestamp_group_.first_timestamp
                &&& final(self).current_timestamp_group_.size
                    == old(self).current_timestamp_group_.size + packet_size
                &&& final(self).current_timestamp_group_.complete_time_ms == arrival_time_ms
            },
            // ... and one further after that first timestamp closes the group.
            // Without a completed previous group, the closed group becomes the
            // previous one and the packet starts the next group.
            old(self).current_timestamp_group_.complete_time_ms != -1 && timestamp
                - old(self).current_timestamp_group_.first_timestamp < 0x80000000 && timestamp
                - old(self).current_timestamp_group_.first_timestamp
                > old(self).kTimestampGroupLengthTicks
                && old(self).prev_timestamp_group_.complete_time_ms < 0 ==> {
                &&& !calculated
                &&& final(self).prev_timestamp_group_ == old(self).current_timestamp_group_
                &&& final(self).current_timestamp_group_.first_timestamp == timestamp
                &&& final(self).current_timestamp_group_.timestamp == timestamp
                &&& final(self).current_timestamp_group_.size == packet_size
            },
            // With a completed previous group, closing a group reports the send
            // and arrival differences between the two groups; the state is
            // reset only when the arrival difference exceeds the system-clock
            // difference by at least the offset threshold, and a non-negative
            // arrival difference below that yields all three deltas.
            old(self).current_timestamp_group_.complete_time_ms != -1 && timestamp
                - old(self).current_timestamp_group_.first_timestamp < 0x80000000 && timestamp
                - old(self).current_timestamp_group_.first_timestamp
                > old(self).kTimestampGroupLengthTicks
                && old(self).prev_timestamp_group_.complete_time_ms >= 0 ==> {
                let arrival = old(self).current_timestamp_group_.complete_time_ms
                    - old(self).prev_timestamp_group_.complete_time_ms;
                let system = old(self).current_timestamp_group_.last_system_time_ms
                    - old(self).prev_timestamp_group_.last_system_time_ms;
                &&& *final(timestamp_delta) == old(self).current_timestamp_group_.timestamp
                    - old(self).prev_timestamp_group_.timestamp
                &&& *final(arrival_time_delta_ms) == arrival
                &&& (arrival - system >= old(self).kArrivalTimeOffsetThresholdMs ==> {
                    &&& !calculated
                    &&& final(self).current_timestamp_group_.complete_time_ms == -1
                    &&& final(self).prev_timestamp_group_.complete_time_ms == -1
                })
                &&& (arrival - system < old(self).kArrivalTimeOffsetThresholdMs && arrival < 0
                    ==> {
                    &&& !calculated
                    &&& old(self).num_consecutive_reordered_packets_ + 1
                        >= old(self).kReorderedResetThreshold ==> {
                        &&& final(self).num_consecutive_reordered_packets_ == 0
                        &&& final(self).current_timestamp_group_.complete_time_ms == -1
                        &&& final(self).prev_timestamp_group_.complete_time_ms == -1
                    }
                    &&& old(self).num_consecutive_reordered_packets_ + 1
                        < old(self).kReorderedResetThreshold ==> {
                        &&& final(self).num_consecutive_reordered_packets_
                            == old(self).num_consecutive_reordered_packets_ + 1
                        &&& final(self).current_timestamp_group_
                            == old(self).current_timestamp_group_
                        &&& final(self).prev_timestamp_group_ == old(self).prev_timestamp_group_
                    }
                })
                &&& (arrival - system < old(self).kArrivalTimeOffsetThresholdMs && arrival >= 0
                    ==> {
                    &&& final(self).num_consecutive_reordered_packets_ == 0
                    &&& calculated
                    &&& *final(packet_size_delta) == (old(self).current_timestamp_group_.size as i64)
                        - (old(self).prev_timestamp_group_.size as i64)
                    &&& final(self).prev_timestamp_group_ == old(self).current_timestamp_group_
                    &&& final(self).current_timestamp_group_.first_timestamp == timestamp
                    &&& final(self).current_timestamp_group_.size == packet_size
                })
            },
            // Deltas are reported only for a packet that closes a group after a
            // completed previous group, with no arrival-time jump.
            calculated ==> {
                &&& old(self).current_timestamp_group_.complete_time_ms != -1
                &&& timestamp - old(self).current_timestamp_group_.first_timestamp
                    > old(self).kTimestampGroupLengthTicks
                &&& old(self).prev_timestamp_group_.complete_time_ms >= 0
                &&& (old(self).current_timestamp_group_.complete_time_ms
                    - old(self).prev_timestamp_group_.complete_time_ms) - (
                old(self).current_timestamp_group_.last_system_time_ms
                    - old(self).prev_timestamp_group_.last_system_time_ms)
                    < old(self).kArrivalTimeOffsetThresholdMs
            },
    {
        let mut calculated_deltas = false;
        if self.current_timestamp_group_.complete_time_ms == -1 {
            self.current_timestamp_group_.timestamp = timestamp;
            self.current_timestamp_group_.first_timestamp = timestamp;
            self.current_timestamp_group_.first_arrival_ms = arrival_time_ms;
        } else if !self.PacketInOrder(timestamp) {
            return false;
        } else if self.NewTimestampGroup(arrival_time_ms, timestamp) {
            // First packet of a later frame, the previous frame sample is ready.
            if self.prev_timestamp_group_.complete_time_ms >= 0 {
                *timestamp_delta = self.current_timestamp_group_.timestamp
                    - self.prev_timestamp_group_.timestamp;
                *arrival_time_delta_ms = self.current_timestamp_group_.complete_time_ms
                    - self.prev_timestamp_group_.complete_time_ms;
                // Check system time differences to see if we have an unproportional jump
                // in arrival time. In that case reset the inter-arrival computations.
                let system_time_delta_ms: i64 = self.current_timestamp_group_.last_system_time_ms
                    - self.prev_timestamp_group_.last_system_time_ms;
                if *arrival_time_delta_ms - system_time_delta_ms
                    >= self.kArrivalTimeOffsetThresholdMs {
                    self.Reset();
                    return false;
                }
                if *arrival_time_delta_ms < 0 {
                    // The group of packets has been reordered since receiving its local
                    // arrival timestamp.
                    self.num_consecutive_reordered_packets_ += 1;
                    if self.num_consecutive_reordered_packets_
                        >= self.kReorderedResetThreshold as i64 {
                        self.Reset();
                    }
                    return false;
                } else {
                    self.num_consecutive_reordered_packets_ = 0;
                }
                *packet_size_delta = #[verifier::truncate] (self.current_timestamp_group_.size as i64)
                    - #[verifier::truncate] (self.prev_timestamp_group_.size as i64);
                calculated_deltas = true;
            }
            self.prev_timestamp_group_.complete_time_ms =
                self.current_timestamp_group_.complete_time_ms;
            self.prev_timestamp_group_.first_arrival_ms =
                self.current_timestamp_group_.first_arrival_ms;
            self.prev_timestamp_group_.first_timestamp =
                self.current_timestamp_group_.first_timestamp;
            self.prev_timestamp_group_.last_system_time_ms =
                self.current_timestamp_group_.last_system_time_ms;
            self.prev_timestamp_group_.size = self.current_timestamp_group_.size;
            self.prev_timestamp_group_.timestamp = self.current_timestamp_group_.timestamp;
            // The new timestamp is now the current frame.
            self.current_timestamp_group_.first_timestamp = timestamp;
            self.current_timestamp_group_.timestamp = timestamp;
            self.current_timestamp_group_.first_arrival_ms = arrival_time_ms;
            self.current_timestamp_group_.size = 0;
        } else {
            if self.current_timestamp_group_.timestamp < timestamp {
                self.current_timestamp_group_.timestamp = timestamp;
            }
        }
        // Accumulate the frame size.
        self.current_timestamp_group_.size = self.current_timestamp_group_.size + packet_size;
        self.current_timestamp_group_.complete_time_ms = arrival_time_ms;
        self.current_timestamp_group_.last_system_time_ms = system_time_ms;
        calculated_deltas
    }

    /// A packet is in order unless its send timestamp lies at least
    /// `0x80000000` ticks after the first timestamp of the current group.
    pub fn PacketInOrder(&mut self, timestamp: i64) -> (in_order: bool)
        requires
            !old(self).awaiting_first_packet() ==> fits_i64(old(self).timestamp_offset(timestamp)),
        ensures
            in_order == old(self).spec_packet_in_order(timestamp),
            *final(self) == *old(self),
    {
        if self.current_timestamp_group_.complete_time_ms == -1 {
            true
        } else {
            let timestamp_diff: i64 = timestamp - self.current_timestamp_group_.first_timestamp;
            timestamp_diff < 0x80000000
        }
    }

    /// A packet opens a new group when its send timestamp lies more than the
    /// group length after the first timestamp of the current group.
    pub fn NewTimestampGroup(&mut self, arrival_time_ms: i64, timestamp: i64) -> (new_group: bool)
        requires
            !old(self).awaiting_first_packet() ==> fits_i64(old(self).timestamp_offset(timestamp)),
        ensures
            new_group == old(self).spec_new_timestamp_group(timestamp),
            // Measured from the first timestamp of the current group.
            new_group == (old(self).current_timestamp_group_.complete_time_ms != -1 && timestamp
                - old(self).current_timestamp_group_.first_timestamp
                > old(self).kTimestampGroupLengthTicks),
            *final(self) == *old(self),
    {
        if self.current_timestamp_group_.complete_time_ms == -1 {
            false
        } else if self.BelongsToBurst(arrival_time_ms, timestamp) {
            false
        } else {
            let timestamp_diff: i64 = timestamp - self.current_timestamp_group_.first_timestamp;
            timestamp_diff > self.kTimestampGroupLengthTicks as i64
        }
    }

    pub fn Reset(&mut self)
        ensures
            *final(self) == old(self).reset_of(),
    {
        self.num_consecutive_reordered_packets_ = 0;
        self.current_timestamp_group_ = TimestampGroup::default();
        self.prev_timestamp_group_ = TimestampGroup::default();
    }

    /// Burst detection is switched off: no packet is taken as part of a burst.
    pub fn BelongsToBurst(&mut self, arrival_time_ms: i64, timestamp: i64) -> (burst: bool)
        ensures
            !burst,
            *final(self) == *old(self),
    {
        false
    }
}

/// A reset forgets every packet: the next packet is taken as the first one,
/// as after construction, and the state is well formed.
pub proof fn lemma_reset_forgets_packets(ia: InterArrival)
    ensures
        ia.reset_of().awaiting_first_packet(),
        ia.reset_of().wf(),
        ia.reset_of().current_timestamp_group_ == TimestampGroup::initial(),
        ia.reset_of().prev_timestamp_group_ == TimestampGroup::initial(),
        !ia.reset_of().has_prev_group(),
{
}

/// Groups are measured from their first packet: a packet opens a new group
/// exactly when it was sent more than the group length after the first
/// packet of the current group, however late the group's latest packet was.
pub proof fn lemma_group_measured_from_first_packet(ia: InterArrival, timestamp: i64)
    ensures
        ia.spec_new_timestamp_group(timestamp) == (ia.current_timestamp_group_.complete_time_ms
            != -1 && timestamp - ia.current_timestamp_group_.first_timestamp
            > ia.kTimestampGroupLengthTicks),
        ia.current_timestamp_group_.complete_time_ms != -1 && timestamp
            - ia.current_timestamp_group_.first_timestamp > ia.kTimestampGroupLengthTicks
            ==> ia.spec_new_timestamp_group(timestamp),
{
}

/// A pause seen alike by the arrival times and the system clock is no
/// arrival-time jump: only arrival time gained over the system clock counts,
/// so shifting both deltas by the same amount changes nothing.
pub proof fn lemma_arrival_jump_relative_to_system_clock(ia: InterArrival, jb: InterArrival)
    requires
        ia.kArrivalTimeOffsetThresholdMs == jb.kArrivalTimeOffsetThresholdMs,
        ia.arrival_delta() - ia.system_delta() == jb.arrival_delta() - jb.system_delta(),
    ensures
        ia.arrival_jump() == jb.arrival_jump(),
        ia.arrival_delta() == ia.system_delta() && ia.kArrivalTimeOffsetThresholdMs > 0
            ==> !ia.arrival_jump(),
{
}

} // verus!
