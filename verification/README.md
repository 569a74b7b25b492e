# alvr_server

Statistics and delay-based congestion-control bookkeeping of a VR streaming
server, written in Verus.

- `src/` is the verified library:
  - `inter_arrival`: grouping of packets by send timestamp and the
    inter-arrival deltas between groups, with resets on arrival-time jumps
    and on repeated reordering;
  - `rate_control`: the state machine of the AIMD rate controller and its
    bitrate-initialisation rule;
  - `trendline`: the delta count, overuse counter and conclusion of the
    delay-trend overuse detector;
  - `bitrate_estimator`: the byte-counting window behind the
    acknowledged-bitrate estimate;
  - `statistics`: the per-frame latency history, the stream counters, the
    latency breakdown of a client report and the vsync schedule.
  Times are integers there: clock readings and durations in nanoseconds,
  UTC timestamps in microseconds.
- `app/` is the server around it: it reads the monotonic and UTC clocks, holds the
  floating-point estimators (trend line, link capacity, bitrate estimate,
  AIMD bitrates), sends dashboard events and appends the CSV log.
- `tests/` runs the library on concrete scenarios.
