use alvr_server::statistics::{ClientTimings, HistoryFrame, StatisticsManager, FULL_REPORT_INTERVAL_NANOS};

const MS: u128 = 1_000_000;

fn client(target: u128, total: u128, arrival: i64) -> ClientTimings {
    ClientTimings {
        target_timestamp: target,
        total_pipeline_latency: total,
        video_decode: 3 * MS,
        video_decoder_queue: 1 * MS,
        rendering: 2 * MS,
        vsync_queue: 4 * MS,
        frame_arrival_timestamp: arrival,
    }
}

#[test]
fn new_manager_is_empty() {
    let m = StatisticsManager::new(8, 11 * MS, 22 * MS, 1000);
    assert!(m.history_buffer.is_empty());
    assert_eq!(m.max_history_size, 8);
    assert_eq!(m.frame_interval, 11 * MS);
    assert_eq!(m.steamvr_pipeline_latency, 22 * MS);
    assert_eq!(m.last_vsync_time, 1000);
    assert_eq!(m.first_data_send_timestamp, -1);
    assert_eq!(m.video_packets_total, 0);
}

#[test]
fn tracking_received_is_kept_once() {
    let mut m = StatisticsManager::new(8, 11 * MS, 0, 0);
    m.report_tracking_received(7, 100, 55);
    m.report_tracking_received(7, 200, 66);
    assert_eq!(m.history_buffer.len(), 1);
    let f = m.history_buffer[0];
    assert_eq!(f.target_timestamp, 7);
    assert_eq!(f.tracking_received, 100);
    assert_eq!(f.frame_send_timestamp, 55);
    assert!(!f.reported);
}

#[test]
fn history_drops_oldest_frame() {
    let mut m = StatisticsManager::new(2, 11 * MS, 0, 0);
    m.report_tracking_received(1, 10, 0);
    m.report_tracking_received(2, 20, 0);
    m.report_tracking_received(3, 30, 0);
    let targets: Vec<u128> = m.history_buffer.iter().map(|f| f.target_timestamp).collect();
    assert_eq!(targets, vec![3, 2]);
}

#[test]
fn history_of_size_zero_keeps_nothing() {
    let mut m = StatisticsManager::new(0, 11 * MS, 0, 0);
    m.report_tracking_received(1, 10, 0);
    assert!(m.history_buffer.is_empty());
}

#[test]
fn send_timestamp_stamps_known_frame() {
    let mut m = StatisticsManager::new(4, 11 * MS, 0, 0);
    m.report_tracking_received(9, 10, 5);
    m.report_send_timestamp(9, 77);
    assert_eq!(m.history_buffer[0].frame_send_timestamp, 77);
    // Unknown frames are ignored.
    m.report_send_timestamp(10, 88);
    assert_eq!(m.history_buffer[0].frame_send_timestamp, 77);
    assert_eq!(m.history_buffer.len(), 1);
}

#[test]
fn stage_reports_update_the_frame() {
    let mut m = StatisticsManager::new(4, 11 * MS, 0, 1000 * MS);
    m.report_tracking_received(9, 1000 * MS, 0);
    m.report_frame_present(9, 2 * MS, 1012 * MS);
    assert_eq!(m.history_buffer[0].frame_present, 1010 * MS);
    assert_eq!(m.last_frame_present_instant, 1010 * MS);
    assert_eq!(m.last_frame_present_interval, 10 * MS);
    m.report_frame_composed(9, 1 * MS, 1016 * MS);
    assert_eq!(m.history_buffer[0].frame_composed, 1015 * MS);
    m.report_frame_encoded(9, 1020 * MS);
    assert_eq!(m.history_buffer[0].frame_encoded, 1020 * MS);
    m.report_save(9);
    assert!(m.history_buffer[0].save_flag);
    // A presentation before the last one gives a zero interval.
    m.report_frame_present(9, 0, 1005 * MS);
    assert_eq!(m.last_frame_present_interval, 0);
    // Unknown frames change nothing.
    m.report_frame_present(10, 0, 2000 * MS);
    assert_eq!(m.last_frame_present_instant, 1005 * MS);
}

#[test]
fn video_packets_are_counted() {
    let mut m = StatisticsManager::new(4, 11 * MS, 0, 0);
    m.report_tracking_received(9, 0, 0);
    m.report_video_packet(1200, 9);
    m.report_video_packet(800, 9);
    m.report_video_packet(500, 10);
    assert_eq!(m.video_packets_total, 3);
    assert_eq!(m.video_packets_partial_sum, 3);
    assert_eq!(m.video_bytes_total, 2500);
    assert_eq!(m.video_bytes_partial_sum, 2500);
    assert_eq!(m.video_bytes_sended_for_webrtc, 2500);
    assert_eq!(m.history_buffer[0].total_packets_belong, 2);
    assert_eq!(m.history_buffer[0].total_size_for_this_frame, 800);
}

#[test]
fn packet_loss_is_counted() {
    let mut m = StatisticsManager::new(4, 11 * MS, 0, 0);
    m.report_packet_loss();
    m.report_packet_loss();
    assert_eq!(m.packets_lost_total, 2);
    assert_eq!(m.packets_lost_partial_sum, 2);
}

#[test]
fn tracker_pose_time_offset_saturates() {
    let mut m = StatisticsManager::new(4, 11 * MS, 30 * MS, 0);
    assert_eq!(m.tracker_pose_time_offset(), 30 * MS);
    m.total_pipeline_latency_average = 10 * MS;
    assert_eq!(m.tracker_pose_time_offset(), 20 * MS);
    m.total_pipeline_latency_average = 40 * MS;
    assert_eq!(m.tracker_pose_time_offset(), 0);
}

#[test]
fn vsync_wait_within_one_interval() {
    let mut m = StatisticsManager::new(4, 10, 0, 1000);
    assert_eq!(m.duration_until_next_vsync(1000), 10);
    assert_eq!(m.duration_until_next_vsync(1035), 5);
    assert_eq!(m.last_vsync_time, 1030);
    // Asking again for the same time changes nothing.
    assert_eq!(m.duration_until_next_vsync(1035), 5);
    assert_eq!(m.last_vsync_time, 1030);
    // Exactly on a vsync: the wait is zero and the last vsync stays behind.
    assert_eq!(m.duration_until_next_vsync(1040), 0);
    assert_eq!(m.last_vsync_time, 1030);
    for now in 1040..1200u128 {
        let wait = m.duration_until_next_vsync(now);
        assert!(wait <= 10);
        assert_eq!((now + wait - 1000) % 10, 0);
    }
}

#[test]
fn report_statistics_of_unknown_frame() {
    let mut m = StatisticsManager::new(4, 11 * MS, 0, 0);
    assert!(m.report_statistics(client(1, 50 * MS, 0), 1).is_none());
    assert_eq!(m.last_frame_send_timestamp, 0);
}

#[test]
fn report_statistics_latencies() {
    let mut m = StatisticsManager::new(4, 11 * MS, 0, 0);
    m.report_tracking_received(9, 100 * MS, 5_000);
    m.report_frame_present(9, 0, 108 * MS);
    m.report_frame_composed(9, 0, 110 * MS);
    m.report_frame_encoded(9, 115 * MS);
    m.report_video_packet(1000, 9);
    m.report_video_packet(3000, 9);
    let st = m.report_statistics(client(9, 60 * MS, 9_000), 120 * MS).unwrap();
    assert_eq!(st.game_time_latency, 8 * MS);
    assert_eq!(st.server_compositor_latency, 2 * MS);
    assert_eq!(st.encoder_latency, 5 * MS);
    // 60 - (8 + 2 + 5 + 3 + 1 + 2 + 4) = 35
    assert_eq!(st.network_latency, 35 * MS);
    assert_eq!(st.send_recv_deltas_us, None);
    assert!(st.full_report.is_none());
    assert!(st.frame.reported);
    assert_eq!(st.frame.total_pipeline_latency, 60 * MS);
    assert_eq!(st.frame.last_repeat_game_latency, 8 * MS);
    assert_eq!(m.first_data_send_timestamp, 5_000);
    assert_eq!(m.last_frame_send_timestamp, 5_000);
    assert_eq!(m.last_frame_arrival_timestamp, 9_000);
    assert_eq!(m.video_bytes_sended_for_webrtc, 0);
    assert_eq!(m.time_instant_for_webrtc, 120 * MS);
}

#[test]
fn network_latency_saturates() {
    let mut m = StatisticsManager::new(4, 11 * MS, 0, 0);
    m.report_tracking_received(9, 0, 1);
    m.report_frame_present(9, 0, 50 * MS);
    let st = m.report_statistics(client(9, 20 * MS, 2), 1).unwrap();
    assert_eq!(st.network_latency, 0);
}

#[test]
fn repeated_report_counts_game_latency_once() {
    let mut m = StatisticsManager::new(4, 11 * MS, 0, 0);
    m.report_tracking_received(9, 100 * MS, 1_000);
    m.report_frame_present(9, 0, 108 * MS);
    let first = m.report_statistics(client(9, 60 * MS, 2_000), 1).unwrap();
    assert_eq!(first.game_time_latency, 8 * MS);
    let second = m.report_statistics(client(9, 70 * MS, 2_500), 2).unwrap();
    assert_eq!(second.game_time_latency, 0);
    assert_eq!(second.frame.total_pipeline_latency, 62 * MS);
    assert_eq!(second.frame.last_repeat_game_latency, 8 * MS);
    let d = second.send_recv_deltas_us.unwrap();
    assert_eq!((d.send_delta_us, d.recv_delta_us), (0, 500));
    assert_eq!(m.first_data_send_timestamp, 1_000);
}

#[test]
fn full_report_resets_partial_counts() {
    let mut m = StatisticsManager::new(4, 11 * MS, 0, 0);
    m.report_tracking_received(9, 0, 1);
    m.report_video_packet(1000, 9);
    m.report_video_packet(3001, 9);
    m.report_packet_loss();
    // Not yet due exactly at the interval.
    let st = m.report_statistics(client(9, 0, 2), FULL_REPORT_INTERVAL_NANOS).unwrap();
    assert!(st.full_report.is_none());
    let st = m.report_statistics(client(9, 0, 2), FULL_REPORT_INTERVAL_NANOS + 1).unwrap();
    let full = st.full_report.unwrap();
    assert_eq!(full.video_packets_total, 2);
    assert_eq!(full.video_packets_partial_sum, 2);
    assert_eq!(full.video_bytes_total, 4001);
    assert_eq!(full.video_bytes_partial_sum, 4001);
    assert_eq!(full.packets_lost_total, 1);
    assert_eq!(full.packets_lost_partial_sum, 1);
    assert_eq!(full.average_packet_size, Some(2000));
    assert_eq!(m.video_packets_partial_sum, 0);
    assert_eq!(m.video_bytes_partial_sum, 0);
    assert_eq!(m.packets_lost_partial_sum, 0);
    assert_eq!(m.video_packets_total, 2);
    assert_eq!(m.last_full_report_instant, FULL_REPORT_INTERVAL_NANOS);
    // With no packet since, there is no average.
    let st = m.report_statistics(client(9, 0, 2), 3 * FULL_REPORT_INTERVAL_NANOS).unwrap();
    assert_eq!(st.full_report.unwrap().average_packet_size, None);
}

#[test]
fn new_frame_is_stamped_at_tracking() {
    let f = HistoryFrame::new(9, 1234, 77);
    assert_eq!(f.target_timestamp, 9);
    assert_eq!((f.tracking_received, f.frame_present, f.frame_composed, f.frame_encoded), (1234, 1234, 1234, 1234));
    assert_eq!(f.total_pipeline_latency, 0);
    assert_eq!(f.frame_send_timestamp, 77);
    assert_eq!((f.total_packets_belong, f.total_size_for_this_frame), (0, 0));
    assert!(!f.reported && !f.save_flag);
    assert_eq!(f.last_repeat_game_latency, 0);
}
