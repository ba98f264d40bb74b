use instant_replay::buffer::HistoryBuffer;
use instant_replay::capture::buffer_capacity;
use instant_replay::capture::frame_interval_ns;
use instant_replay::capture::pacing_sleep_ns;
use instant_replay::capture::report_interval_frames;
use instant_replay::capture::should_report;
use instant_replay::capture::CaptureError;
use instant_replay::capture::CaptureSession;
use instant_replay::frame::CompressedFrame;
use instant_replay::frame::RawPixelFormat;

fn frame(seq: u64, data: &[u8]) -> CompressedFrame {
    CompressedFrame { data: data.to_vec(), seq }
}

#[test]
fn eviction_keeps_most_recent_frames() {
    let mut buf = HistoryBuffer::new(3);
    for i in 0..5u64 {
        buf.push(frame(i, &[i as u8]));
        assert!(buf.len() <= 3);
    }
    assert_eq!(buf.len(), 3);
    let drained = buf.drain_all();
    let seqs: Vec<u64> = drained.iter().map(|f| f.seq).collect();
    assert_eq!(seqs, vec![2, 3, 4]);
    assert_eq!(drained[0].data, vec![2u8]);
    assert_eq!(drained[2].data, vec![4u8]);
}

#[test]
fn push_below_capacity_keeps_everything_in_order() {
    let mut buf = HistoryBuffer::new(10);
    buf.push(frame(0, b"aa"));
    buf.push(frame(1, b"b"));
    assert_eq!(buf.len(), 2);
    assert_eq!(buf.max_len(), 10);
    let drained = buf.drain_all();
    assert_eq!(drained.len(), 2);
    assert_eq!(drained[0].seq, 0);
    assert_eq!(drained[0].data, b"aa".to_vec());
    assert_eq!(drained[1].seq, 1);
    assert_eq!(drained[1].data, b"b".to_vec());
}

#[test]
fn drain_leaves_buffer_empty_and_later_pushes_are_kept() {
    let mut buf = HistoryBuffer::new(5);
    buf.push(frame(0, b"x"));
    buf.push(frame(1, b"y"));
    let first = buf.drain_all();
    assert_eq!(first.len(), 2);
    assert_eq!(buf.len(), 0);
    buf.push(frame(2, b"z"));
    buf.push(frame(3, b"w"));
    let second = buf.drain_all();
    let all: Vec<u64> = first.iter().chain(second.iter()).map(|f| f.seq).collect();
    assert_eq!(all, vec![0, 1, 2, 3]);
}

#[test]
fn capacity_one_keeps_only_the_newest_frame() {
    let mut buf = HistoryBuffer::new(1);
    buf.push(frame(0, b"old"));
    buf.push(frame(1, b"new"));
    assert_eq!(buf.len(), 1);
    let drained = buf.drain_all();
    assert_eq!(drained[0].seq, 1);
    assert_eq!(drained[0].data, b"new".to_vec());
}

#[test]
fn capacity_zero_stores_nothing() {
    let mut buf = HistoryBuffer::new(0);
    buf.push(frame(0, b"x"));
    assert_eq!(buf.len(), 0);
    assert!(buf.drain_all().is_empty());
}

#[test]
fn total_bytes_sums_compressed_sizes() {
    let mut buf = HistoryBuffer::new(4);
    assert_eq!(buf.total_bytes(), 0);
    buf.push(frame(0, b"abc"));
    buf.push(frame(1, b"defg"));
    assert_eq!(buf.total_bytes(), 7);
    assert_eq!(buf.len(), 2);
}

#[test]
fn capacity_of_thirty_seconds_at_fifteen_fps_is_450() {
    assert_eq!(buffer_capacity(30, 15), 450);
}

#[test]
fn frame_interval_is_one_second_over_fps() {
    assert_eq!(frame_interval_ns(15), 66_666_666);
    assert_eq!(frame_interval_ns(1), 1_000_000_000);
    assert_eq!(frame_interval_ns(60), 16_666_666);
}

#[test]
fn pacing_sleeps_the_remainder_or_reports_falling_behind() {
    assert_eq!(pacing_sleep_ns(10, 30), (20, false));
    assert_eq!(pacing_sleep_ns(30, 30), (0, true));
    assert_eq!(pacing_sleep_ns(50, 30), (0, true));
    assert_eq!(pacing_sleep_ns(0, 30), (30, false));
}

#[test]
fn report_cadence_is_every_five_seconds_of_frames() {
    assert_eq!(report_interval_frames(15), 75);
    assert!(should_report(0, 75));
    assert!(!should_report(1, 75));
    assert!(!should_report(74, 75));
    assert!(should_report(75, 75));
    assert!(should_report(150, 75));
}

#[test]
fn session_assigns_consecutive_sequence_numbers() {
    let mut session = CaptureSession::new(8);
    for i in 0..5u64 {
        let seq = session
            .accept_frame(64, 4, 4, 15, vec![i as u8])
            .expect("accept");
        assert_eq!(seq, i);
    }
    let drained = session.drain_all();
    let seqs: Vec<u64> = drained.iter().map(|f| f.seq).collect();
    assert_eq!(seqs, vec![0, 1, 2, 3, 4]);
    for w in seqs.windows(2) {
        assert_eq!(w[1], w[0] + 1);
    }
}

#[test]
fn session_captures_config_from_first_frame() {
    let mut session = CaptureSession::new(4);
    assert!(session.current_config().is_none());
    session.accept_frame(100, 1920, 1080, 15, vec![1]).expect("accept");
    let cfg = session.current_config().expect("config");
    assert_eq!(cfg.width, 1920);
    assert_eq!(cfg.height, 1080);
    assert_eq!(cfg.fps, 15);
    assert_eq!(cfg.pixel_format, RawPixelFormat::Bgra);
    session.accept_frame(100, 640, 480, 30, vec![2]).expect("accept");
    let cfg2 = session.current_config().expect("config");
    assert_eq!(cfg2.width, 1920);
    assert_eq!(cfg2.height, 1080);
}

#[test]
fn raw_size_change_is_fatal_and_changes_nothing() {
    let mut session = CaptureSession::new(4);
    session.accept_frame(100, 4, 4, 15, vec![1]).expect("accept");
    let err = session.accept_frame(101, 4, 4, 15, vec![2]).unwrap_err();
    assert_eq!(
        err,
        CaptureError::RawSizeChanged { expected: 100, actual: 101 }
    );
    assert_eq!(session.len(), 1);
    let seq = session.accept_frame(100, 4, 4, 15, vec![3]).expect("accept");
    assert_eq!(seq, 1);
}

#[test]
fn report_window_tracks_maxima_and_resets() {
    let mut session = CaptureSession::new(4);
    session.accept_frame(500, 4, 4, 15, vec![0; 40]).expect("accept");
    session.accept_frame(500, 4, 4, 15, vec![0; 10]).expect("accept");
    assert_eq!(session.report_window(), (500, 40));
    assert_eq!(session.total_bytes(), 50);
    session.reset_report_window();
    assert_eq!(session.report_window(), (0, 0));
    assert_eq!(session.len(), 2);
}
