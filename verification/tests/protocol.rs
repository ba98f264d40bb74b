use instant_replay::capture::CaptureSession;
use instant_replay::encode::check_frame_dims;
use instant_replay::encode::feeder_should_pause;
use instant_replay::encode::plane_len;
use instant_replay::encode::plane_pitch;
use instant_replay::encode::EncodeCommand;
use instant_replay::encode::EncodeError;
use instant_replay::encode::BACKPRESSURE_THRESHOLD;
use instant_replay::export::plan_image_export;
use instant_replay::export::video_export_commands;
use instant_replay::export::ExportError;
use instant_replay::frame::CompressedFrame;
use instant_replay::frame::OutputConfig;
use instant_replay::frame::RawPixelFormat;
use instant_replay::naming::export_dir_name;
use instant_replay::naming::export_video_name;
use instant_replay::naming::frame_file_name;
use instant_replay::naming::local_timestamp;
use instant_replay::naming::timestamp_from_parts;
use instant_replay::naming::Timestamp;

fn config() -> OutputConfig {
    OutputConfig { pixel_format: RawPixelFormat::Bgra, fps: 15, width: 1920, height: 1080 }
}

fn frames(n: u64) -> Vec<CompressedFrame> {
    (0..n).map(|i| CompressedFrame { data: vec![i as u8; 3], seq: i }).collect()
}

#[test]
fn session_is_one_configure_then_frames_then_one_end() {
    let cmds = video_export_commands(Some(config()), frames(4)).expect("commands");
    assert_eq!(cmds.len(), 6);
    match &cmds[0] {
        EncodeCommand::Configure(c) => assert_eq!(*c, config()),
        _ => panic!("first command must configure"),
    }
    for (i, cmd) in cmds[1..5].iter().enumerate() {
        match cmd {
            EncodeCommand::Frame(of) => {
                assert_eq!(of.position, i as u64);
                assert_eq!(of.frame.seq, i as u64);
                assert_eq!(of.frame.data, vec![i as u8; 3]);
            },
            _ => panic!("middle commands must be frames"),
        }
    }
    assert!(matches!(cmds[5], EncodeCommand::End));
    let configures = cmds
        .iter()
        .filter(|c| matches!(c, EncodeCommand::Configure(_)))
        .count();
    let ends = cmds.iter().filter(|c| matches!(c, EncodeCommand::End)).count();
    assert_eq!(configures, 1);
    assert_eq!(ends, 1);
}

#[test]
fn empty_session_is_configure_then_end() {
    let cmds = video_export_commands(Some(config()), Vec::new()).expect("commands");
    assert_eq!(cmds.len(), 2);
    assert!(matches!(cmds[0], EncodeCommand::Configure(_)));
    assert!(matches!(cmds[1], EncodeCommand::End));
}

#[test]
fn pipeline_sees_strictly_increasing_gapless_sequence_numbers() {
    let mut session = CaptureSession::new(16);
    for i in 0..7u64 {
        session.accept_frame(99, 8, 8, 15, vec![i as u8]).expect("accept");
    }
    let cfg = session.current_config();
    let drained = session.drain_all();
    let cmds = video_export_commands(cfg, drained).expect("commands");
    let mut last: Option<u64> = None;
    let mut positions: Vec<u64> = Vec::new();
    for cmd in &cmds {
        if let EncodeCommand::Frame(of) = cmd {
            if let Some(prev) = last {
                assert_eq!(of.frame.seq, prev + 1);
            }
            last = Some(of.frame.seq);
            positions.push(of.position);
        }
    }
    assert_eq!(last, Some(6));
    assert_eq!(positions, (0..7).collect::<Vec<u64>>());
}

#[test]
fn exports_after_eviction_renumber_output_positions_from_zero() {
    let mut session = CaptureSession::new(3);
    for i in 0..5u64 {
        session.accept_frame(99, 8, 8, 15, vec![i as u8]).expect("accept");
    }
    let cfg = session.current_config();
    let drained = session.drain_all();
    let cmds = video_export_commands(cfg, drained).expect("commands");
    let numbered: Vec<(u64, u64)> = cmds
        .iter()
        .filter_map(|c| match c {
            EncodeCommand::Frame(of) => Some((of.position, of.frame.seq)),
            _ => None,
        })
        .collect();
    assert_eq!(numbered, vec![(0, 2), (1, 3), (2, 4)]);
}

#[test]
fn video_export_without_config_is_a_reported_error() {
    let err = video_export_commands(None, frames(2)).unwrap_err();
    assert_eq!(err, ExportError::NoConfigCaptured);
}

#[test]
fn backpressure_blocks_above_threshold_and_resumes_below() {
    assert_eq!(BACKPRESSURE_THRESHOLD, 5);
    assert!(feeder_should_pause(6, BACKPRESSURE_THRESHOLD));
    assert!(!feeder_should_pause(5, BACKPRESSURE_THRESHOLD));
    assert!(!feeder_should_pause(4, BACKPRESSURE_THRESHOLD));
    assert!(!feeder_should_pause(0, BACKPRESSURE_THRESHOLD));
}

#[test]
fn dimension_mismatch_aborts_the_export() {
    let cfg = config();
    assert!(check_frame_dims(&cfg, 1920, 1080).is_ok());
    let err = check_frame_dims(&cfg, 1280, 720).unwrap_err();
    assert_eq!(
        err,
        EncodeError::DimensionMismatch {
            expected_width: 1920,
            expected_height: 1080,
            actual_width: 1280,
            actual_height: 720,
        }
    );
}

#[test]
fn decoded_plane_sizes_follow_the_config() {
    let cfg = config();
    assert_eq!(plane_pitch(&cfg), 4 * 1920);
    assert_eq!(plane_len(&cfg), 4 * 1920 * 1080);
}

#[test]
fn image_export_of_ten_frames_names_them_in_order() {
    let mut session = CaptureSession::new(450);
    let raw_len = 1920 * 1080 * 4;
    for i in 0..10u64 {
        session
            .accept_frame(raw_len, 1920, 1080, 15, vec![i as u8; 5])
            .expect("accept");
    }
    let drained = session.drain_all();
    assert_eq!(session.len(), 0);
    let files = plan_image_export(drained);
    assert_eq!(files.len(), 10);
    for (i, (name, data)) in files.iter().enumerate() {
        let expected = format!("frame_{}.jpg", i);
        assert_eq!(String::from_utf8(name.clone()).unwrap(), expected);
        assert_eq!(*data, vec![i as u8; 5]);
    }
    let seq = session
        .accept_frame(raw_len, 1920, 1080, 15, vec![0xaa])
        .expect("accept");
    assert_eq!(seq, 10);
}

#[test]
fn frame_file_names_use_plain_decimal_indices() {
    assert_eq!(frame_file_name(0), b"frame_0.jpg".to_vec());
    assert_eq!(frame_file_name(9), b"frame_9.jpg".to_vec());
    assert_eq!(frame_file_name(449), b"frame_449.jpg".to_vec());
    assert_eq!(frame_file_name(1000), b"frame_1000.jpg".to_vec());
    assert_eq!(
        frame_file_name(u64::MAX),
        b"frame_18446744073709551615.jpg".to_vec()
    );
}

#[test]
fn export_names_carry_the_padded_timestamp() {
    let ts = Timestamp { year: 2024, month: 3, day: 7, hour: 9, minute: 5, second: 42 };
    assert_eq!(
        String::from_utf8(export_dir_name(&ts)).unwrap(),
        "rolling_buffer_20240307-09_05_42"
    );
    assert_eq!(
        String::from_utf8(export_video_name(&ts)).unwrap(),
        "rolling_buffer_20240307-09_05_42.mp4"
    );
}

#[test]
fn timestamp_accepts_exactly_four_digit_years() {
    let ts = timestamp_from_parts(2024, 3, 7, 9, 5, 42).expect("in range");
    assert_eq!(ts, Timestamp { year: 2024, month: 3, day: 7, hour: 9, minute: 5, second: 42 });
    assert_eq!(
        timestamp_from_parts(0, 1, 1, 0, 0, 0),
        Some(Timestamp { year: 0, month: 1, day: 1, hour: 0, minute: 0, second: 0 })
    );
    assert_eq!(timestamp_from_parts(-1, 3, 7, 9, 5, 42), None);
    assert_eq!(timestamp_from_parts(10000, 3, 7, 9, 5, 42), None);
}

#[test]
fn local_timestamp_is_in_calendar_ranges() {
    let ts = local_timestamp().expect("current year fits four digits");
    assert!(ts.year <= 9999);
    assert!((1..=12).contains(&ts.month));
    assert!((1..=31).contains(&ts.day));
    assert!(ts.hour <= 23);
    assert!(ts.minute <= 59);
    assert!(ts.second <= 59);
}
