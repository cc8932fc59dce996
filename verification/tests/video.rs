//! The frame buffer, capture planning and the frame-callback decision
//! on concrete values.

use capturecard_viewer::frame::{FrameBuffer, VideoFrame};
use capturecard_viewer::video::{
    classify_frame, plan_capture, process_raw_frame, CapturePlan, DecodeOutcome, FrameAction,
    SourceFormat, VideoCapture, VideoError,
};

fn small_frame(tag: u8) -> VideoFrame {
    VideoFrame {
        width: 2,
        height: 1,
        data: vec![tag; 6],
    }
}

#[test]
fn take_front_twice_returns_same_frame() {
    let mut fb = FrameBuffer::new();
    fb.push_back(small_frame(7), 1, true, 1000);
    let first = fb.take_front().expect("a frame was pushed");
    let second = fb.take_front().expect("the frame stays available");
    assert_eq!(first.data, second.data);
    assert_eq!(first.width, second.width);
    assert_eq!(first.height, second.height);
}

#[test]
fn take_front_sees_newly_pushed_frame() {
    let mut fb = FrameBuffer::new();
    fb.push_back(small_frame(1), 1, true, 1000);
    assert_eq!(fb.take_front().unwrap().data, vec![1u8; 6]);
    fb.push_back(small_frame(2), 1, true, 1016);
    assert_eq!(fb.take_front().unwrap().data, vec![2u8; 6]);
}

#[test]
fn empty_buffer_yields_nothing() {
    let mut fb = FrameBuffer::new();
    assert!(fb.take_front().is_none());
    fb.clear_old_frames();
    assert!(fb.take_front().is_none());
}

#[test]
fn interval_window_stays_bounded() {
    let mut fb = FrameBuffer::new();
    // 130 arrivals, 16 ms apart: the window keeps the last 120.
    for i in 0..130u64 {
        fb.push_back(small_frame(0), 1, true, i * 16);
    }
    // The window is diagnostics-only; its bound shows through the
    // absence of unbounded growth in repeated take_front calls.
    assert!(fb.take_front().is_some());
}

#[test]
fn classify_frame_cases() {
    assert_eq!(
        classify_frame(SourceFormat::Yuyv, 4, 2, 16),
        FrameAction::DecodeFast
    );
    assert_eq!(
        classify_frame(SourceFormat::Yuyv, 4, 2, 15),
        FrameAction::Discard
    );
    assert_eq!(
        classify_frame(SourceFormat::Yuyv, 3, 2, 100),
        FrameAction::DecodeFallback
    );
    assert_eq!(
        classify_frame(SourceFormat::Other, 4, 2, 100),
        FrameAction::DecodeFallback
    );
}

#[test]
fn process_raw_frame_decodes_fast_path() {
    let raw = vec![128u8; 4 * 2 * 2];
    match process_raw_frame(SourceFormat::Yuyv, 4, 2, &raw) {
        DecodeOutcome::Decoded(f) => {
            assert_eq!(f.width, 4);
            assert_eq!(f.height, 2);
            assert_eq!(f.data.len(), 4 * 2 * 3);
        }
        _ => panic!("expected the fast path"),
    }
}

#[test]
fn process_raw_frame_discards_undersized() {
    let raw = vec![128u8; 5];
    assert!(matches!(
        process_raw_frame(SourceFormat::Yuyv, 4, 2, &raw),
        DecodeOutcome::Discarded
    ));
    assert!(matches!(
        process_raw_frame(SourceFormat::Other, 4, 2, &raw),
        DecodeOutcome::NeedsFallback
    ));
}

#[test]
fn capture_scenario_720p_yuyv() {
    // A device reporting 1280x720 YUYV at 60 fps; one callback with a
    // valid buffer; the consumer sees the full decoded frame.
    let names = vec!["Capture Card".to_string()];
    let plan = plan_capture(
        &Some("Capture Card".to_string()),
        &names,
        Some((1280, 720)),
        &Some("YUY2".to_string()),
        Some(60),
    )
    .expect("the named device exists");
    assert_eq!(
        plan,
        CapturePlan {
            device_index: 0,
            width: 1280,
            height: 720,
            fps: 60,
            format: SourceFormat::Yuyv,
        }
    );

    let mut vc = VideoCapture::new();
    vc.begin_capture();
    assert!(vc.is_active());

    let raw = vec![100u8; 1280 * 720 * 2];
    match process_raw_frame(SourceFormat::Yuyv, 1280, 720, &raw) {
        DecodeOutcome::Decoded(f) => vc.store_frame(f, 3, true, 1000),
        _ => panic!("the fast path qualifies"),
    }

    let latest = vc.get_latest_frame().expect("a frame arrived");
    assert_eq!(latest.width, 1280);
    assert_eq!(latest.height, 720);
    assert_eq!(latest.data.len(), 2_764_800);

    vc.stop_capture();
    assert!(!vc.is_active());
    assert!(vc.get_latest_frame().is_none());
}

#[test]
fn plan_capture_defaults() {
    let names = vec!["Cam".to_string()];
    let plan = plan_capture(&None, &names, None, &None, None).unwrap();
    assert_eq!(plan.device_index, 0);
    assert_eq!((plan.width, plan.height, plan.fps), (1280, 720, 60));
    assert_eq!(plan.format, SourceFormat::Yuyv);
}

#[test]
fn plan_capture_clamps_fps() {
    let names = vec!["Cam".to_string()];
    let low = plan_capture(&None, &names, Some((640, 480)), &None, Some(5)).unwrap();
    assert_eq!(low.fps, 15);
    let high = plan_capture(&None, &names, Some((640, 480)), &None, Some(240)).unwrap();
    assert_eq!(high.fps, 120);
    let none = plan_capture(&None, &names, Some((640, 480)), &None, None).unwrap();
    assert_eq!(none.fps, 60);
}

#[test]
fn plan_capture_errors() {
    let empty: Vec<String> = Vec::new();
    assert_eq!(
        plan_capture(&None, &empty, None, &None, None),
        Err(VideoError::NoVideoDevices)
    );
    let names = vec!["Cam".to_string()];
    assert_eq!(
        plan_capture(&Some("Other".to_string()), &names, None, &None, None),
        Err(VideoError::DeviceNotFound)
    );
    assert_eq!(VideoError::DeviceNotFound.describe(), "device not found");
    assert_eq!(
        VideoError::NoVideoDevices.describe(),
        "no video devices found"
    );
}

#[test]
fn frame_clone_is_equal() {
    let f = small_frame(9);
    let c = f.clone();
    assert_eq!(c.width, f.width);
    assert_eq!(c.height, f.height);
    assert_eq!(c.data, f.data);
}

#[test]
fn supported_format_tables() {
    let vc = VideoCapture::new();
    let formats = vc.get_supported_formats();
    assert_eq!(formats.len(), 2);
    assert_eq!(formats[0].0, "MJPEG");
    assert_eq!(formats[0].1, vec![(1920, 1080), (1280, 720), (640, 480)]);
    assert_eq!(formats[1].0, "YUY2");
    let per_device = VideoCapture::get_supported_formats_for("Cam");
    assert_eq!(per_device.len(), 3);
    assert_eq!(per_device[2].0, "RGB24");
}
