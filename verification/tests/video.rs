use capture_core::codec::{ChromaSubsampling, FRAME_JPEG_QUALITY};
use capture_core::error::CaptureError;
use capture_core::pixels::{bgra_to_rgb, frame_job};
use capture_core::target::TargetRef;
use capture_core::video::frames::{frame_payload, VideoPhase, VideoSession};
use capture_core::video::plan::{
    capture_settings, clamp_fps, frame_interval_ms, plan_video, resolve_target, ColorFormat,
    CursorCapture, DirtyRegion, DrawBorder, Environment, SecondaryWindows, UpdateInterval,
    VideoSource, MAX_FPS, MIN_FPS,
};

fn desktop() -> Environment {
    Environment {
        window_handles: vec![10, 12345, 77, 12345],
        monitor_count: 2,
        border_toggle_supported: true,
    }
}

#[test]
fn rates_inside_the_range_are_kept() {
    assert_eq!(clamp_fps(1), 1);
    assert_eq!(clamp_fps(30), 30);
    assert_eq!(clamp_fps(60), 60);
}

#[test]
fn rates_outside_the_range_are_clamped() {
    assert_eq!(clamp_fps(0), 1);
    assert_eq!(clamp_fps(61), 60);
    assert_eq!(clamp_fps(1000), 60);
    assert_eq!(clamp_fps(u32::MAX), 60);
    for fps in [0u32, 1, 2, 59, 60, 61, 144, u32::MAX] {
        let rate = clamp_fps(fps);
        assert!(MIN_FPS <= rate && rate <= MAX_FPS);
    }
}

#[test]
fn frame_intervals_are_whole_milliseconds() {
    assert_eq!(frame_interval_ms(30), 33);
    assert_eq!(frame_interval_ms(60), 16);
    assert_eq!(frame_interval_ms(1), 1000);
    assert_eq!(frame_interval_ms(0), 1000);
    assert_eq!(frame_interval_ms(24), 41);
    assert_eq!(frame_interval_ms(7), 142);
    assert_eq!(frame_interval_ms(500), 16);
}

#[test]
fn session_starts_in_starting_phase() {
    let session = VideoSession::new(30, 5_000);
    assert_eq!(session.fps(), 30);
    assert_eq!(session.interval_ms(), 33);
    assert_eq!(session.last_frame_ms(), 5_000);
    assert_eq!(session.phase(), VideoPhase::Starting);
}

#[test]
fn session_clamps_its_rate() {
    let slow = VideoSession::new(0, 0);
    assert_eq!(slow.fps(), 1);
    assert_eq!(slow.interval_ms(), 1000);
    let fast = VideoSession::new(240, 0);
    assert_eq!(fast.fps(), 60);
    assert_eq!(fast.interval_ms(), 16);
}

#[test]
fn frames_that_come_too_soon_are_dropped() {
    let mut session = VideoSession::new(30, 1_000);
    assert!(!session.on_frame(1_000));
    assert_eq!(session.phase(), VideoPhase::Streaming);
    assert!(!session.on_frame(1_032));
    // 33 ms is less than a thirtieth of a second
    assert!(!session.on_frame(1_033));
    assert_eq!(session.last_frame_ms(), 1_000);
    assert!(session.on_frame(1_034));
    assert_eq!(session.last_frame_ms(), 1_034);
    assert!(!session.on_frame(1_050));
    assert!(!session.on_frame(1_067));
    assert!(session.on_frame(1_068));
    assert_eq!(session.last_frame_ms(), 1_068);
}

#[test]
fn the_pace_is_held_by_the_exact_fraction() {
    // 1000 / 60 = 16.67
    let mut sixty = VideoSession::new(60, 0);
    assert_eq!(sixty.interval_ms(), 16);
    assert!(!sixty.on_frame(16));
    assert!(sixty.on_frame(17));
    // rates that divide 1000 are exact
    let mut fifty = VideoSession::new(50, 0);
    assert!(!fifty.on_frame(19));
    assert!(fifty.on_frame(20));
    let mut one = VideoSession::new(0, 0);
    assert!(!one.on_frame(999));
    assert!(one.on_frame(1_000));
    // 1000 / 7 = 142.86
    let mut seven = VideoSession::new(7, 0);
    assert!(!seven.on_frame(142));
    assert!(seven.on_frame(143));
}

#[test]
fn emitted_frames_keep_their_distance() {
    for fps in [0u32, 1, 5, 7, 24, 30, 60, 90, 1000] {
        let mut session = VideoSession::new(fps, 0);
        let rate = clamp_fps(fps) as u64;
        let mut last_emitted = 0u64;
        let mut now = 0u64;
        let mut emitted = 0u64;
        while now < 5_000 {
            now += 3;
            if session.on_frame(now) {
                assert!((now - last_emitted) * rate >= 1000);
                last_emitted = now;
                emitted += 1;
            }
        }
        assert!(emitted >= 1);
        // never more than the rate allows in five seconds
        assert!(emitted <= 5 * rate + 1);
    }
}

#[test]
fn a_clock_that_steps_back_emits_nothing() {
    let mut session = VideoSession::new(60, 10_000);
    assert!(!session.on_frame(9_000));
    assert_eq!(session.last_frame_ms(), 10_000);
    assert!(!session.on_frame(10_016));
    assert!(session.on_frame(10_017));
}

#[test]
fn a_closing_session_emits_nothing() {
    let mut session = VideoSession::new(60, 0);
    assert!(session.on_frame(100));
    session.on_closed();
    assert_eq!(session.phase(), VideoPhase::Closing);
    assert!(!session.on_frame(10_000));
    assert_eq!(session.phase(), VideoPhase::Closing);
    assert_eq!(session.last_frame_ms(), 100);
}

#[test]
fn a_frame_that_is_due_is_prepared_and_one_that_is_early_is_not() {
    let raw = [1u8, 2, 3, 0, 4, 5, 6, 0];
    let mut session = VideoSession::new(60, 0);
    assert!(!session.admits_now(16));
    assert!(session.prepare_frame(16, &raw, 2, 1).is_none());
    assert_eq!(session.last_frame_ms(), 0);
    assert!(session.admits_now(17));
    assert_eq!(session.last_frame_ms(), 0);
    let job = session.prepare_frame(17, &raw, 2, 1).unwrap();
    assert_eq!(job.pixels, vec![3, 2, 1, 6, 5, 4]);
    assert_eq!(job.quality, 90);
    assert_eq!(session.last_frame_ms(), 17);
    // a frame that is due counts as emitted even where its buffer is unusable
    assert!(session.prepare_frame(40, &raw, 3, 1).is_none());
    assert_eq!(session.last_frame_ms(), 40);
    assert!(session.prepare_frame(50, &raw, 2, 1).is_none());
    session.on_closed();
    assert!(session.prepare_frame(500, &raw, 2, 1).is_none());
    assert_eq!(session.last_frame_ms(), 40);
}

#[test]
fn window_settings() {
    let source = VideoSource::Window { handle: 1, position: 0 };
    let settings = capture_settings(source, true);
    assert_eq!(settings.cursor, CursorCapture::WithCursor);
    assert_eq!(settings.border, DrawBorder::WithoutBorder);
    assert_eq!(settings.secondary_windows, SecondaryWindows::Exclude);
    assert_eq!(settings.update_interval, UpdateInterval::Default);
    assert_eq!(settings.dirty_region, DirtyRegion::Default);
    assert_eq!(settings.color_format, ColorFormat::Bgra8);
}

#[test]
fn monitor_settings_on_a_system_without_border_toggle() {
    let settings = capture_settings(VideoSource::Monitor { index: 0 }, false);
    assert_eq!(settings.cursor, CursorCapture::WithCursor);
    assert_eq!(settings.border, DrawBorder::Default);
    assert_eq!(settings.secondary_windows, SecondaryWindows::Exclude);
    assert_eq!(settings.color_format, ColorFormat::Bgra8);
}

#[test]
fn window_resolves_to_its_first_position() {
    let env = desktop();
    assert_eq!(
        resolve_target(TargetRef::Window(12345), &env),
        Ok(VideoSource::Window { handle: 12345, position: 1 })
    );
    assert_eq!(
        resolve_target(TargetRef::Window(10), &env),
        Ok(VideoSource::Window { handle: 10, position: 0 })
    );
}

#[test]
fn stale_targets_are_not_found() {
    let env = desktop();
    assert_eq!(resolve_target(TargetRef::Window(0), &env), Err(CaptureError::TargetNotFound));
    assert_eq!(resolve_target(TargetRef::Monitor(2), &env), Err(CaptureError::TargetNotFound));
    assert_eq!(
        resolve_target(TargetRef::Monitor(1), &env),
        Ok(VideoSource::Monitor { index: 1 })
    );
}

#[test]
fn plan_for_a_window() {
    let plan = plan_video("window:12345", 30, &desktop()).unwrap();
    assert_eq!(plan.source, VideoSource::Window { handle: 12345, position: 1 });
    assert_eq!(plan.fps, 30);
    assert_eq!(plan.frame_interval_ms, 33);
    assert_eq!(plan.settings.secondary_windows, SecondaryWindows::Exclude);
    assert_eq!(plan.settings.border, DrawBorder::WithoutBorder);
}

#[test]
fn plan_for_a_monitor() {
    let plan = plan_video("monitor:0", 60, &desktop()).unwrap();
    assert_eq!(plan.source, VideoSource::Monitor { index: 0 });
    assert_eq!(plan.fps, 60);
    assert_eq!(plan.frame_interval_ms, 16);
    assert_eq!(plan.settings.secondary_windows, SecondaryWindows::Exclude);
}

#[test]
fn plan_clamps_the_rate() {
    assert_eq!(plan_video("monitor:1", 0, &desktop()).unwrap().fps, 1);
    assert_eq!(plan_video("monitor:1", 0, &desktop()).unwrap().frame_interval_ms, 1000);
    assert_eq!(plan_video("monitor:1", 999, &desktop()).unwrap().fps, 60);
}

#[test]
fn plan_errors() {
    let env = desktop();
    assert_eq!(plan_video("window:0", 30, &env), Err(CaptureError::TargetNotFound));
    assert_eq!(plan_video("monitor:5", 30, &env), Err(CaptureError::TargetNotFound));
    assert_eq!(plan_video("window", 30, &env), Err(CaptureError::InvalidTarget));
    assert_eq!(plan_video("tab:1", 30, &env), Err(CaptureError::InvalidTarget));
    assert_eq!(plan_video("monitor:one", 30, &env), Err(CaptureError::InvalidTarget));
}

#[test]
fn packed_rows_are_reformatted() {
    // 2 x 2, no padding
    let raw = [
        1u8, 2, 3, 0, 4, 5, 6, 0, //
        7, 8, 9, 0, 10, 11, 12, 0,
    ];
    assert_eq!(bgra_to_rgb(&raw, 2, 2, 8), vec![3, 2, 1, 6, 5, 4, 9, 8, 7, 12, 11, 10]);
}

#[test]
fn row_padding_is_skipped() {
    // 1 x 3 pixels, each row padded to 8 bytes
    let raw = [
        1u8, 2, 3, 0, 99, 99, 99, 99, //
        4, 5, 6, 0, 99, 99, 99, 99, //
        7, 8, 9, 0, 99, 99, 99, 99,
    ];
    assert_eq!(bgra_to_rgb(&raw, 1, 3, 8), vec![3, 2, 1, 6, 5, 4, 9, 8, 7]);
    let job = frame_job(&raw, 1, 3).unwrap();
    assert_eq!(job.pixels, vec![3, 2, 1, 6, 5, 4, 9, 8, 7]);
    assert_eq!(job.width, 1);
    assert_eq!(job.height, 3);
    assert_eq!(job.pitch, 3);
    assert_eq!(job.quality, FRAME_JPEG_QUALITY);
    assert_eq!(job.subsampling, ChromaSubsampling::Sub2x2);
}

#[test]
fn the_last_row_may_lack_its_padding() {
    // 1 x 2 pixels, stride 6 from a buffer of 12 bytes
    let raw = [1u8, 2, 3, 0, 99, 99, 4, 5, 6, 0, 99, 99];
    assert_eq!(frame_job(&raw, 1, 2).unwrap().pixels, vec![3, 2, 1, 6, 5, 4]);
    assert_eq!(bgra_to_rgb(&raw[..10], 1, 2, 6), vec![3, 2, 1, 6, 5, 4]);
}

#[test]
fn frames_without_area_or_with_short_buffers_are_dropped() {
    let raw = [0u8; 32];
    assert!(frame_job(&raw, 0, 2).is_none());
    assert!(frame_job(&raw, 2, 0).is_none());
    assert!(frame_job(&raw, 0, 0).is_none());
    // 3 x 3 needs rows of 12 bytes; 32 / 3 = 10
    assert!(frame_job(&raw, 3, 3).is_none());
    assert!(frame_job(&raw[..0], 1, 1).is_none());
    assert!(frame_job(&raw, 2, 4).is_some());
    assert!(frame_job(&raw, 8, 1).is_some());
    assert!(frame_job(&raw, 9, 1).is_none());
}

#[test]
fn images_without_area_have_no_pixels() {
    assert_eq!(bgra_to_rgb(&[], 0, 0, 0), Vec::<u8>::new());
    assert_eq!(bgra_to_rgb(&[1, 2, 3, 4], 0, 5, 4), Vec::<u8>::new());
    assert_eq!(bgra_to_rgb(&[1, 2, 3, 4], 5, 0, 4), Vec::<u8>::new());
}

#[test]
fn frame_payload_carries_the_jpeg_as_base64() {
    let payload = frame_payload(&[0xff, 0xd8, 0xff, 0xe0], 640, 480, 1_700_000_000_123).unwrap();
    assert_eq!(payload.data, "/9j/4A==");
    assert_eq!(payload.width, 640);
    assert_eq!(payload.height, 480);
    assert_eq!(payload.timestamp_ms, 1_700_000_000_123);
}
