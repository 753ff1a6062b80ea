use capture_core::audio::acquire::{
    after_process_loopback, audio_tier, session_notices, stream_format, AfterProcessLoopback,
    LoopbackMode, LoopbackScope,
};
use capture_core::error::CaptureError;
use capture_core::session::{
    start_capture, step_is_performed, stop_capture, switch_capture_target, Controller, Phase,
    SessionEvent, Step,
};
use capture_core::video::frames::VideoSession;
use capture_core::video::plan::{Environment, SecondaryWindows, VideoSource};

type Ctl = Controller<&'static str, &'static str>;
type Steps = Vec<Step<&'static str, &'static str>>;

const OWN_PID: u32 = 777;

fn desktop() -> Environment {
    Environment {
        window_handles: vec![10, 12345, 500],
        monitor_count: 1,
        border_toggle_supported: false,
    }
}

fn start(ctl: &mut Ctl, id: &str, audio: bool, pid: u32) -> Result<Steps, CaptureError> {
    start_capture(ctl, id, 30, audio, pid, OWN_PID, &desktop())
}

fn running(video: &'static str, audio: Option<&'static str>) -> Ctl {
    let mut ctl = Controller::new(true);
    start(&mut ctl, "monitor:0", audio.is_some(), 0).unwrap();
    assert_eq!(ctl.phase(), Phase::Starting);
    let rejected = ctl.session_opened(video, audio);
    assert!(rejected.is_empty());
    assert_eq!(ctl.phase(), Phase::Streaming);
    ctl
}

fn names(steps: &[Step<&'static str, &'static str>]) -> Vec<String> {
    steps
        .iter()
        .map(|step| match step {
            Step::StopAudio(a) => format!("stop-audio {}", a),
            Step::StopVideo(v) => format!("stop-video {}", v),
            Step::OpenVideo(plan) => match plan.source {
                VideoSource::Window { handle, .. } => format!("open window {}", handle),
                VideoSource::Monitor { index } => format!("open monitor {}", index),
            },
            Step::SpawnAudio(scope) => match scope.mode {
                LoopbackMode::IncludeTargetProcessTree => format!("spawn only {}", scope.process_id),
                LoopbackMode::ExcludeTargetProcessTree => format!("spawn all but {}", scope.process_id),
            },
        })
        .collect()
}

fn idle(ctl: &Ctl) -> bool {
    ctl.phase() == Phase::Idle && !ctl.is_running() && !ctl.has_video() && !ctl.has_audio()
}

#[test]
fn a_fresh_controller_is_idle() {
    let ctl: Ctl = Controller::new(true);
    assert!(ctl.is_supported());
    assert!(idle(&ctl));
}

#[test]
fn start_plans_video_then_audio() {
    let mut ctl: Ctl = Controller::new(true);
    let steps = start(&mut ctl, "window:12345", true, 12345).unwrap();
    assert_eq!(names(&steps), vec!["open window 12345", "spawn only 12345"]);
    match &steps[0] {
        Step::OpenVideo(plan) => {
            assert_eq!(plan.fps, 30);
            assert_eq!(plan.frame_interval_ms, 33);
            assert_eq!(plan.source, VideoSource::Window { handle: 12345, position: 1 });
            assert_eq!(plan.settings.secondary_windows, SecondaryWindows::Exclude);
        }
        _ => panic!("the first step opens the video"),
    }
    // nothing counts as running until the handles are reported
    assert!(!ctl.is_running());
    assert_eq!(ctl.phase(), Phase::Starting);
    assert!(ctl.session_opened("v1", Some("a1")).is_empty());
    assert!(ctl.is_running() && ctl.has_video() && ctl.has_audio());
}

#[test]
fn start_without_audio_spawns_no_thread() {
    let mut ctl: Ctl = Controller::new(true);
    let steps = start_capture(&mut ctl, "monitor:0", 60, false, 0, OWN_PID, &desktop()).unwrap();
    assert_eq!(names(&steps), vec!["open monitor 0"]);
    assert!(ctl.session_opened("v1", None).is_empty());
    assert!(ctl.is_running() && ctl.has_video() && !ctl.has_audio());
}

#[test]
fn start_while_running_is_refused_and_changes_nothing() {
    let mut ctl = running("v1", Some("a1"));
    assert_eq!(start(&mut ctl, "monitor:0", true, 0).err(), Some(CaptureError::AlreadyRunning));
    assert!(ctl.is_running() && ctl.has_video() && ctl.has_audio());
    // also for a target that does not exist, and for one that cannot be read
    assert_eq!(start(&mut ctl, "window:0", true, 0).err(), Some(CaptureError::AlreadyRunning));
    assert_eq!(start(&mut ctl, "bogus", true, 0).err(), Some(CaptureError::AlreadyRunning));
    assert_eq!(ctl.phase(), Phase::Streaming);
    // the session that was running is the one that a stop releases
    assert_eq!(names(&stop_capture(&mut ctl).unwrap()), vec!["stop-audio a1", "stop-video v1"]);
}

#[test]
fn of_two_overlapping_starts_only_the_first_is_admitted() {
    let mut ctl: Ctl = Controller::new(true);
    let first = start(&mut ctl, "window:12345", true, 12345).unwrap();
    assert_eq!(names(&first), vec!["open window 12345", "spawn only 12345"]);
    // the second start comes before the first has reported
    assert_eq!(start(&mut ctl, "monitor:0", true, 0).err(), Some(CaptureError::AlreadyRunning));
    assert_eq!(start(&mut ctl, "window:10", false, 0).err(), Some(CaptureError::AlreadyRunning));
    assert_eq!(ctl.phase(), Phase::Starting);
    assert!(ctl.session_opened("v1", Some("a1")).is_empty());
    assert_eq!(start(&mut ctl, "monitor:0", true, 0).err(), Some(CaptureError::AlreadyRunning));
    assert_eq!(names(&stop_capture(&mut ctl).unwrap()), vec!["stop-audio a1", "stop-video v1"]);
}

#[test]
fn a_failed_start_leaves_no_session() {
    let mut ctl: Ctl = Controller::new(true);
    assert_eq!(start(&mut ctl, "window:0", true, 0).err(), Some(CaptureError::TargetNotFound));
    assert_eq!(start(&mut ctl, "window:zero", true, 0).err(), Some(CaptureError::InvalidTarget));
    assert!(idle(&ctl));
}

#[test]
fn a_start_whose_open_fails_leaves_no_session() {
    let mut ctl: Ctl = Controller::new(true);
    start(&mut ctl, "monitor:0", true, 0).unwrap();
    assert!(ctl.open_failed().is_empty());
    assert!(idle(&ctl));
    assert!(start(&mut ctl, "monitor:0", true, 0).is_ok());
}

#[test]
fn stop_ends_audio_before_video_and_keeps_nothing() {
    let mut ctl = running("v1", Some("a1"));
    let steps = stop_capture(&mut ctl).unwrap();
    assert_eq!(names(&steps), vec!["stop-audio a1", "stop-video v1"]);
    assert!(!ctl.is_running() && !ctl.has_video() && !ctl.has_audio());
    assert_eq!(ctl.phase(), Phase::Closing);
    ctl.teardown_done();
    assert!(idle(&ctl));
}

#[test]
fn a_start_during_the_teardown_of_a_stop_is_refused() {
    let mut ctl = running("v1", Some("a1"));
    let steps = stop_capture(&mut ctl).unwrap();
    assert_eq!(steps.len(), 2);
    assert_eq!(start(&mut ctl, "monitor:0", true, 0).err(), Some(CaptureError::AlreadyRunning));
    // a second stop has nothing to hand out and does not end the teardown
    assert!(stop_capture(&mut ctl).unwrap().is_empty());
    assert_eq!(ctl.phase(), Phase::Closing);
    ctl.teardown_done();
    assert!(start(&mut ctl, "monitor:0", true, 0).is_ok());
}

#[test]
fn stop_without_a_session_succeeds_with_nothing_to_do() {
    let mut ctl: Ctl = Controller::new(true);
    assert!(stop_capture(&mut ctl).unwrap().is_empty());
    assert!(idle(&ctl));
    let mut video_only = running("v1", None);
    assert_eq!(names(&stop_capture(&mut video_only).unwrap()), vec!["stop-video v1"]);
    video_only.teardown_done();
    assert!(stop_capture(&mut video_only).unwrap().is_empty());
    assert!(idle(&video_only));
}

#[test]
fn start_on_the_same_target_succeeds_after_stop() {
    let mut ctl: Ctl = Controller::new(true);
    for round in 0..3 {
        let steps = start(&mut ctl, "window:12345", true, 12345).unwrap();
        assert_eq!(names(&steps), vec!["open window 12345", "spawn only 12345"], "{}", round);
        assert!(ctl.session_opened("v", Some("a")).is_empty());
        assert_eq!(names(&stop_capture(&mut ctl).unwrap()), vec!["stop-audio a", "stop-video v"]);
        ctl.teardown_done();
        assert!(idle(&ctl));
    }
}

#[test]
fn a_stop_cancels_a_start_in_flight() {
    let mut ctl: Ctl = Controller::new(true);
    start(&mut ctl, "monitor:0", true, 0).unwrap();
    assert!(stop_capture(&mut ctl).unwrap().is_empty());
    assert_eq!(ctl.phase(), Phase::Cancelled);
    // reporting a teardown that is not in flight changes nothing
    ctl.teardown_done();
    assert_eq!(ctl.phase(), Phase::Cancelled);
    assert_eq!(start(&mut ctl, "monitor:0", true, 0).err(), Some(CaptureError::AlreadyRunning));
    // what the cancelled start opened is handed back to be stopped
    assert_eq!(names(&ctl.session_opened("v1", Some("a1"))), vec!["stop-audio a1", "stop-video v1"]);
    assert_eq!(ctl.phase(), Phase::Closing);
    assert!(!ctl.is_running() && !ctl.has_video() && !ctl.has_audio());
    ctl.teardown_done();
    assert!(idle(&ctl));
}

#[test]
fn a_cancelled_start_that_fails_is_over() {
    let mut ctl: Ctl = Controller::new(true);
    start(&mut ctl, "monitor:0", true, 0).unwrap();
    stop_capture(&mut ctl).unwrap();
    assert!(ctl.open_failed().is_empty());
    assert!(idle(&ctl));
}

#[test]
fn switch_without_a_session_is_refused() {
    let mut ctl: Ctl = Controller::new(true);
    let failure = switch_capture_target(&mut ctl, "monitor:0", 30, 0, OWN_PID, &desktop()).unwrap_err();
    assert_eq!(failure.error, CaptureError::NotRunning);
    assert!(failure.steps.is_empty());
    assert!(idle(&ctl));
}

#[test]
fn switch_releases_the_old_session_before_it_starts_the_new_one() {
    let mut ctl = running("v1", Some("a1"));
    let steps = switch_capture_target(&mut ctl, "monitor:0", 60, 0, OWN_PID, &desktop()).unwrap();
    assert_eq!(
        names(&steps),
        vec!["stop-video v1", "stop-audio a1", "spawn all but 777", "open monitor 0"]
    );
    assert_eq!(ctl.phase(), Phase::Starting);
    assert!(!ctl.has_video() && !ctl.has_audio());
    assert!(ctl.session_opened("v2", Some("a2")).is_empty());
    assert!(ctl.is_running() && ctl.has_video() && ctl.has_audio());
}

#[test]
fn switch_starts_audio_even_where_none_ran() {
    let mut ctl = running("v1", None);
    let steps = switch_capture_target(&mut ctl, "window:500", 30, 4321, OWN_PID, &desktop()).unwrap();
    assert_eq!(names(&steps), vec!["stop-video v1", "spawn only 4321", "open window 500"]);
}

#[test]
fn two_switches_in_succession_never_hold_two_audio_threads() {
    let mut ctl = running("v1", Some("a1"));
    let first = switch_capture_target(&mut ctl, "monitor:0", 30, 0, OWN_PID, &desktop()).unwrap();
    assert_eq!(
        names(&first),
        vec!["stop-video v1", "stop-audio a1", "spawn all but 777", "open monitor 0"]
    );
    assert!(!ctl.has_audio());
    assert!(ctl.session_opened("v2", Some("a2")).is_empty());
    let second = switch_capture_target(&mut ctl, "window:10", 30, 10, OWN_PID, &desktop()).unwrap();
    assert_eq!(
        names(&second),
        vec!["stop-video v2", "stop-audio a2", "spawn only 10", "open window 10"]
    );
    assert!(!ctl.has_audio());
    for steps in [&first, &second] {
        let stop = steps.iter().position(|s| matches!(s, Step::StopAudio(_))).unwrap();
        let spawn = steps.iter().position(|s| matches!(s, Step::SpawnAudio(_))).unwrap();
        assert!(stop < spawn);
        assert_eq!(steps.iter().filter(|s| matches!(s, Step::SpawnAudio(_))).count(), 1);
    }
}

#[test]
fn a_second_switch_while_the_first_is_in_flight_is_refused() {
    let mut ctl = running("v1", Some("a1"));
    let first = switch_capture_target(&mut ctl, "monitor:0", 30, 0, OWN_PID, &desktop()).unwrap();
    assert_eq!(first.len(), 4);
    let second = switch_capture_target(&mut ctl, "window:10", 30, 10, OWN_PID, &desktop()).unwrap_err();
    assert_eq!(second.error, CaptureError::NotRunning);
    assert!(second.steps.is_empty());
    assert_eq!(ctl.phase(), Phase::Starting);
    // the first goes on undisturbed
    assert!(ctl.session_opened("v2", Some("a2")).is_empty());
    assert_eq!(names(&stop_capture(&mut ctl).unwrap()), vec!["stop-audio a2", "stop-video v2"]);
}

#[test]
fn switch_to_a_window_that_is_gone_ends_the_session_cleanly() {
    let mut ctl = running("v1", Some("a1"));
    let failure = switch_capture_target(&mut ctl, "window:0", 30, 0, OWN_PID, &desktop()).unwrap_err();
    assert_eq!(failure.error, CaptureError::TargetNotFound);
    assert_eq!(names(&failure.steps), vec!["stop-video v1", "stop-audio a1"]);
    assert!(!ctl.is_running() && !ctl.has_video() && !ctl.has_audio());
    assert_eq!(ctl.phase(), Phase::Closing);
    ctl.teardown_done();
    // nothing is left for a stop to do, and a start is admitted again
    assert!(stop_capture(&mut ctl).unwrap().is_empty());
    assert!(start(&mut ctl, "monitor:0", false, 0).is_ok());
}

#[test]
fn switch_to_a_malformed_id_ends_the_session_cleanly() {
    let mut ctl = running("v1", Some("a1"));
    let failure = switch_capture_target(&mut ctl, "window", 30, 0, OWN_PID, &desktop()).unwrap_err();
    assert_eq!(failure.error, CaptureError::InvalidTarget);
    assert_eq!(names(&failure.steps), vec!["stop-video v1", "stop-audio a1"]);
    assert!(!ctl.is_running() && !ctl.has_video() && !ctl.has_audio());
    ctl.teardown_done();
    assert!(idle(&ctl));
}

#[test]
fn a_switch_whose_open_fails_ends_the_session_cleanly() {
    let mut ctl = running("v1", Some("a1"));
    let steps = switch_capture_target(&mut ctl, "monitor:0", 60, 0, OWN_PID, &desktop()).unwrap();
    assert_eq!(steps.len(), 4);
    // the caller stopped the old session, started audio, failed to open the monitor,
    // and has ended the audio thread again
    assert!(ctl.open_failed().is_empty());
    assert!(idle(&ctl));
    assert!(start(&mut ctl, "monitor:0", false, 0).is_ok());
}

#[test]
fn handles_that_nobody_asked_for_are_handed_back() {
    let mut ctl = running("v1", Some("a1"));
    let rejected = ctl.session_opened("v2", Some("a2"));
    assert_eq!(names(&rejected), vec!["stop-audio a2", "stop-video v2"]);
    let rejected = ctl.session_opened("v3", None);
    assert_eq!(names(&rejected), vec!["stop-video v3"]);
    assert_eq!(ctl.phase(), Phase::Streaming);
    assert_eq!(names(&stop_capture(&mut ctl).unwrap()), vec!["stop-audio a1", "stop-video v1"]);
    let mut fresh: Ctl = Controller::new(true);
    assert_eq!(names(&fresh.session_opened("v", Some("a"))), vec!["stop-audio a", "stop-video v"]);
    assert!(idle(&fresh));
    assert!(fresh.open_failed().is_empty());
    assert!(idle(&fresh));
}

#[test]
fn a_closed_target_ends_the_session_and_keeps_the_handles_for_release() {
    let mut ctl = running("v1", Some("a1"));
    assert_eq!(ctl.on_closed(), SessionEvent::Stopped);
    assert!(!ctl.is_running());
    assert_eq!(ctl.phase(), Phase::Idle);
    assert!(ctl.has_video() && ctl.has_audio());
    // the next start releases what was left, audio first
    let steps = start(&mut ctl, "monitor:0", true, 0).unwrap();
    assert_eq!(
        names(&steps),
        vec!["stop-audio a1", "stop-video v1", "open monitor 0", "spawn all but 777"]
    );
    assert!(!ctl.has_video() && !ctl.has_audio());
}

#[test]
fn a_closed_target_is_released_by_stop() {
    let mut ctl = running("v1", Some("a1"));
    ctl.on_closed();
    let refused = switch_capture_target(&mut ctl, "monitor:0", 30, 0, OWN_PID, &desktop()).unwrap_err();
    assert_eq!(refused.error, CaptureError::NotRunning);
    assert!(refused.steps.is_empty());
    assert_eq!(names(&stop_capture(&mut ctl).unwrap()), vec!["stop-audio a1", "stop-video v1"]);
    ctl.teardown_done();
    assert!(idle(&ctl));
}

#[test]
fn a_handle_that_closes_during_a_switch_does_not_end_the_new_session() {
    let mut ctl = running("v1", Some("a1"));
    switch_capture_target(&mut ctl, "monitor:0", 30, 0, OWN_PID, &desktop()).unwrap();
    // stopping the old handle makes it report that it closed
    assert_eq!(ctl.on_closed(), SessionEvent::Stopped);
    assert_eq!(ctl.phase(), Phase::Starting);
    assert!(ctl.session_opened("v2", Some("a2")).is_empty());
    assert!(ctl.is_running());
}

#[test]
fn every_operation_fails_without_native_capture() {
    let mut ctl: Ctl = Controller::new(false);
    assert!(!ctl.is_supported());
    assert_eq!(start(&mut ctl, "monitor:0", true, 0).err(), Some(CaptureError::PlatformUnsupported));
    let failure = switch_capture_target(&mut ctl, "monitor:0", 30, 0, OWN_PID, &desktop()).unwrap_err();
    assert_eq!(failure.error, CaptureError::PlatformUnsupported);
    assert!(failure.steps.is_empty());
    assert_eq!(stop_capture(&mut ctl).err(), Some(CaptureError::PlatformUnsupported));
    assert_eq!(names(&ctl.session_opened("v", Some("a"))), vec!["stop-audio a", "stop-video v"]);
    assert!(idle(&ctl));
}

#[test]
fn teardown_steps_are_performed_whatever_failed_before() {
    let mut ctl = running("v1", Some("a1"));
    let steps = switch_capture_target(&mut ctl, "monitor:0", 60, 0, OWN_PID, &desktop()).unwrap();
    let performed: Vec<bool> = steps.iter().map(|s| step_is_performed(s, true)).collect();
    assert_eq!(performed, vec![true, true, false, false]);
    let performed: Vec<bool> = steps.iter().map(|s| step_is_performed(s, false)).collect();
    assert_eq!(performed, vec![true, true, true, true]);
}

#[test]
fn event_names() {
    assert_eq!(SessionEvent::Frame.name(), "capture-frame");
    assert_eq!(SessionEvent::Audio.name(), "capture-audio");
    assert_eq!(SessionEvent::Stopped.name(), "capture-stopped");
    assert_eq!(SessionEvent::AudioInfo.name(), "wasapi-info");
}

#[test]
fn window_share_at_30_frames_a_second() {
    let mut ctl: Ctl = Controller::new(true);
    let steps = start(&mut ctl, "window:12345", true, 12345).unwrap();
    let plan = match &steps[0] {
        Step::OpenVideo(plan) => *plan,
        _ => panic!("the first step opens the video"),
    };
    assert_eq!(
        steps.iter().filter_map(|s| match s {
            Step::SpawnAudio(scope) => Some(*scope),
            _ => None,
        }).collect::<Vec<LoopbackScope>>(),
        vec![LoopbackScope { process_id: 12345, mode: LoopbackMode::IncludeTargetProcessTree }]
    );
    assert!(ctl.session_opened("v1", Some("a1")).is_empty());
    // frames arrive every millisecond; they leave no closer than 33.3 ms apart
    let mut video = VideoSession::new(plan.fps, 0);
    let mut emitted = Vec::new();
    for now in 1..=1000u64 {
        if video.on_frame(now) {
            emitted.push(now);
        }
    }
    assert_eq!(&emitted[..4], &[34, 68, 102, 136]);
    assert!(emitted.windows(2).all(|pair| (pair[1] - pair[0]) * 30 >= 1000));
    assert!(emitted.len() <= 30);
    // stop: both are released, and nothing is emitted afterwards
    assert_eq!(names(&stop_capture(&mut ctl).unwrap()), vec!["stop-audio a1", "stop-video v1"]);
    ctl.teardown_done();
    video.on_closed();
    assert_eq!(ctl.on_closed(), SessionEvent::Stopped);
    assert_eq!(SessionEvent::Stopped.name(), "capture-stopped");
    assert!(!video.on_frame(5_000));
    assert!(idle(&ctl));
}

#[test]
fn monitor_share_on_a_host_without_process_loopback() {
    let mut ctl: Ctl = Controller::new(true);
    let steps = start_capture(&mut ctl, "monitor:0", 60, true, 0, OWN_PID, &desktop()).unwrap();
    assert_eq!(names(&steps), vec!["open monitor 0", "spawn all but 777"]);
    let scope = LoopbackScope { process_id: OWN_PID, mode: LoopbackMode::ExcludeTargetProcessTree };
    // the activation fails on this host, and the regular loopback starts
    assert_eq!(after_process_loopback(false), AfterProcessLoopback::FallBack);
    let tier = audio_tier(false, scope, Some(stream_format(48_000, 2, 32)));
    assert_eq!(
        session_notices(tier),
        vec!["WASAPI: regular loopback (process loopback unavailable), 48000Hz 2ch 32bit"]
    );
}
