//! The session controller.
//!
//! At most one video session and one audio session exist at a time. The
//! controller owns their handles and decides, for each control operation,
//! whether it is admitted and which steps carry it out. The caller performs
//! the steps in the order given and reports back.
//!
//! Between the moment steps are handed out and the moment the caller reports,
//! an operation is in flight. While one is, no start and no switch is
//! admitted, and a stop hands out nothing: steps are handed out one list at a
//! time, so no two callers ever stop or start anything at once.
//!
//! The controller is generic in the handles: `Vid` stands for an open capture
//! handle, `Aud` for a running audio thread with its stop flag. It never
//! looks inside one. A handle leaves the controller in exactly one step of one
//! list, so each is stopped once.

use crate::audio::acquire::{loopback_scope, spec_loopback_scope, LoopbackScope};
use crate::error::CaptureError;
use crate::video::plan::{plan_video, spec_plan_video, Environment, VideoPlan};
use vstd::prelude::*;

verus! {

/// One step of carrying out a control operation.
#[derive(Debug)]
pub enum Step<Vid, Aud> {
    /// Set the audio thread's stop flag, then wait until the thread has
    /// ended.
    StopAudio(Aud),
    /// Stop the capture handle.
    StopVideo(Vid),
    /// Open a capture handle as planned.
    OpenVideo(VideoPlan),
    /// Start an audio thread for this scope.
    SpawnAudio(LoopbackScope),
}

/// Whether a step of a list is performed, given whether a step before it has
/// failed: what stops something is performed in any case, so that a teardown
/// always runs to its end; what opens or starts something is performed only
/// while nothing has failed.
pub fn step_is_performed<Vid, Aud>(step: &Step<Vid, Aud>, failed: bool) -> (perform: bool)
    ensures
        perform == (step is StopAudio || step is StopVideo || !failed),
{
    match step {
        Step::StopAudio(_) => true,
        Step::StopVideo(_) => true,
        Step::OpenVideo(_) => !failed,
        Step::SpawnAudio(_) => !failed,
    }
}

/// Where the controller stands.
#[derive(Clone, Copy, Debug, PartialEq, Eq, Structural)]
pub enum Phase {
    /// No session is active and no operation is in flight.
    Idle,
    /// A start or a switch was admitted; its steps are being performed.
    Starting,
    /// A stop arrived while a start or a switch was in flight: whatever that
    /// operation opens will be handed back to be stopped.
    Cancelled,
    /// A session is active.
    Streaming,
    /// Handles were handed out to be stopped; the teardown is being
    /// performed.
    Closing,
}

/// What the controller holds.
pub struct SessionState<Vid, Aud> {
    /// The platform has native capture.
    pub supported: bool,
    pub phase: Phase,
    /// The open capture handle, if any.
    pub video: Option<Vid>,
    /// The running audio thread, if any.
    pub audio: Option<Aud>,
}

/// At most one step: the stop of an audio thread, where one is held.
pub open spec fn audio_stop<Vid, Aud>(audio: Option<Aud>) -> Seq<Step<Vid, Aud>> {
    match audio {
        Some(a) => seq![Step::StopAudio(a)],
        None => Seq::empty(),
    }
}

/// At most one step: the stop of a capture handle, where one is held.
pub open spec fn video_stop<Vid, Aud>(video: Option<Vid>) -> Seq<Step<Vid, Aud>> {
    match video {
        Some(v) => seq![Step::StopVideo(v)],
        None => Seq::empty(),
    }
}

/// At most one step: the start of an audio thread, where one was asked for.
pub open spec fn audio_spawn<Vid, Aud>(scope: Option<LoopbackScope>) -> Seq<Step<Vid, Aud>> {
    match scope {
        Some(s) => seq![Step::SpawnAudio(s)],
        None => Seq::empty(),
    }
}

impl<Vid, Aud> SessionState<Vid, Aud> {
    /// A session is active.
    pub open spec fn running(self) -> bool {
        self.phase == Phase::Streaming
    }

    /// An operation is in flight: steps were handed out and the caller has
    /// not reported yet.
    pub open spec fn in_flight(self) -> bool {
        self.phase == Phase::Starting || self.phase == Phase::Cancelled || self.phase
            == Phase::Closing
    }

    /// No handle is held.
    pub open spec fn vacant(self) -> bool {
        self.video is None && self.audio is None
    }

    /// No session is active, no operation is in flight and no handle is
    /// held.
    pub open spec fn idle(self) -> bool {
        self.phase == Phase::Idle && self.vacant()
    }

    /// What every state of a controller satisfies: while an operation is in
    /// flight the handles are with the caller, an active session has a
    /// capture handle, and a platform without capture stays idle.
    pub open spec fn wf(self) -> bool {
        &&& self.in_flight() ==> self.vacant()
        &&& self.running() ==> self.video is Some
        &&& !self.supported ==> self.idle()
    }

    /// The state without its handles, in the phase `phase`.
    pub open spec fn emptied(self, phase: Phase) -> Self {
        SessionState { supported: self.supported, phase, video: None, audio: None }
    }

    /// The state in the phase `phase`, holding what it held.
    pub open spec fn moved(self, phase: Phase) -> Self {
        SessionState { supported: self.supported, phase, video: self.video, audio: self.audio }
    }

    /// The state with a session on the given handles.
    pub open spec fn occupied(self, video: Vid, audio: Option<Aud>) -> Self {
        SessionState {
            supported: self.supported,
            phase: Phase::Streaming,
            video: Some(video),
            audio,
        }
    }

    /// The phase after what is held was handed out to be stopped: a teardown
    /// is in flight where anything was held.
    pub open spec fn phase_after_release(self) -> Phase {
        if self.vacant() {
            Phase::Idle
        } else {
            Phase::Closing
        }
    }

    /// The steps that release what is held when a session is stopped: the
    /// audio thread is ended before the capture handle is stopped.
    pub open spec fn stop_steps(self) -> Seq<Step<Vid, Aud>> {
        audio_stop(self.audio) + video_stop(self.video)
    }

    /// The steps that release what is held when the target is switched: the
    /// capture handle is stopped, then the audio thread is ended.
    pub open spec fn switch_teardown(self) -> Seq<Step<Vid, Aud>> {
        video_stop(self.video) + audio_stop(self.audio)
    }

    /// Why a start is refused in this state, whatever the target: a session
    /// is active, or an operation is in flight.
    pub open spec fn start_refusal(self) -> Option<CaptureError> {
        if !self.supported {
            Some(CaptureError::PlatformUnsupported)
        } else if self.phase != Phase::Idle {
            Some(CaptureError::AlreadyRunning)
        } else {
            None
        }
    }

    /// Why a switch is refused in this state, whatever the target: no
    /// session is active that could be switched.
    pub open spec fn switch_refusal(self) -> Option<CaptureError> {
        if !self.supported {
            Some(CaptureError::PlatformUnsupported)
        } else if self.phase != Phase::Streaming {
            Some(CaptureError::NotRunning)
        } else {
            None
        }
    }

    /// The error of a start for which the target resolved as `plan`.
    pub open spec fn start_error(self, plan: Result<VideoPlan, CaptureError>) -> Option<
        CaptureError,
    > {
        match self.start_refusal() {
            Some(e) => Some(e),
            None => match plan {
                Err(e) => Some(e),
                Ok(_) => None,
            },
        }
    }

    /// The error of a switch for which the target resolved as `plan`.
    pub open spec fn switch_error(self, plan: Result<VideoPlan, CaptureError>) -> Option<
        CaptureError,
    > {
        match self.switch_refusal() {
            Some(e) => Some(e),
            None => match plan {
                Err(e) => Some(e),
                Ok(_) => None,
            },
        }
    }

    /// The steps of an admitted start: what was left over from a session
    /// that the system closed is released first, then the capture handle is
    /// opened, then the audio thread is started, if audio was asked for.
    pub open spec fn start_steps(self, plan: VideoPlan, audio: Option<LoopbackScope>) -> Seq<
        Step<Vid, Aud>,
    > {
        self.stop_steps() + seq![Step::OpenVideo(plan)] + audio_spawn(audio)
    }

    /// The steps of an admitted switch: the old session is released, then
    /// the new audio thread is started, then the new capture handle is
    /// opened.
    pub open spec fn switch_steps(self, plan: VideoPlan, scope: LoopbackScope) -> Seq<
        Step<Vid, Aud>,
    > {
        self.switch_teardown() + seq![Step::SpawnAudio(scope), Step::OpenVideo(plan)]
    }

    /// The state after a start that ended as `error` says: a start that
    /// fails changes nothing; an admitted one is in flight.
    pub open spec fn after_start(self, error: Option<CaptureError>) -> Self {
        match error {
            Some(_) => self,
            None => self.emptied(Phase::Starting),
        }
    }

    /// The steps that a switch hands out where it fails: none where it is
    /// refused, the teardown of the old session where the new target cannot
    /// be had.
    pub open spec fn failed_switch_steps(self) -> Seq<Step<Vid, Aud>> {
        if self.switch_refusal() is Some {
            Seq::empty()
        } else {
            self.switch_teardown()
        }
    }

    /// The state after a switch that ended as `error` says: a refused switch
    /// changes nothing; a switch to a target that cannot be had ends the
    /// session, and its teardown is in flight; an admitted one hands out the
    /// old handles and is in flight.
    pub open spec fn after_switch(self, error: Option<CaptureError>) -> Self {
        match error {
            Some(_) => if self.switch_refusal() is Some {
                self
            } else {
                self.emptied(self.phase_after_release())
            },
            None => self.emptied(Phase::Starting),
        }
    }

    /// The steps that a stop hands out: what is held, unless an operation is
    /// in flight, which has the handles itself.
    pub open spec fn stop_result_steps(self) -> Seq<Step<Vid, Aud>> {
        if self.in_flight() {
            Seq::empty()
        } else {
            self.stop_steps()
        }
    }

    /// The state after a stop. A start or switch in flight is cancelled; a
    /// teardown in flight goes on; otherwise what is held is handed out and
    /// no session is active.
    pub open spec fn after_stop(self) -> Self {
        match self.phase {
            Phase::Starting => self.moved(Phase::Cancelled),
            Phase::Cancelled => self,
            Phase::Closing => self,
            _ => self.emptied(self.phase_after_release()),
        }
    }

    /// New handles are taken in: they are those of the start or switch in
    /// flight, and no handle would be displaced.
    pub open spec fn accepts(self) -> bool {
        self.supported && self.phase == Phase::Starting && self.vacant()
    }

    /// The state after new handles were offered. Handles that are not taken
    /// in change nothing, but that the teardown of a cancelled operation is
    /// then in flight.
    pub open spec fn after_opened(self, video: Vid, audio: Option<Aud>) -> Self {
        if self.accepts() {
            self.occupied(video, audio)
        } else if self.phase == Phase::Cancelled {
            self.moved(Phase::Closing)
        } else {
            self
        }
    }

    /// The state after the caller reported that it could not open what a
    /// start or switch asked for, and has stopped what it did open.
    pub open spec fn after_open_failed(self) -> Self {
        if self.phase == Phase::Starting || self.phase == Phase::Cancelled {
            self.emptied(self.phase_after_release())
        } else {
            self
        }
    }

    /// The steps that a failed opening hands out: normally none, since the
    /// operation in flight holds nothing.
    pub open spec fn open_failed_steps(self) -> Seq<Step<Vid, Aud>> {
        if self.phase == Phase::Starting || self.phase == Phase::Cancelled {
            self.stop_steps()
        } else {
            Seq::empty()
        }
    }

    /// The state after the caller reported that a teardown is done.
    pub open spec fn after_teardown_done(self) -> Self {
        if self.phase == Phase::Closing {
            self.moved(Phase::Idle)
        } else {
            self
        }
    }

    /// The state after the system took the target away: an active session
    /// has ended, and what is held stays held until it is released.
    pub open spec fn closed(self) -> Self {
        if self.phase == Phase::Streaming {
            self.moved(Phase::Idle)
        } else {
            self
        }
    }
}

/// A switch that failed, with the steps that are still to be performed.
#[derive(Debug)]
pub struct SwitchFailure<Vid, Aud> {
    pub error: CaptureError,
    pub steps: Vec<Step<Vid, Aud>>,
}

/// What is emitted to the user interface.
#[derive(Clone, Copy, Debug, PartialEq, Eq, Structural)]
pub enum SessionEvent {
    /// One video frame.
    Frame,
    /// One audio buffer.
    Audio,
    /// The session ended.
    Stopped,
    /// Which kind of audio loopback is active.
    AudioInfo,
}

impl SessionEvent {
    /// The name the event is emitted under.
    pub open spec fn spec_name(self) -> Seq<char> {
        match self {
            SessionEvent::Frame => "capture-frame"@,
            SessionEvent::Audio => "capture-audio"@,
            SessionEvent::Stopped => "capture-stopped"@,
            SessionEvent::AudioInfo => "wasapi-info"@,
        }
    }

    /// The name the event is emitted under.
    pub fn name(self) -> (name: &'static str)
        ensures
            name@ == self.spec_name(),
    {
        match self {
            SessionEvent::Frame => "capture-frame",
            SessionEvent::Audio => "capture-audio",
            SessionEvent::Stopped => "capture-stopped",
            SessionEvent::AudioInfo => "wasapi-info",
        }
    }
}

/// The session controller.
#[derive(Debug)]
pub struct Controller<Vid, Aud> {
    supported: bool,
    phase: Phase,
    video: Option<Vid>,
    audio: Option<Aud>,
}

impl<Vid, Aud> View for Controller<Vid, Aud> {
    type V = SessionState<Vid, Aud>;

    closed spec fn view(&self) -> SessionState<Vid, Aud> {
        SessionState {
            supported: self.supported,
            phase: self.phase,
            video: self.video,
            audio: self.audio,
        }
    }
}

impl<Vid, Aud> Controller<Vid, Aud> {
    /// A controller without a session, on a platform that has native capture
    /// or has not.
    pub fn new(supported: bool) -> (controller: Self)
        ensures
            controller@.supported == supported,
            controller@.idle(),
            controller@.wf(),
    {
        Controller { supported, phase: Phase::Idle, video: None, audio: None }
    }

    pub fn is_supported(&self) -> (b: bool)
        ensures
            b == self@.supported,
    {
        self.supported
    }

    pub fn phase(&self) -> (phase: Phase)
        ensures
            phase == self@.phase,
    {
        self.phase
    }

    pub fn is_running(&self) -> (b: bool)
        ensures
            b == self@.running(),
    {
        match self.phase {
            Phase::Streaming => true,
            _ => false,
        }
    }

    pub fn has_video(&self) -> (b: bool)
        ensures
            b == self@.video is Some,
    {
        self.video.is_some()
    }

    pub fn has_audio(&self) -> (b: bool)
        ensures
            b == self@.audio is Some,
    {
        self.audio.is_some()
    }

    fn is_vacant(&self) -> (b: bool)
        ensures
            b == self@.vacant(),
    {
        self.video.is_none() && self.audio.is_none()
    }

    /// Takes out what is held, in the order of a stop, and enters `phase`.
    fn release_for_stop(&mut self, phase: Phase) -> (steps: Vec<Step<Vid, Aud>>)
        ensures
            steps@ == old(self)@.stop_steps(),
            final(self)@ == old(self)@.emptied(phase),
    {
        let mut steps: Vec<Step<Vid, Aud>> = Vec::new();
        match self.audio.take() {
            Some(a) => {
                steps.push(Step::StopAudio(a));
            },
            None => {},
        }
        match self.video.take() {
            Some(v) => {
                steps.push(Step::StopVideo(v));
            },
            None => {},
        }
        self.phase = phase;
        assert(steps@ =~= old(self)@.stop_steps());
        steps
    }

    /// Takes out what is held, in the order of a switch, and enters `phase`.
    fn release_for_switch(&mut self, phase: Phase) -> (steps: Vec<Step<Vid, Aud>>)
        ensures
            steps@ == old(self)@.switch_teardown(),
            final(self)@ == old(self)@.emptied(phase),
    {
        let mut steps: Vec<Step<Vid, Aud>> = Vec::new();
        match self.video.take() {
            Some(v) => {
                steps.push(Step::StopVideo(v));
            },
            None => {},
        }
        match self.audio.take() {
            Some(a) => {
                steps.push(Step::StopAudio(a));
            },
            None => {},
        }
        self.phase = phase;
        assert(steps@ =~= old(self)@.switch_teardown());
        steps
    }

    fn phase_after_release(&self) -> (phase: Phase)
        ensures
            phase == self@.phase_after_release(),
    {
        if self.is_vacant() {
            Phase::Idle
        } else {
            Phase::Closing
        }
    }

    /// Takes in the handles that the caller opened for the start or switch
    /// in flight. The session is active from then on.
    ///
    /// Handles are taken in only for an operation in flight that was not
    /// cancelled, and only where no handle is displaced. Otherwise the steps
    /// returned stop the handles that were offered, and the caller reports
    /// with `teardown_done` once it has performed them.
    pub fn session_opened(&mut self, video: Vid, audio: Option<Aud>) -> (rejected: Vec<
        Step<Vid, Aud>,
    >)
        ensures
            final(self)@ == old(self)@.after_opened(video, audio),
            rejected@ == if old(self)@.accepts() {
                Seq::<Step<Vid, Aud>>::empty()
            } else {
                audio_stop::<Vid, Aud>(audio) + seq![Step::StopVideo(video)]
            },
    {
        let mut rejected: Vec<Step<Vid, Aud>> = Vec::new();
        let starting = match self.phase {
            Phase::Starting => true,
            _ => false,
        };
        if self.supported && starting && self.is_vacant() {
            self.phase = Phase::Streaming;
            self.video = Some(video);
            self.audio = audio;
        } else {
            match self.phase {
                Phase::Cancelled => {
                    self.phase = Phase::Closing;
                },
                _ => {},
            }
            match audio {
                Some(a) => {
                    rejected.push(Step::StopAudio(a));
                },
                None => {},
            }
            rejected.push(Step::StopVideo(video));
            assert(rejected@ =~= audio_stop::<Vid, Aud>(audio) + seq![Step::StopVideo(video)]);
        }
        rejected
    }

    /// Takes note that the caller could not open what the start or switch in
    /// flight asked for, and has stopped whatever it did open. The operation
    /// is over and no session is active.
    ///
    /// The steps returned release what the controller still holds, which is
    /// nothing unless the caller broke the protocol; where there are any, the
    /// caller reports with `teardown_done` once it has performed them.
    pub fn open_failed(&mut self) -> (steps: Vec<Step<Vid, Aud>>)
        ensures
            final(self)@ == old(self)@.after_open_failed(),
            steps@ == old(self)@.open_failed_steps(),
    {
        match self.phase {
            Phase::Starting | Phase::Cancelled => {
                let next = self.phase_after_release();
                self.release_for_stop(next)
            },
            _ => Vec::new(),
        }
    }

    /// Takes note that the caller has performed the steps of a teardown.
    pub fn teardown_done(&mut self)
        ensures
            final(self)@ == old(self)@.after_teardown_done(),
    {
        match self.phase {
            Phase::Closing => {
                self.phase = Phase::Idle;
            },
            _ => {},
        }
    }

    /// Takes note that the system ended the video session, for instance
    /// because the captured window was closed. An active session counts as
    /// ended; what is held stays held until the next stop or start releases
    /// it. While an operation is in flight nothing changes: the handle that
    /// closed is one that the operation is stopping anyway.
    pub fn on_closed(&mut self) -> (event: SessionEvent)
        ensures
            final(self)@ == old(self)@.closed(),
            event == SessionEvent::Stopped,
    {
        match self.phase {
            Phase::Streaming => {
                self.phase = Phase::Idle;
            },
            _ => {},
        }
        SessionEvent::Stopped
    }
}

/// The audio scope of a start, if audio was asked for.
pub open spec fn spec_start_audio(
    capture_audio: bool,
    target_process_id: u32,
    own_process_id: u32,
) -> Option<LoopbackScope> {
    if capture_audio {
        Some(spec_loopback_scope(target_process_id, own_process_id))
    } else {
        None
    }
}

/// Starts a session.
///
/// The start is refused with `PlatformUnsupported` where the platform has
/// no capture, and with `AlreadyRunning` while a session is active or any
/// operation is in flight: of two starts that overlap, only the first is
/// admitted. The target is resolved against `env`; an identifier that cannot
/// be read is an `InvalidTarget`, one that is not found a `TargetNotFound`.
/// A start that fails changes nothing.
///
/// An admitted start returns its steps and is in flight. The caller performs
/// the steps in order and then reports the handles with `session_opened`, or
/// a failure with `open_failed`; only then does the session count as running.
pub fn start_capture<Vid, Aud>(
    controller: &mut Controller<Vid, Aud>,
    target_id: &str,
    fps: u32,
    capture_audio: bool,
    target_process_id: u32,
    own_process_id: u32,
    env: &Environment,
) -> (r: Result<Vec<Step<Vid, Aud>>, CaptureError>)
    ensures
        ({
            let plan = spec_plan_video(
                target_id@,
                fps,
                env.window_handles@,
                env.monitor_count,
                env.border_toggle_supported,
            );
            let error = old(controller)@.start_error(plan);
            &&& final(controller)@ == old(controller)@.after_start(error)
            &&& match r {
                Err(e) => error == Some(e),
                Ok(steps) => error is None && steps@ == old(controller)@.start_steps(
                    plan->Ok_0,
                    spec_start_audio(capture_audio, target_process_id, own_process_id),
                ),
            }
        }),
        old(controller)@.supported && old(controller)@.phase != Phase::Idle ==> r == Err::<
            Vec<Step<Vid, Aud>>,
            CaptureError,
        >(CaptureError::AlreadyRunning) && final(controller)@ == old(controller)@,
{
    if !controller.supported {
        return Err(CaptureError::PlatformUnsupported);
    }
    match controller.phase {
        Phase::Idle => {},
        _ => {
            return Err(CaptureError::AlreadyRunning);
        },
    }
    let plan = match plan_video(target_id, fps, env) {
        Ok(plan) => plan,
        Err(e) => {
            return Err(e);
        },
    };
    let mut steps = controller.release_for_stop(Phase::Starting);
    steps.push(Step::OpenVideo(plan));
    if capture_audio {
        steps.push(Step::SpawnAudio(loopback_scope(target_process_id, own_process_id)));
    }
    assert(steps@ =~= old(controller)@.start_steps(
        plan,
        spec_start_audio(capture_audio, target_process_id, own_process_id),
    ));
    Ok(steps)
}

/// Switches the active session to another target.
///
/// The switch is refused with `PlatformUnsupported` where the platform has
/// no capture, and with `NotRunning` unless a session is active: none is
/// while another operation is in flight. A refused switch changes nothing and
/// has no steps.
///
/// Otherwise the old session is given up, whatever becomes of the new one:
/// the steps, of a success as of a failure, begin with stopping the old
/// capture handle and ending the old audio thread. Where the new target
/// cannot be read or is not found, these are all the steps, the error is
/// `InvalidTarget` or `TargetNotFound`, no session is active afterwards, and
/// the caller reports with `teardown_done`. Where it is found, the steps go
/// on with the new audio thread and the new capture handle, which the caller
/// reports with `session_opened`, or with `open_failed`.
pub fn switch_capture_target<Vid, Aud>(
    controller: &mut Controller<Vid, Aud>,
    target_id: &str,
    fps: u32,
    target_process_id: u32,
    own_process_id: u32,
    env: &Environment,
) -> (r: Result<Vec<Step<Vid, Aud>>, SwitchFailure<Vid, Aud>>)
    ensures
        ({
            let plan = spec_plan_video(
                target_id@,
                fps,
                env.window_handles@,
                env.monitor_count,
                env.border_toggle_supported,
            );
            let error = old(controller)@.switch_error(plan);
            &&& final(controller)@ == old(controller)@.after_switch(error)
            &&& match r {
                Err(failure) => error == Some(failure.error) && failure.steps@ == old(
                    controller,
                )@.failed_switch_steps(),
                Ok(steps) => error is None && steps@ == old(controller)@.switch_steps(
                    plan->Ok_0,
                    spec_loopback_scope(target_process_id, own_process_id),
                ),
            }
        }),
{
    if !controller.supported {
        return Err(SwitchFailure { error: CaptureError::PlatformUnsupported, steps: Vec::new() });
    }
    match controller.phase {
        Phase::Streaming => {},
        _ => {
            return Err(SwitchFailure { error: CaptureError::NotRunning, steps: Vec::new() });
        },
    }
    match plan_video(target_id, fps, env) {
        Ok(plan) => {
            let mut steps = controller.release_for_switch(Phase::Starting);
            steps.push(Step::SpawnAudio(loopback_scope(target_process_id, own_process_id)));
            steps.push(Step::OpenVideo(plan));
            assert(steps@ =~= old(controller)@.switch_steps(
                plan,
                spec_loopback_scope(target_process_id, own_process_id),
            ));
            Ok(steps)
        },
        Err(error) => {
            let next = controller.phase_after_release();
            let steps = controller.release_for_switch(next);
            Err(SwitchFailure { error, steps })
        },
    }
}

/// Stops the session.
///
/// Fails only where the platform has no capture. Otherwise no session is
/// active afterwards. The steps returned end the audio thread first and stop
/// the capture handle after it; the caller reports with `teardown_done` once
/// it has performed them, and until then a start is refused, so that none
/// races with the teardown.
///
/// A stop that arrives while a start or switch is in flight cancels it: it
/// hands out nothing itself, and what that operation opens is handed back to
/// be stopped when it reports.
pub fn stop_capture<Vid, Aud>(controller: &mut Controller<Vid, Aud>) -> (r: Result<
    Vec<Step<Vid, Aud>>,
    CaptureError,
>)
    ensures
        match r {
            Err(e) => !old(controller)@.supported && e == CaptureError::PlatformUnsupported
                && final(controller)@ == old(controller)@,
            Ok(steps) => old(controller)@.supported && steps@ == old(
                controller,
            )@.stop_result_steps() && final(controller)@ == old(controller)@.after_stop(),
        },
{
    if !controller.supported {
        return Err(CaptureError::PlatformUnsupported);
    }
    match controller.phase {
        Phase::Starting => {
            controller.phase = Phase::Cancelled;
            Ok(Vec::new())
        },
        Phase::Cancelled => Ok(Vec::new()),
        Phase::Closing => Ok(Vec::new()),
        _ => {
            let next = controller.phase_after_release();
            let steps = controller.release_for_stop(next);
            Ok(steps)
        },
    }
}

/// Every operation keeps the controller's state well-formed.
pub proof fn lemma_operations_keep_wf<Vid, Aud>(
    state: SessionState<Vid, Aud>,
    error: Option<CaptureError>,
    video: Vid,
    audio: Option<Aud>,
)
    requires
        state.wf(),
    ensures
        state.start_refusal() is None || error is Some ==> state.after_start(error).wf(),
        state.switch_refusal() is None || error is Some ==> state.after_switch(error).wf(),
        state.after_stop().wf(),
        state.after_opened(video, audio).wf(),
        state.after_open_failed().wf(),
        state.after_teardown_done().wf(),
        state.closed().wf(),
{
}

/// While a session is active or any operation is in flight, a start is
/// refused with `AlreadyRunning`, whatever its target, and everything stays
/// as it is.
pub proof fn lemma_start_refused_while_running<Vid, Aud>(
    state: SessionState<Vid, Aud>,
    plan: Result<VideoPlan, CaptureError>,
)
    requires
        state.supported,
        state.phase != Phase::Idle,
    ensures
        state.start_error(plan) == Some(CaptureError::AlreadyRunning),
        state.after_start(state.start_error(plan)) == state,
{
}

/// Of two starts that overlap, at most one is admitted: once a start is
/// admitted, every further start is refused with `AlreadyRunning`, before the
/// first has reported and after it has reported its handles.
pub proof fn lemma_overlapping_starts<Vid, Aud>(
    state: SessionState<Vid, Aud>,
    first: VideoPlan,
    second: Result<VideoPlan, CaptureError>,
    video: Vid,
    audio: Option<Aud>,
)
    requires
        state.start_error(Ok(first)) is None,
    ensures
        ({
            let in_flight = state.after_start(None);
            let opened = in_flight.after_opened(video, audio);
            &&& in_flight.start_error(second) == Some(CaptureError::AlreadyRunning)
            &&& in_flight.after_start(in_flight.start_error(second)) == in_flight
            &&& opened.running()
            &&& opened.start_error(second) == Some(CaptureError::AlreadyRunning)
        }),
{
}

/// While an operation is in flight the controller hands out no step: a start
/// and a switch are refused and a stop has nothing to stop, so nothing is
/// stopped or started but by the one caller whose operation is in flight.
pub proof fn lemma_in_flight_hands_out_nothing<Vid, Aud>(
    state: SessionState<Vid, Aud>,
    plan: Result<VideoPlan, CaptureError>,
)
    requires
        state.supported,
        state.in_flight(),
    ensures
        state.start_error(plan) == Some(CaptureError::AlreadyRunning),
        state.switch_error(plan) == Some(CaptureError::NotRunning),
        state.failed_switch_steps() == Seq::<Step<Vid, Aud>>::empty(),
        state.after_switch(state.switch_error(plan)) == state,
        state.stop_result_steps() == Seq::<Step<Vid, Aud>>::empty(),
        state.after_stop().in_flight(),
        state.after_stop().video == state.video,
        state.after_stop().audio == state.audio,
{
}

/// A failed start changes nothing, so it leaves no session behind where
/// none was active.
pub proof fn lemma_failed_start_changes_nothing<Vid, Aud>(
    state: SessionState<Vid, Aud>,
    plan: Result<VideoPlan, CaptureError>,
)
    requires
        state.start_error(plan) is Some,
    ensures
        state.after_start(state.start_error(plan)) == state,
{
}

/// A stop of a controller that has no operation in flight hands out every
/// handle that was held, the audio thread before the capture handle, and
/// keeps none; once the teardown is reported done the controller is idle.
pub proof fn lemma_stop_releases_all<Vid, Aud>(state: SessionState<Vid, Aud>)
    requires
        !state.in_flight(),
    ensures
        state.after_stop().vacant(),
        !state.after_stop().running(),
        state.after_stop().after_teardown_done().idle(),
        state.stop_result_steps() == match (state.audio, state.video) {
            (Some(a), Some(v)) => seq![Step::StopAudio(a), Step::StopVideo(v)],
            (Some(a), None) => seq![Step::StopAudio(a)],
            (None, Some(v)) => seq![Step::StopVideo(v)],
            (None, None) => Seq::empty(),
        },
{
    assert(state.stop_steps() =~= match (state.audio, state.video) {
        (Some(a), Some(v)) => seq![Step::StopAudio(a), Step::StopVideo(v)],
        (Some(a), None) => seq![Step::StopAudio(a)],
        (None, Some(v)) => seq![Step::StopVideo(v)],
        (None, None) => Seq::empty(),
    });
}

/// After a stop whose teardown is done, a start is admitted again: it
/// succeeds for every target that resolves, and it has nothing left to
/// release. Until the teardown is reported done, a start is refused.
pub proof fn lemma_start_after_stop<Vid, Aud>(
    state: SessionState<Vid, Aud>,
    plan: VideoPlan,
    audio: Option<LoopbackScope>,
)
    requires
        state.supported,
        !state.in_flight(),
    ensures
        ({
            let stopped = state.after_stop();
            let done = stopped.after_teardown_done();
            &&& done.start_error(Ok(plan)) is None
            &&& done.start_steps(plan, audio) == seq![Step::<Vid, Aud>::OpenVideo(plan)]
                + audio_spawn::<Vid, Aud>(audio)
            &&& !state.vacant() ==> stopped.start_error(Ok(plan)) == Some(
                CaptureError::AlreadyRunning,
            )
        }),
{
    let done = state.after_stop().after_teardown_done();
    assert(done.start_steps(plan, audio) =~= seq![Step::<Vid, Aud>::OpenVideo(plan)]
        + audio_spawn::<Vid, Aud>(audio));
}

/// A stop that arrives while a start or switch is in flight cancels it: what
/// the operation opens is not taken in but handed back to be stopped, and
/// the controller is idle once that teardown is done.
pub proof fn lemma_stop_cancels_operation_in_flight<Vid, Aud>(
    state: SessionState<Vid, Aud>,
    video: Vid,
    audio: Option<Aud>,
)
    requires
        state.supported,
        state.phase == Phase::Starting,
        state.vacant(),
    ensures
        ({
            let cancelled = state.after_stop();
            let reported = cancelled.after_opened(video, audio);
            &&& !cancelled.accepts()
            &&& reported.vacant()
            &&& reported.phase == Phase::Closing
            &&& reported.after_teardown_done().idle()
            &&& cancelled.after_open_failed().idle()
        }),
{
}

/// On a platform without native capture nothing ever happens: every
/// operation is refused, no handle is taken in, and the controller stays
/// idle.
pub proof fn lemma_unsupported_stays_idle<Vid, Aud>(
    state: SessionState<Vid, Aud>,
    plan: Result<VideoPlan, CaptureError>,
    video: Vid,
    audio: Option<Aud>,
)
    requires
        !state.supported,
        state.idle(),
    ensures
        state.start_error(plan) == Some(CaptureError::PlatformUnsupported),
        state.switch_error(plan) == Some(CaptureError::PlatformUnsupported),
        state.after_start(state.start_error(plan)) == state,
        state.after_switch(state.switch_error(plan)) == state,
        state.after_opened(video, audio) == state,
        state.after_open_failed() == state,
        state.after_teardown_done() == state,
        state.closed() == state,
{
}

/// Handles that are offered never displace handles that are held: they are
/// taken in only by a controller that holds none.
pub proof fn lemma_no_handle_displaced<Vid, Aud>(
    state: SessionState<Vid, Aud>,
    video: Vid,
    audio: Option<Aud>,
)
    ensures
        state.after_opened(video, audio).video != state.video ==> state.vacant()
            && state.after_opened(video, audio).video == Some(video) && state.after_opened(
            video,
            audio,
        ).audio == audio,
        state.after_opened(video, audio).audio != state.audio ==> state.vacant()
            && state.after_opened(video, audio).video == Some(video) && state.after_opened(
            video,
            audio,
        ).audio == audio,
{
}

/// In the steps of a switch the old audio thread is ended before the new one
/// is started, and only one is started.
pub proof fn lemma_switch_ends_audio_before_spawn<Vid, Aud>(
    state: SessionState<Vid, Aud>,
    plan: VideoPlan,
    scope: LoopbackScope,
    i: int,
    j: int,
)
    requires
        0 <= i < state.switch_steps(plan, scope).len(),
        0 <= j < state.switch_steps(plan, scope).len(),
        state.switch_steps(plan, scope)[j] is SpawnAudio,
    ensures
        state.switch_steps(plan, scope)[i] is StopAudio ==> i < j,
        state.switch_steps(plan, scope)[i] is StopVideo ==> i < j,
        state.switch_steps(plan, scope)[i] is SpawnAudio ==> i == j,
        j == state.switch_steps(plan, scope).len() - 2,
{
}

/// Two switches, however close together. While the first is in flight the
/// second is refused and has no steps, so it starts no audio thread. Once the
/// first has reported, the audio thread that it started is the one that the
/// second ends, and the second ends it before it starts its own.
pub proof fn lemma_switch_twice<Vid, Aud>(
    state: SessionState<Vid, Aud>,
    first_video: Vid,
    first_audio: Aud,
    plan: VideoPlan,
    scope: LoopbackScope,
)
    requires
        state.supported,
        state.running(),
    ensures
        ({
            let begun = state.after_switch(None);
            let switched = begun.after_opened(first_video, Some(first_audio));
            &&& begun.vacant()
            &&& begun.switch_error(Ok(plan)) == Some(CaptureError::NotRunning)
            &&& begun.failed_switch_steps() == Seq::<Step<Vid, Aud>>::empty()
            &&& begun.after_switch(begun.switch_error(Ok(plan))) == begun
            &&& switched.running()
            &&& switched.video == Some(first_video)
            &&& switched.audio == Some(first_audio)
            &&& switched.switch_refusal() is None
            &&& switched.switch_steps(plan, scope) == seq![
                Step::StopVideo(first_video),
                Step::StopAudio(first_audio),
                Step::SpawnAudio(scope),
                Step::OpenVideo(plan),
            ]
            &&& switched.after_switch(None).vacant()
        }),
{
    let begun = state.after_switch(None);
    let switched = begun.after_opened(first_video, Some(first_audio));
    assert(switched.switch_steps(plan, scope) =~= seq![
        Step::StopVideo(first_video),
        Step::StopAudio(first_audio),
        Step::SpawnAudio(scope),
        Step::OpenVideo(plan),
    ]);
}

/// A switch whose new capture handle could not be opened ends cleanly too:
/// the switch had handed out the old handles, so once the failure is
/// reported no session is active, no operation is in flight and no handle is
/// held.
pub proof fn lemma_failed_open_is_clean<Vid, Aud>(state: SessionState<Vid, Aud>)
    requires
        state.supported,
        state.running(),
    ensures
        state.after_switch(None).after_open_failed().idle(),
        state.after_switch(None).open_failed_steps() == Seq::<Step<Vid, Aud>>::empty(),
{
    assert(state.after_switch(None).stop_steps() =~= Seq::<Step<Vid, Aud>>::empty());
}

/// A switch to a target that cannot be had ends the session cleanly: the
/// old capture handle and the old audio thread are handed out to be stopped,
/// nothing new is started, no handle is held afterwards, no session is
/// active, and the controller is idle once the teardown is reported done.
pub proof fn lemma_failed_switch_is_clean<Vid, Aud>(
    state: SessionState<Vid, Aud>,
    error: CaptureError,
)
    requires
        state.supported,
        state.running(),
    ensures
        state.switch_error(Err(error)) == Some(error),
        state.after_switch(Some(error)).vacant(),
        !state.after_switch(Some(error)).running(),
        state.after_switch(Some(error)).after_teardown_done().idle(),
        state.failed_switch_steps() == state.switch_teardown(),
        forall|i: int|
            0 <= i < state.switch_teardown().len() ==> !(#[trigger] state.switch_teardown()[i]
                is SpawnAudio) && !(state.switch_teardown()[i] is OpenVideo),
        state.switch_teardown().len() == (if state.video is Some {
            1int
        } else {
            0int
        }) + (if state.audio is Some {
            1int
        } else {
            0int
        }),
{
}

/// The audio threads that are alive after `step`, where `alive` were alive
/// before it and `spawned` is the thread that a spawn starts.
pub open spec fn audio_alive_after_step<Vid, Aud>(
    alive: Set<Aud>,
    step: Step<Vid, Aud>,
    spawned: Aud,
) -> Set<Aud> {
    match step {
        Step::StopAudio(a) => alive.remove(a),
        Step::SpawnAudio(_) => alive.insert(spawned),
        _ => alive,
    }
}

/// The capture handles that are open after `step`, where `open` were open
/// before it and `opened` is the handle that an opening gives.
pub open spec fn video_open_after_step<Vid, Aud>(
    open: Set<Vid>,
    step: Step<Vid, Aud>,
    opened: Vid,
) -> Set<Vid> {
    match step {
        Step::StopVideo(v) => open.remove(v),
        Step::OpenVideo(_) => open.insert(opened),
        _ => open,
    }
}

/// The audio threads that are alive once the first `done` of `steps` have
/// been performed, in order.
pub open spec fn audio_alive_at<Vid, Aud>(
    alive: Set<Aud>,
    steps: Seq<Step<Vid, Aud>>,
    spawned: Aud,
    done: int,
) -> Set<Aud>
    decreases done,
{
    if done <= 0 {
        alive
    } else {
        audio_alive_after_step(
            audio_alive_at(alive, steps, spawned, done - 1),
            steps[done - 1],
            spawned,
        )
    }
}

/// The capture handles that are open once the first `done` of `steps` have
/// been performed, in order.
pub open spec fn video_open_at<Vid, Aud>(
    open: Set<Vid>,
    steps: Seq<Step<Vid, Aud>>,
    opened: Vid,
    done: int,
) -> Set<Vid>
    decreases done,
{
    if done <= 0 {
        open
    } else {
        video_open_after_step(
            video_open_at(open, steps, opened, done - 1),
            steps[done - 1],
            opened,
        )
    }
}

/// The set holds one member at most.
pub open spec fn at_most_one<T>(set: Set<T>) -> bool {
    forall|a: T, b: T| set.contains(a) && set.contains(b) ==> a == b
}

impl<Vid, Aud> SessionState<Vid, Aud> {
    /// The audio threads that the controller holds.
    pub open spec fn held_audio(self) -> Set<Aud> {
        match self.audio {
            Some(a) => set![a],
            None => Set::empty(),
        }
    }

    /// The capture handles that the controller holds.
    pub open spec fn held_video(self) -> Set<Vid> {
        match self.video {
            Some(v) => set![v],
            None => Set::empty(),
        }
    }
}

/// While the steps of a switch are performed, two audio threads are never
/// alive at once: at every point of the list at most one is, given that the
/// threads alive at its beginning are those that the controller holds. That
/// is so whenever no operation is in flight, since every operation ends with
/// the controller holding exactly what is alive, and while one is in flight
/// no other list of steps is handed out. At the
/// end exactly the new thread is alive, and exactly the new capture handle is
/// open; once they are reported, the controller holds them and nothing else
/// is alive.
pub proof fn lemma_switch_keeps_one_audio_thread<Vid, Aud>(
    state: SessionState<Vid, Aud>,
    plan: VideoPlan,
    scope: LoopbackScope,
    spawned: Aud,
    opened: Vid,
    done: int,
)
    requires
        0 <= done <= state.switch_steps(plan, scope).len(),
    ensures
        at_most_one(
            audio_alive_at(state.held_audio(), state.switch_steps(plan, scope), spawned, done),
        ),
        at_most_one(
            video_open_at(state.held_video(), state.switch_steps(plan, scope), opened, done),
        ),
        done == state.switch_steps(plan, scope).len() ==> {
            &&& audio_alive_at(state.held_audio(), state.switch_steps(plan, scope), spawned, done)
                == set![spawned]
            &&& video_open_at(state.held_video(), state.switch_steps(plan, scope), opened, done)
                == set![opened]
            &&& state.supported ==> state.after_switch(None).after_opened(
                opened,
                Some(spawned),
            ).held_audio() == set![spawned] && state.after_switch(None).after_opened(
                opened,
                Some(spawned),
            ).held_video() == set![opened]
        },
{
    let steps = state.switch_steps(plan, scope);
    let audio0 = state.held_audio();
    let video0 = state.held_video();
    reveal_with_fuel(audio_alive_at, 5);
    reveal_with_fuel(video_open_at, 5);
    match (state.video, state.audio) {
        (Some(v), Some(a)) => {
            assert(steps =~= seq![
                Step::StopVideo(v),
                Step::StopAudio(a),
                Step::SpawnAudio(scope),
                Step::OpenVideo(plan),
            ]);
            assert(audio0.remove(a) =~= Set::<Aud>::empty());
            assert(video0.remove(v) =~= Set::<Vid>::empty());
            assert(Set::<Aud>::empty().insert(spawned) =~= set![spawned]);
            assert(Set::<Vid>::empty().insert(opened) =~= set![opened]);
        },
        (Some(v), None) => {
            assert(steps =~= seq![
                Step::StopVideo(v),
                Step::SpawnAudio(scope),
                Step::OpenVideo(plan),
            ]);
            assert(video0.remove(v) =~= Set::<Vid>::empty());
            assert(audio0 =~= Set::<Aud>::empty());
            assert(Set::<Aud>::empty().insert(spawned) =~= set![spawned]);
            assert(Set::<Vid>::empty().insert(opened) =~= set![opened]);
        },
        (None, Some(a)) => {
            assert(steps =~= seq![
                Step::StopAudio(a),
                Step::SpawnAudio(scope),
                Step::OpenVideo(plan),
            ]);
            assert(audio0.remove(a) =~= Set::<Aud>::empty());
            assert(video0 =~= Set::<Vid>::empty());
            assert(Set::<Aud>::empty().insert(spawned) =~= set![spawned]);
            assert(Set::<Vid>::empty().insert(opened) =~= set![opened]);
        },
        (None, None) => {
            assert(steps =~= seq![Step::SpawnAudio(scope), Step::OpenVideo(plan)]);
            assert(audio0 =~= Set::<Aud>::empty());
            assert(video0 =~= Set::<Vid>::empty());
            assert(Set::<Aud>::empty().insert(spawned) =~= set![spawned]);
            assert(Set::<Vid>::empty().insert(opened) =~= set![opened]);
        },
    }
}

/// While the steps of a start are performed, two audio threads are never
/// alive at once, and two capture handles are never open at once, given that
/// what is alive at the beginning is what the controller holds.
pub proof fn lemma_start_keeps_one_of_each<Vid, Aud>(
    state: SessionState<Vid, Aud>,
    plan: VideoPlan,
    audio: Option<LoopbackScope>,
    spawned: Aud,
    opened: Vid,
    done: int,
)
    requires
        0 <= done <= state.start_steps(plan, audio).len(),
    ensures
        at_most_one(
            audio_alive_at(state.held_audio(), state.start_steps(plan, audio), spawned, done),
        ),
        at_most_one(
            video_open_at(state.held_video(), state.start_steps(plan, audio), opened, done),
        ),
        done == state.start_steps(plan, audio).len() ==> {
            &&& audio_alive_at(state.held_audio(), state.start_steps(plan, audio), spawned, done)
                == (if audio is Some {
                set![spawned]
            } else {
                Set::<Aud>::empty()
            })
            &&& video_open_at(state.held_video(), state.start_steps(plan, audio), opened, done)
                == set![opened]
            &&& state.start_refusal() is None ==> {
                let reported = state.after_start(None).after_opened(
                    opened,
                    if audio is Some {
                        Some(spawned)
                    } else {
                        None
                    },
                );
                &&& reported.running()
                &&& reported.held_video() == set![opened]
                &&& reported.held_audio() == audio_alive_at(
                    state.held_audio(),
                    state.start_steps(plan, audio),
                    spawned,
                    done,
                )
            }
        },
{
    let steps = state.start_steps(plan, audio);
    let audio0 = state.held_audio();
    let video0 = state.held_video();
    reveal_with_fuel(audio_alive_at, 5);
    reveal_with_fuel(video_open_at, 5);
    let tail: Seq<Step<Vid, Aud>> = seq![Step::OpenVideo(plan)] + audio_spawn(audio);
    assert(steps =~= state.stop_steps() + tail);
    assert(Set::<Aud>::empty().insert(spawned) =~= set![spawned]);
    assert(Set::<Vid>::empty().insert(opened) =~= set![opened]);
    match (state.audio, state.video) {
        (Some(a), Some(v)) => {
            assert(state.stop_steps() =~= seq![Step::StopAudio(a), Step::StopVideo(v)]);
            assert(audio0.remove(a) =~= Set::<Aud>::empty());
            assert(video0.remove(v) =~= Set::<Vid>::empty());
        },
        (Some(a), None) => {
            assert(state.stop_steps() =~= seq![Step::StopAudio(a)]);
            assert(audio0.remove(a) =~= Set::<Aud>::empty());
            assert(video0 =~= Set::<Vid>::empty());
        },
        (None, Some(v)) => {
            assert(state.stop_steps() =~= seq![Step::StopVideo(v)]);
            assert(video0.remove(v) =~= Set::<Vid>::empty());
            assert(audio0 =~= Set::<Aud>::empty());
        },
        (None, None) => {
            assert(state.stop_steps() =~= Seq::<Step<Vid, Aud>>::empty());
            assert(audio0 =~= Set::<Aud>::empty());
            assert(video0 =~= Set::<Vid>::empty());
        },
    }
}

/// Once the steps of a stop have been performed, nothing is alive: no audio
/// thread and no capture handle, given that what was alive before is what
/// the controller held. The audio thread is gone before the capture handle
/// is touched.
pub proof fn lemma_stop_leaves_nothing_alive<Vid, Aud>(
    state: SessionState<Vid, Aud>,
    spawned: Aud,
    opened: Vid,
)
    ensures
        audio_alive_at(
            state.held_audio(),
            state.stop_steps(),
            spawned,
            state.stop_steps().len() as int,
        ) == Set::<Aud>::empty(),
        video_open_at(
            state.held_video(),
            state.stop_steps(),
            opened,
            state.stop_steps().len() as int,
        ) == Set::<Vid>::empty(),
        !state.in_flight() ==> state.after_stop().held_audio() == Set::<Aud>::empty()
            && state.after_stop().held_video() == Set::<Vid>::empty()
            && state.stop_result_steps() == state.stop_steps(),
        forall|i: int, j: int|
            0 <= i < state.stop_steps().len() && 0 <= j < state.stop_steps().len()
                && #[trigger] state.stop_steps()[i] is StopAudio
                && #[trigger] state.stop_steps()[j] is StopVideo ==> i < j,
{
    let steps = state.stop_steps();
    reveal_with_fuel(audio_alive_at, 3);
    reveal_with_fuel(video_open_at, 3);
    match (state.audio, state.video) {
        (Some(a), Some(v)) => {
            assert(steps =~= seq![Step::StopAudio(a), Step::StopVideo(v)]);
            assert(state.held_audio().remove(a) =~= Set::<Aud>::empty());
            assert(state.held_video().remove(v) =~= Set::<Vid>::empty());
        },
        (Some(a), None) => {
            assert(steps =~= seq![Step::StopAudio(a)]);
            assert(state.held_audio().remove(a) =~= Set::<Aud>::empty());
        },
        (None, Some(v)) => {
            assert(steps =~= seq![Step::StopVideo(v)]);
            assert(state.held_video().remove(v) =~= Set::<Vid>::empty());
        },
        (None, None) => {
            assert(steps =~= Seq::<Step<Vid, Aud>>::empty());
        },
    }
}

} // verus!
