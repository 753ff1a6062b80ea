//! From a target identifier to what the capture is opened with.

use crate::error::CaptureError;
use crate::search::{first_index, is_first_index, lemma_first_index_is, lemma_first_index_none};
use crate::target::{parse_target, parse_target_id, TargetRef};
use vstd::prelude::*;

verus! {

/// Lowest frame rate a session runs at.
pub const MIN_FPS: u32 = 1;

/// Highest frame rate a session runs at.
pub const MAX_FPS: u32 = 60;

/// The rate a session runs at when `fps` is asked for.
pub open spec fn spec_clamp_fps(fps: u32) -> u32 {
    if fps < MIN_FPS {
        MIN_FPS
    } else if fps > MAX_FPS {
        MAX_FPS
    } else {
        fps
    }
}

/// Brings a requested frame rate into the supported range.
pub fn clamp_fps(fps: u32) -> (r: u32)
    ensures
        r == spec_clamp_fps(fps),
        MIN_FPS <= r <= MAX_FPS,
        MIN_FPS <= fps <= MAX_FPS ==> r == fps,
{
    if fps < MIN_FPS {
        MIN_FPS
    } else if fps > MAX_FPS {
        MAX_FPS
    } else {
        fps
    }
}

/// The whole milliseconds of the time between two frames when `fps` is asked
/// for. The pace itself is held by the exact fraction `1000 / fps`, which is
/// a third of a millisecond longer at 30 frames a second.
pub open spec fn spec_frame_interval_ms(fps: u32) -> u64 {
    (1000int / (spec_clamp_fps(fps) as int)) as u64
}

/// The whole milliseconds of the time between two frames.
pub fn frame_interval_ms(fps: u32) -> (ms: u64)
    ensures
        ms == spec_frame_interval_ms(fps),
        16 <= ms <= 1000,
{
    let rate = clamp_fps(fps);
    proof {
        lemma_interval_bounds(rate);
    }
    1000 / (rate as u64)
}

/// At a rate within the supported range the interval is between 16 and 1000
/// milliseconds.
pub proof fn lemma_interval_bounds(rate: u32)
    requires
        MIN_FPS <= rate <= MAX_FPS,
    ensures
        16 <= 1000int / (rate as int) <= 1000,
{
    let r = rate as int;
    vstd::arithmetic::div_mod::lemma_fundamental_div_mod(1000, r);
    vstd::arithmetic::div_mod::lemma_mod_bound(1000, r);
    let q = 1000int / r;
    let m = 1000int % r;
    assert(16 <= q <= 1000) by (nonlinear_arith)
        requires
            1000 == r * q + m,
            0 <= m < r,
            1 <= r <= 60,
    ;
}

/// Whether the cursor is drawn into the frames.
#[derive(Clone, Copy, Debug, PartialEq, Eq, Structural)]
pub enum CursorCapture {
    Default,
    WithCursor,
    WithoutCursor,
}

/// Whether the system draws a border round what is captured.
#[derive(Clone, Copy, Debug, PartialEq, Eq, Structural)]
pub enum DrawBorder {
    Default,
    WithBorder,
    WithoutBorder,
}

/// Whether windows owned by the captured window are captured with it.
#[derive(Clone, Copy, Debug, PartialEq, Eq, Structural)]
pub enum SecondaryWindows {
    Default,
    Include,
    Exclude,
}

/// How often the system may deliver frames.
#[derive(Clone, Copy, Debug, PartialEq, Eq, Structural)]
pub enum UpdateInterval {
    Default,
}

/// What the system reports about regions that changed.
#[derive(Clone, Copy, Debug, PartialEq, Eq, Structural)]
pub enum DirtyRegion {
    Default,
    ReportOnly,
    ReportAndRender,
}

/// Layout of the raw pixels.
#[derive(Clone, Copy, Debug, PartialEq, Eq, Structural)]
pub enum ColorFormat {
    Rgba16F,
    Rgba8,
    Bgra8,
}

/// Everything a capture handle is configured with.
#[derive(Clone, Copy, Debug, PartialEq, Eq, Structural)]
pub struct CaptureSettings {
    pub cursor: CursorCapture,
    pub border: DrawBorder,
    pub secondary_windows: SecondaryWindows,
    pub update_interval: UpdateInterval,
    pub dirty_region: DirtyRegion,
    pub color_format: ColorFormat,
}

/// What a plan captures.
#[derive(Clone, Copy, Debug, PartialEq, Eq, Structural)]
pub enum VideoSource {
    /// The window with this handle, found at `position` of the enumeration.
    Window { handle: isize, position: usize },
    /// The monitor at `index` of the enumeration.
    Monitor { index: usize },
}

/// What the system offers at the moment a session is opened.
#[derive(Debug)]
pub struct Environment {
    /// Handles of the top-level windows, in enumeration order.
    pub window_handles: Vec<isize>,
    /// Number of monitors.
    pub monitor_count: usize,
    /// Whether the border can be switched off on this system.
    pub border_toggle_supported: bool,
}

/// What to open, and at what pace to emit.
#[derive(Clone, Copy, Debug, PartialEq, Eq, Structural)]
pub struct VideoPlan {
    pub source: VideoSource,
    /// Frames a second, within the supported range. Frames are emitted no
    /// closer together than `1000 / fps` milliseconds.
    pub fps: u32,
    /// The whole milliseconds of `1000 / fps`.
    pub frame_interval_ms: u64,
    pub settings: CaptureSettings,
}

/// The settings for a source.
///
/// The cursor is drawn. The border is switched off where the system can do
/// that, and left to the system where it cannot. Secondary windows, those
/// owned by what is captured, are left out, for a window and for a monitor
/// alike. Frames come in the system's own pace and as four-byte pixels, blue
/// first.
pub open spec fn spec_capture_settings(source: VideoSource, border_toggle_supported: bool)
    -> CaptureSettings {
    CaptureSettings {
        cursor: CursorCapture::WithCursor,
        border: if border_toggle_supported {
            DrawBorder::WithoutBorder
        } else {
            DrawBorder::Default
        },
        secondary_windows: SecondaryWindows::Exclude,
        update_interval: UpdateInterval::Default,
        dirty_region: DirtyRegion::Default,
        color_format: ColorFormat::Bgra8,
    }
}

/// Chooses the settings for a source.
pub fn capture_settings(source: VideoSource, border_toggle_supported: bool) -> (settings:
    CaptureSettings)
    ensures
        settings == spec_capture_settings(source, border_toggle_supported),
{
    let border = if border_toggle_supported {
        DrawBorder::WithoutBorder
    } else {
        DrawBorder::Default
    };
    CaptureSettings {
        cursor: CursorCapture::WithCursor,
        border,
        secondary_windows: SecondaryWindows::Exclude,
        update_interval: UpdateInterval::Default,
        dirty_region: DirtyRegion::Default,
        color_format: ColorFormat::Bgra8,
    }
}

/// What `target` stands for among the windows `handles` and `monitor_count`
/// monitors: the first window with the handle, or the monitor at the index,
/// or nothing where the target is gone.
pub open spec fn spec_resolve(target: TargetRef, handles: Seq<isize>, monitor_count: usize)
    -> Option<VideoSource> {
    match target {
        TargetRef::Window(handle) => match first_index(handles, handle) {
            Some(position) => Some(VideoSource::Window { handle, position: position as usize }),
            None => None,
        },
        TargetRef::Monitor(index) => if index < monitor_count {
            Some(VideoSource::Monitor { index })
        } else {
            None
        },
    }
}

/// Looks a target up in a fresh enumeration.
pub fn resolve_target(target: TargetRef, env: &Environment) -> (r: Result<
    VideoSource,
    CaptureError,
>)
    ensures
        r == match spec_resolve(target, env.window_handles@, env.monitor_count) {
            Some(source) => Ok::<VideoSource, CaptureError>(source),
            None => Err::<VideoSource, CaptureError>(CaptureError::TargetNotFound),
        },
{
    match target {
        TargetRef::Window(handle) => {
            let mut position: usize = 0;
            while position < env.window_handles.len()
                invariant
                    target == TargetRef::Window(handle),
                    position <= env.window_handles@.len(),
                    forall|j: int| 0 <= j < position ==> env.window_handles@[j] != handle,
                decreases env.window_handles@.len() - position,
            {
                if env.window_handles[position] == handle {
                    proof {
                        assert(is_first_index(env.window_handles@, handle, position as int));
                        lemma_first_index_is(env.window_handles@, handle, position as int);
                    }
                    return Ok(VideoSource::Window { handle, position });
                }
                position = position + 1;
            }
            proof {
                lemma_first_index_none(env.window_handles@, handle);
            }
            Err(CaptureError::TargetNotFound)
        },
        TargetRef::Monitor(index) => {
            if index < env.monitor_count {
                Ok(VideoSource::Monitor { index })
            } else {
                Err(CaptureError::TargetNotFound)
            }
        },
    }
}

/// The plan for the identifier `id` at `fps` frames a second.
///
/// An identifier that cannot be read is an `InvalidTarget`; one that can be
/// read but is not found is a `TargetNotFound`.
pub open spec fn spec_plan_video(
    id: Seq<char>,
    fps: u32,
    handles: Seq<isize>,
    monitor_count: usize,
    border_toggle_supported: bool,
) -> Result<VideoPlan, CaptureError> {
    match parse_target(id) {
        None => Err(CaptureError::InvalidTarget),
        Some(target) => match spec_resolve(target, handles, monitor_count) {
            None => Err(CaptureError::TargetNotFound),
            Some(source) => Ok(
                VideoPlan {
                    source,
                    fps: spec_clamp_fps(fps),
                    frame_interval_ms: spec_frame_interval_ms(fps),
                    settings: spec_capture_settings(source, border_toggle_supported),
                },
            ),
        },
    }
}

/// Decides what to open for `target_id`.
///
/// The identifier is resolved against `env`, which the caller has just
/// queried: an identifier from an earlier enumeration may be stale.
pub fn plan_video(target_id: &str, fps: u32, env: &Environment) -> (r: Result<
    VideoPlan,
    CaptureError,
>)
    ensures
        r == spec_plan_video(
            target_id@,
            fps,
            env.window_handles@,
            env.monitor_count,
            env.border_toggle_supported,
        ),
{
    let target = match parse_target_id(target_id) {
        Ok(target) => target,
        Err(e) => {
            return Err(e);
        },
    };
    let source = match resolve_target(target, env) {
        Ok(source) => source,
        Err(e) => {
            return Err(e);
        },
    };
    Ok(
        VideoPlan {
            source,
            fps: clamp_fps(fps),
            frame_interval_ms: frame_interval_ms(fps),
            settings: capture_settings(source, env.border_toggle_supported),
        },
    )
}

/// Whatever rate is asked for, a session runs at a rate from `MIN_FPS` to
/// `MAX_FPS`: a rate inside the range is kept, one below it becomes
/// `MIN_FPS` and one above it `MAX_FPS`.
pub proof fn lemma_rate_is_clamped(fps: u32)
    ensures
        MIN_FPS <= spec_clamp_fps(fps) <= MAX_FPS,
        MIN_FPS <= fps <= MAX_FPS ==> spec_clamp_fps(fps) == fps,
        fps < MIN_FPS ==> spec_clamp_fps(fps) == MIN_FPS,
        fps > MAX_FPS ==> spec_clamp_fps(fps) == MAX_FPS,
        spec_frame_interval_ms(fps) * spec_clamp_fps(fps) <= 1000,
        1000 < (spec_frame_interval_ms(fps) + 1) * spec_clamp_fps(fps),
{
    let rate = spec_clamp_fps(fps) as int;
    vstd::arithmetic::div_mod::lemma_fundamental_div_mod(1000, rate);
    vstd::arithmetic::div_mod::lemma_mod_bound(1000, rate);
    let q = 1000int / rate;
    assert(q * rate == rate * q) by (nonlinear_arith);
    assert((q + 1) * rate == rate * q + rate) by (nonlinear_arith);
    let r = 1000int % rate;
    assert(0 <= q <= 1000) by (nonlinear_arith)
        requires
            1000 == rate * q + r,
            0 <= r < rate,
            1 <= rate,
    ;
}

} // verus!
