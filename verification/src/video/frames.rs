//! What is done with each frame the capture delivers: most are dropped to
//! hold the frame rate, the rest are reformatted, encoded and emitted.

use crate::codec::{base64_len, base64_standard, to_base64, ChromaSubsampling, JpegJob, FRAME_JPEG_QUALITY};
use crate::pixels::{frame_complete, frame_job, is_rgb_of, spec_row_stride};
use crate::video::plan::{
    clamp_fps, frame_interval_ms, spec_clamp_fps, spec_frame_interval_ms, MAX_FPS, MIN_FPS,
};
use vstd::prelude::*;

verus! {

/// Where a video session stands. Before a session is opened and after it has
/// closed there is none: that is the idle state.
#[derive(Clone, Copy, Debug, PartialEq, Eq, Structural)]
pub enum VideoPhase {
    /// The capture handle is open; no frame has arrived yet.
    Starting,
    /// Frames arrive.
    Streaming,
    /// The session is ending, on request or because the target went away.
    Closing,
}

/// The pace keeper of one video session.
#[derive(Clone, Copy, Debug)]
pub struct VideoSession {
    fps: u32,
    interval_ms: u64,
    last_frame_ms: u64,
    phase: VideoPhase,
}

/// Time from `earlier` to `later`, and zero where `later` is not later.
pub open spec fn elapsed_ms(earlier: u64, later: u64) -> u64 {
    if later >= earlier {
        (later - earlier) as u64
    } else {
        0
    }
}

/// A frame that arrives at `now_ms` is due at `fps` frames a second: at least
/// `1000 / fps` milliseconds, as an exact fraction, have passed since
/// `last_ms`, the time of the last emission. At 30 frames a second a frame
/// after 33 ms is too early, and one after 34 ms is due.
pub open spec fn due(last_ms: u64, fps: u32, now_ms: u64) -> bool {
    elapsed_ms(last_ms, now_ms) * fps >= 1000
}

impl VideoSession {
    #[verifier::type_invariant]
    spec fn paced(self) -> bool {
        &&& MIN_FPS <= self.fps <= MAX_FPS
        &&& self.interval_ms == 1000int / (self.fps as int)
    }

    /// Frames a second.
    pub closed spec fn spec_fps(&self) -> u32 {
        self.fps
    }

    /// The whole milliseconds of `1000 / fps`. It is kept for display; the
    /// pace is held by the exact fraction.
    pub closed spec fn spec_interval_ms(&self) -> u64 {
        self.interval_ms
    }

    /// Time of the frame emitted last, or of the session's start.
    pub closed spec fn spec_last_frame_ms(&self) -> u64 {
        self.last_frame_ms
    }

    pub closed spec fn spec_phase(&self) -> VideoPhase {
        self.phase
    }

    /// A frame that arrives at `now_ms` is emitted: the session is not
    /// closing, and the frame is due.
    pub open spec fn admits(&self, now_ms: u64) -> bool {
        &&& self.spec_phase() != VideoPhase::Closing
        &&& due(self.spec_last_frame_ms(), self.spec_fps(), now_ms)
    }

    /// A session that was opened at `now_ms`, a reading of a clock that never
    /// runs backwards, to run at `fps` frames a second.
    pub fn new(fps: u32, now_ms: u64) -> (session: VideoSession)
        ensures
            session.spec_fps() == spec_clamp_fps(fps),
            session.spec_interval_ms() == spec_frame_interval_ms(fps),
            session.spec_last_frame_ms() == now_ms,
            session.spec_phase() == VideoPhase::Starting,
    {
        VideoSession {
            fps: clamp_fps(fps),
            interval_ms: frame_interval_ms(fps),
            last_frame_ms: now_ms,
            phase: VideoPhase::Starting,
        }
    }

    #[verifier::when_used_as_spec(spec_fps)]
    pub fn fps(&self) -> (fps: u32)
        ensures
            fps == self.spec_fps(),
            MIN_FPS <= fps <= MAX_FPS,
    {
        proof {
            use_type_invariant(self);
        }
        self.fps
    }

    #[verifier::when_used_as_spec(spec_interval_ms)]
    pub fn interval_ms(&self) -> (ms: u64)
        ensures
            ms == self.spec_interval_ms(),
            ms == 1000int / (self.spec_fps() as int),
    {
        proof {
            use_type_invariant(self);
        }
        self.interval_ms
    }

    #[verifier::when_used_as_spec(spec_last_frame_ms)]
    pub fn last_frame_ms(&self) -> (ms: u64)
        ensures
            ms == self.spec_last_frame_ms(),
    {
        self.last_frame_ms
    }

    #[verifier::when_used_as_spec(spec_phase)]
    pub fn phase(&self) -> (phase: VideoPhase)
        ensures
            phase == self.spec_phase(),
    {
        self.phase
    }

    /// Says whether a frame that arrives at `now_ms` would be emitted, without
    /// taking note of it.
    pub fn admits_now(&self, now_ms: u64) -> (emit: bool)
        ensures
            emit == self.admits(now_ms),
    {
        match self.phase {
            VideoPhase::Closing => false,
            _ => is_due(self.last_frame_ms, self.fps, now_ms),
        }
    }

    /// Takes note of a frame that arrived at `now_ms` and says whether it is
    /// emitted.
    ///
    /// A frame that comes sooner than `1000 / fps` milliseconds after the
    /// last emitted one is dropped, and nothing but the phase changes. The first frame
    /// to arrive moves the session to `Streaming`. A session that is closing
    /// emits nothing.
    pub fn on_frame(&mut self, now_ms: u64) -> (emit: bool)
        ensures
            emit == old(self).admits(now_ms),
            final(self).spec_fps() == old(self).spec_fps(),
            final(self).spec_interval_ms() == old(self).spec_interval_ms(),
            final(self).spec_last_frame_ms() == if emit {
                now_ms
            } else {
                old(self).spec_last_frame_ms()
            },
            final(self).spec_phase() == if old(self).spec_phase() == VideoPhase::Closing {
                VideoPhase::Closing
            } else {
                VideoPhase::Streaming
            },
            emit ==> (now_ms - old(self).spec_last_frame_ms()) * old(self).spec_fps() >= 1000,
    {
        proof {
            use_type_invariant(&*self);
        }
        match self.phase {
            VideoPhase::Closing => {
                return false;
            },
            _ => {},
        }
        self.phase = VideoPhase::Streaming;
        if !is_due(self.last_frame_ms, self.fps, now_ms) {
            return false;
        }
        self.last_frame_ms = now_ms;
        true
    }

    /// Handles a frame that arrived at `now_ms`: decides whether it is
    /// emitted, and if so prepares it for the encoder.
    ///
    /// The pace is kept first. A frame that comes too soon is dropped before
    /// any of its pixels is touched. A frame that is due counts as emitted
    /// from then on, even where its buffer turns out to be unusable and
    /// nothing can be encoded.
    pub fn prepare_frame(&mut self, now_ms: u64, raw: &[u8], width: u32, height: u32) -> (job:
        Option<JpegJob>)
        ensures
            job is Some <==> old(self).admits(now_ms) && frame_complete(raw@.len(), width, height),
            job matches Some(j) ==> {
                &&& j.wf()
                &&& j.width == width
                &&& j.height == height
                &&& j.quality == FRAME_JPEG_QUALITY
                &&& j.subsampling == ChromaSubsampling::Sub2x2
                &&& is_rgb_of(
                    j.pixels@,
                    raw@,
                    spec_row_stride(raw@.len(), width, height),
                    width as int,
                    height as int,
                )
            },
            final(self).spec_fps() == old(self).spec_fps(),
            final(self).spec_interval_ms() == old(self).spec_interval_ms(),
            final(self).spec_last_frame_ms() == if old(self).admits(now_ms) {
                now_ms
            } else {
                old(self).spec_last_frame_ms()
            },
            final(self).spec_phase() == if old(self).spec_phase() == VideoPhase::Closing {
                VideoPhase::Closing
            } else {
                VideoPhase::Streaming
            },
    {
        if !self.on_frame(now_ms) {
            return None;
        }
        frame_job(raw, width, height)
    }

    /// Takes note that the session ended: on request, or because the system
    /// took the target away.
    pub fn on_closed(&mut self)
        ensures
            final(self).spec_phase() == VideoPhase::Closing,
            final(self).spec_fps() == old(self).spec_fps(),
            final(self).spec_interval_ms() == old(self).spec_interval_ms(),
            final(self).spec_last_frame_ms() == old(self).spec_last_frame_ms(),
    {
        proof {
            use_type_invariant(&*self);
        }
        self.phase = VideoPhase::Closing;
    }
}

/// Decides whether a frame is due.
fn is_due(last_ms: u64, fps: u32, now_ms: u64) -> (d: bool)
    ensures
        d == due(last_ms, fps, now_ms),
{
    let elapsed: u64 = if now_ms >= last_ms {
        now_ms - last_ms
    } else {
        0
    };
    assert(elapsed * fps <= 0xffff_ffff_ffff_ffff * 0xffff_ffff) by (nonlinear_arith)
        requires
            0 <= elapsed <= 0xffff_ffff_ffff_ffff,
            0 <= fps <= 0xffff_ffff,
    ;
    (elapsed as u128) * (fps as u128) >= 1000
}

/// The times at which frames are emitted when frames arrive at the times
/// `arrivals`, in this order, after an emission, or the start of the session,
/// at `last`: each arrival that is due is emitted and becomes the time to
/// measure from, as in `on_frame`.
pub open spec fn emissions(last: u64, fps: u32, arrivals: Seq<u64>) -> Seq<u64>
    decreases arrivals.len(),
{
    if arrivals.len() == 0 {
        Seq::empty()
    } else if due(last, fps, arrivals[0]) {
        seq![arrivals[0]] + emissions(arrivals[0], fps, arrivals.skip(1))
    } else {
        emissions(last, fps, arrivals.skip(1))
    }
}

/// However fast frames arrive, two frames that are emitted one after the
/// other lie at least `1000 / fps` milliseconds apart, and so do the
/// session's start and the first frame emitted: the distance `d` in
/// milliseconds satisfies `d * fps >= 1000`.
pub proof fn lemma_emissions_keep_distance(last: u64, fps: u32, arrivals: Seq<u64>, i: int)
    requires
        0 <= i < emissions(last, fps, arrivals).len(),
    ensures
        i == 0 ==> (emissions(last, fps, arrivals)[0] - last) * fps >= 1000,
        i > 0 ==> (emissions(last, fps, arrivals)[i] - emissions(last, fps, arrivals)[i - 1])
            * fps >= 1000,
    decreases arrivals.len(),
{
    let rest = arrivals.skip(1);
    if due(last, fps, arrivals[0]) {
        if i > 0 {
            lemma_emissions_keep_distance(arrivals[0], fps, rest, i - 1);
        } else {
            lemma_due_is_later(last, fps, arrivals[0]);
        }
        if i == 1 {
            lemma_emissions_keep_distance(arrivals[0], fps, rest, 0);
        }
    } else {
        lemma_emissions_keep_distance(last, fps, rest, i);
    }
}

/// A frame that is due comes after the last emission, by the true
/// difference of the two times.
proof fn lemma_due_is_later(last: u64, fps: u32, now: u64)
    requires
        due(last, fps, now),
    ensures
        now > last,
        (now - last) * fps >= 1000,
{
    if now <= last {
        assert(0 * fps == 0) by (nonlinear_arith);
    }
}

/// The whole-millisecond interval is never longer than the exact one: a frame
/// that is due has waited at least the whole milliseconds of `1000 / fps`,
/// and at rates that do not divide 1000 it has waited longer.
pub proof fn lemma_due_implies_whole_interval(last: u64, fps: u32, now: u64)
    requires
        MIN_FPS <= fps <= MAX_FPS,
        due(last, fps, now),
    ensures
        now - last >= 1000int / (fps as int),
        (1000int % (fps as int) != 0) ==> now - last > 1000int / (fps as int),
{
    lemma_due_is_later(last, fps, now);
    let d = now - last;
    let f = fps as int;
    vstd::arithmetic::div_mod::lemma_fundamental_div_mod(1000, f);
    vstd::arithmetic::div_mod::lemma_mod_bound(1000, f);
    let q = 1000int / f;
    let r = 1000int % f;
    assert(d >= q) by (nonlinear_arith)
        requires
            d * f >= 1000,
            1000 == f * q + r,
            0 <= r < f,
            f >= 1,
            d >= 0,
    ;
    if r != 0 {
        assert(d > q) by (nonlinear_arith)
            requires
                d * f >= 1000,
                1000 == f * q + r,
                0 < r < f,
                f >= 1,
                d >= 0,
        ;
    }
}

/// One compressed frame.
#[derive(Clone, Debug)]
pub struct FramePayload {
    /// Base64 of the JPEG.
    pub data: String,
    pub width: u32,
    pub height: u32,
    /// Wall-clock time of the capture, in milliseconds since the epoch.
    pub timestamp_ms: u64,
}

/// Packs an encoded frame for emission, or nothing where its text would not
/// fit the machine.
pub fn frame_payload(jpeg: &[u8], width: u32, height: u32, timestamp_ms: u64) -> (payload: Option<
    FramePayload,
>)
    ensures
        payload is Some <==> base64_len(jpeg@.len()) <= usize::MAX,
        payload matches Some(p) ==> {
            &&& p.data@ == base64_standard(jpeg@)
            &&& p.width == width
            &&& p.height == height
            &&& p.timestamp_ms == timestamp_ms
        },
{
    match to_base64(jpeg) {
        Some(data) => Some(FramePayload { data, width, height, timestamp_ms }),
        None => None,
    }
}

} // verus!
