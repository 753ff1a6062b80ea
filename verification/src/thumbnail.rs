//! Thumbnails of capture targets: how large they are, what is copied off the
//! screen for them, and the text they travel as.

use crate::codec::{base64_len, base64_standard, to_base64};
use vstd::prelude::*;

verus! {

/// Widest thumbnail, in pixels.
pub const THUMB_MAX_W: u32 = 320;

/// Tallest thumbnail, in pixels.
pub const THUMB_MAX_H: u32 = 180;

/// `num / den` rounded to the nearest integer, halves rounding up.
pub open spec fn round_div(num: int, den: int) -> int {
    (2 * num + den) / (2 * den)
}

/// Size of the thumbnail of a `w` by `h` source.
///
/// The source is scaled by the largest factor, at most 1, under which it fits
/// into `THUMB_MAX_W` by `THUMB_MAX_H`; each side is rounded to the nearest
/// pixel and is at least 1. A source without area has a 1 by 1 thumbnail.
pub open spec fn spec_thumb_size(w: u32, h: u32) -> (u32, u32) {
    if w == 0 || h == 0 {
        (1u32, 1u32)
    } else if w <= THUMB_MAX_W && h <= THUMB_MAX_H {
        (w, h)
    } else if THUMB_MAX_W * h <= THUMB_MAX_H * w {
        let th = round_div(THUMB_MAX_W * h, w as int);
        (THUMB_MAX_W, if th < 1 { 1u32 } else { th as u32 })
    } else {
        let tw = round_div(THUMB_MAX_H * w, h as int);
        (if tw < 1 { 1u32 } else { tw as u32 }, THUMB_MAX_H)
    }
}

proof fn lemma_round_div_bounds(num: int, den: int, cap: int)
    requires
        0 <= num,
        0 < den,
        0 <= cap,
        num <= cap * den,
    ensures
        0 <= round_div(num, den) <= cap,
        2 * den * round_div(num, den) <= 2 * num + den,
        2 * num + den < 2 * den * (round_div(num, den) + 1),
{
    let q = round_div(num, den);
    let a = 2 * num + den;
    let b = 2 * den;
    assert(a == b * (a / b) + a % b && 0 <= a % b < b) by {
        vstd::arithmetic::div_mod::lemma_fundamental_div_mod(a, b);
        vstd::arithmetic::div_mod::lemma_mod_bound(a, b);
    }
    assert(0 <= q) by (nonlinear_arith)
        requires
            a == b * q + a % b,
            0 <= a % b < b,
            0 <= a,
            0 < b,
    ;
    assert(q <= cap) by (nonlinear_arith)
        requires
            a == b * q + a % b,
            0 <= a % b < b,
            a == 2 * num + den,
            b == 2 * den,
            num <= cap * den,
            0 < den,
    ;
    assert(2 * den * q == b * q) by (nonlinear_arith)
        requires
            b == 2 * den,
    ;
    assert(2 * den * (q + 1) == b * q + b) by (nonlinear_arith)
        requires
            b == 2 * den,
    ;
}

/// Computes the thumbnail size of a `w` by `h` source.
pub fn thumb_size(w: u32, h: u32) -> (r: (u32, u32))
    ensures
        r == spec_thumb_size(w, h),
        1 <= r.0 <= THUMB_MAX_W,
        1 <= r.1 <= THUMB_MAX_H,
        w > 0 && h > 0 ==> r.0 <= w && r.1 <= h,
{
    if w == 0 || h == 0 {
        return (1, 1);
    }
    if w <= THUMB_MAX_W && h <= THUMB_MAX_H {
        return (w, h);
    }
    let wide: u64 = w as u64;
    let high: u64 = h as u64;
    let max_w: u64 = THUMB_MAX_W as u64;
    let max_h: u64 = THUMB_MAX_H as u64;
    if max_w * high <= max_h * wide {
        proof {
            lemma_round_div_bounds(THUMB_MAX_W * h, w as int, THUMB_MAX_H as int);
            assert(w > THUMB_MAX_W);
            assert(THUMB_MAX_W * h <= h * w) by (nonlinear_arith)
                requires
                    w > THUMB_MAX_W,
                    h >= 0,
            ;
            lemma_round_div_bounds(THUMB_MAX_W * h, w as int, h as int);
        }
        let th: u64 = (2 * (max_w * high) + wide) / (2 * wide);
        let th: u64 = if th < 1 { 1 } else { th };
        (THUMB_MAX_W, th as u32)
    } else {
        proof {
            lemma_round_div_bounds(THUMB_MAX_H * w, h as int, THUMB_MAX_W as int);
            assert(h > THUMB_MAX_H);
            assert(THUMB_MAX_H * w <= w * h) by (nonlinear_arith)
                requires
                    h > THUMB_MAX_H,
                    w >= 0,
            ;
            lemma_round_div_bounds(THUMB_MAX_H * w, h as int, w as int);
        }
        let tw: u64 = (2 * (max_h * wide) + high) / (2 * high);
        let tw: u64 = if tw < 1 { 1 } else { tw };
        (tw as u32, THUMB_MAX_H)
    }
}

/// A source that fits the cap keeps its size. A larger one is scaled so that
/// one side is exactly at its cap, and the other side is the proportional
/// length, off by half a pixel at most, unless that would be no pixel at all.
pub proof fn lemma_thumb_size_keeps_aspect(w: u32, h: u32)
    requires
        w > 0,
        h > 0,
    ensures
        ({
            let (tw, th) = spec_thumb_size(w, h);
            &&& w <= THUMB_MAX_W && h <= THUMB_MAX_H ==> tw == w && th == h
            &&& w > THUMB_MAX_W || h > THUMB_MAX_H ==> tw == THUMB_MAX_W || th == THUMB_MAX_H
            &&& tw == THUMB_MAX_W && w > THUMB_MAX_W && th > 1 ==> {
                &&& 2 * (th * w) <= 2 * (THUMB_MAX_W * h) + w
                &&& 2 * (THUMB_MAX_W * h) < 2 * (th * w) + w
            }
            &&& th == THUMB_MAX_H && h > THUMB_MAX_H && tw > 1 && tw != THUMB_MAX_W ==> {
                &&& 2 * (tw * h) <= 2 * (THUMB_MAX_H * w) + h
                &&& 2 * (THUMB_MAX_H * w) < 2 * (tw * h) + h
            }
        }),
{
    let (tw, th) = spec_thumb_size(w, h);
    if w <= THUMB_MAX_W && h <= THUMB_MAX_H {
    } else if THUMB_MAX_W * h <= THUMB_MAX_H * w {
        lemma_round_div_bounds(THUMB_MAX_W * h, w as int, THUMB_MAX_H as int);
        let q = round_div(THUMB_MAX_W * h, w as int);
        if th > 1 {
            assert(th == q);
            assert(2 * w * q == 2 * (th * w)) by (nonlinear_arith)
                requires
                    th == q,
            ;
            assert(2 * w * (q + 1) == 2 * (th * w) + 2 * w) by (nonlinear_arith)
                requires
                    th == q,
            ;
        }
    } else {
        lemma_round_div_bounds(THUMB_MAX_H * w, h as int, THUMB_MAX_W as int);
        let q = round_div(THUMB_MAX_H * w, h as int);
        if tw > 1 {
            assert(tw == q);
            assert(2 * h * q == 2 * (tw * h)) by (nonlinear_arith)
                requires
                    tw == q,
            ;
            assert(2 * h * (q + 1) == 2 * (tw * h) + 2 * h) by (nonlinear_arith)
                requires
                    tw == q,
            ;
        }
    }
}

/// A window narrower or lower than this gets no thumbnail.
pub const MIN_THUMB_SOURCE: u32 = 10;

/// Where a window sits on the screen, in pixels; `right` and `bottom` lie
/// just outside it.
#[derive(Clone, Copy, Debug, PartialEq, Eq, Structural)]
pub struct WindowRect {
    pub left: i32,
    pub top: i32,
    pub right: i32,
    pub bottom: i32,
}

/// The area of the screen, or of a monitor, that a thumbnail is made of.
#[derive(Clone, Copy, Debug, PartialEq, Eq, Structural)]
pub struct BlitSource {
    pub left: i32,
    pub top: i32,
    pub width: u32,
    pub height: u32,
}

/// What to do for the thumbnail of one target.
#[derive(Clone, Copy, Debug, PartialEq, Eq, Structural)]
pub enum ThumbnailPlan {
    /// No thumbnail; the target is listed with this size and an empty
    /// thumbnail.
    Skip { width: u32, height: u32 },
    /// Copy `source`, scaled smoothly to `thumb_width` by `thumb_height`,
    /// and list the target with the size of `source`.
    Blit { source: BlitSource, thumb_width: u32, thumb_height: u32 },
}

/// The extent from `low` to `high`, at least 1.
pub open spec fn spec_extent(low: i32, high: i32) -> u32 {
    if high - low < 1 {
        1u32
    } else {
        (high - low) as u32
    }
}

/// The plan for a window that is minimized or not, and whose rectangle could
/// be read or not.
pub open spec fn spec_window_thumbnail_plan(minimized: bool, rect: Option<WindowRect>)
    -> ThumbnailPlan {
    match rect {
        None => ThumbnailPlan::Skip { width: 0, height: 0 },
        Some(r) => {
            let width = spec_extent(r.left, r.right);
            let height = spec_extent(r.top, r.bottom);
            if minimized {
                ThumbnailPlan::Skip { width: 0, height: 0 }
            } else if width < MIN_THUMB_SOURCE || height < MIN_THUMB_SOURCE {
                ThumbnailPlan::Skip { width, height }
            } else {
                ThumbnailPlan::Blit {
                    source: BlitSource { left: r.left, top: r.top, width, height },
                    thumb_width: spec_thumb_size(width, height).0,
                    thumb_height: spec_thumb_size(width, height).1,
                }
            }
        },
    }
}

fn extent(low: i32, high: i32) -> (e: u32)
    ensures
        e == spec_extent(low, high),
{
    let span: i64 = high as i64 - low as i64;
    if span < 1 {
        1
    } else {
        span as u32
    }
}

/// Plans the thumbnail of a window.
///
/// A minimized window, and one whose rectangle cannot be read, is skipped
/// with no size. A window under `MIN_THUMB_SOURCE` pixels either way is
/// skipped with its size. Any other is copied from where it sits on the
/// desktop.
pub fn window_thumbnail_plan(minimized: bool, rect: Option<WindowRect>) -> (plan: ThumbnailPlan)
    ensures
        plan == spec_window_thumbnail_plan(minimized, rect),
{
    if minimized {
        return ThumbnailPlan::Skip { width: 0, height: 0 };
    }
    match rect {
        None => ThumbnailPlan::Skip { width: 0, height: 0 },
        Some(r) => {
            let width = extent(r.left, r.right);
            let height = extent(r.top, r.bottom);
            if width < MIN_THUMB_SOURCE || height < MIN_THUMB_SOURCE {
                ThumbnailPlan::Skip { width, height }
            } else {
                let (thumb_width, thumb_height) = thumb_size(width, height);
                ThumbnailPlan::Blit {
                    source: BlitSource { left: r.left, top: r.top, width, height },
                    thumb_width,
                    thumb_height,
                }
            }
        },
    }
}

/// The plan for a monitor of `width` by `height` pixels.
pub open spec fn spec_monitor_thumbnail_plan(width: u32, height: u32) -> ThumbnailPlan {
    if width == 0 || height == 0 {
        ThumbnailPlan::Skip { width, height }
    } else {
        ThumbnailPlan::Blit {
            source: BlitSource { left: 0, top: 0, width, height },
            thumb_width: spec_thumb_size(width, height).0,
            thumb_height: spec_thumb_size(width, height).1,
        }
    }
}

/// Plans the thumbnail of a monitor from the resolution its device context
/// reports. A monitor without area is skipped; any other is copied whole.
pub fn monitor_thumbnail_plan(width: u32, height: u32) -> (plan: ThumbnailPlan)
    ensures
        plan == spec_monitor_thumbnail_plan(width, height),
{
    if width == 0 || height == 0 {
        ThumbnailPlan::Skip { width, height }
    } else {
        let (thumb_width, thumb_height) = thumb_size(width, height);
        ThumbnailPlan::Blit {
            source: BlitSource { left: 0, top: 0, width, height },
            thumb_width,
            thumb_height,
        }
    }
}

/// How the pixels of a thumbnail surface are asked for: 32 bits a pixel in
/// one plane, rows top down, which the negative height says.
#[derive(Clone, Copy, Debug, PartialEq, Eq, Structural)]
pub struct BitmapRequest {
    pub width: i32,
    pub height: i32,
    pub planes: u16,
    pub bit_count: u16,
    pub buffer_len: usize,
}

/// The request for a surface of `width` by `height` pixels, where its
/// numbers fit their fields.
pub open spec fn spec_bitmap_request(width: u32, height: u32) -> Option<BitmapRequest> {
    if width <= i32::MAX && height <= i32::MAX && 4 * (width * height) <= usize::MAX {
        Some(
            BitmapRequest {
                width: width as i32,
                height: (-(height as int)) as i32,
                planes: 1,
                bit_count: 32,
                buffer_len: (4 * (width * height)) as usize,
            },
        )
    } else {
        None
    }
}

/// Describes the read-back of a thumbnail surface.
pub fn bitmap_request(width: u32, height: u32) -> (request: Option<BitmapRequest>)
    ensures
        request == spec_bitmap_request(width, height),
{
    if width > i32::MAX as u32 || height > i32::MAX as u32 {
        return None;
    }
    assert(width * height <= 0x7fff_ffff * 0x7fff_ffff) by (nonlinear_arith)
        requires
            0 <= width <= 0x7fff_ffff,
            0 <= height <= 0x7fff_ffff,
    ;
    let bytes: u128 = 4 * ((width as u128) * (height as u128));
    if bytes > usize::MAX as u128 {
        return None;
    }
    Some(
        BitmapRequest {
            width: width as i32,
            height: -(height as i32),
            planes: 1,
            bit_count: 32,
            buffer_len: bytes as usize,
        },
    )
}

/// The thumbnail text for what the encoder gave: the base64 of the JPEG, or
/// the empty text where there is no JPEG or its text would not fit the
/// machine.
pub open spec fn spec_thumbnail_text(jpeg: Option<Seq<u8>>) -> Seq<char> {
    match jpeg {
        Some(bytes) => if base64_len(bytes.len()) <= usize::MAX {
            base64_standard(bytes)
        } else {
            Seq::empty()
        },
        None => Seq::empty(),
    }
}

/// Turns the outcome of the encoder into the thumbnail of a target. A
/// thumbnail is decoration: a failure gives the empty text, not an error.
pub fn thumbnail_text(jpeg: Option<&[u8]>) -> (text: String)
    ensures
        text@ == spec_thumbnail_text(
            match jpeg {
                Some(bytes) => Some(bytes@),
                None => None,
            },
        ),
{
    match jpeg {
        Some(bytes) => match to_base64(bytes) {
            Some(text) => text,
            None => String::new(),
        },
        None => String::new(),
    }
}

} // verus!
