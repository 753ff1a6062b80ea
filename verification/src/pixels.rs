//! Reformatting captured pixels for the still-image encoder.
//!
//! A capture delivers rows of four-byte pixels in the order blue, green, red,
//! alpha, and a row may be followed by padding. The encoder takes rows of
//! three-byte pixels in the order red, green, blue, without padding.

use crate::codec::{
    ChromaSubsampling, JpegJob, FRAME_JPEG_QUALITY, RGB_PIXEL_LEN, THUMB_JPEG_QUALITY,
};
use vstd::prelude::*;

verus! {

/// The pixel in column `x` of row `y` of `rgb` is the one at the same place
/// of `raw`, with red and blue exchanged and alpha dropped.
pub open spec fn pixel_matches(
    rgb: Seq<u8>,
    raw: Seq<u8>,
    stride: int,
    width: int,
    y: int,
    x: int,
) -> bool {
    let to = 3 * (y * width + x);
    let from = y * stride + 4 * x;
    &&& rgb[to] == raw[from + 2]
    &&& rgb[to + 1] == raw[from + 1]
    &&& rgb[to + 2] == raw[from]
}

/// `rgb` is the image of `width` by `height` pixels that `raw` holds in rows
/// `stride` bytes apart.
pub open spec fn is_rgb_of(rgb: Seq<u8>, raw: Seq<u8>, stride: int, width: int, height: int)
    -> bool {
    &&& rgb.len() == 3 * (height * width)
    &&& forall|y: int, x: int|
        0 <= y < height && 0 <= x < width ==> #[trigger] pixel_matches(
            rgb,
            raw,
            stride,
            width,
            y,
            x,
        )
}

/// A buffer of `len` bytes holds every pixel of an image of `width` by
/// `height` pixels in rows `stride` bytes apart.
pub open spec fn holds_image(len: int, stride: int, width: int, height: int) -> bool {
    width == 0 || height == 0 || (height - 1) * stride + 4 * width <= len
}

/// Converts an image of four-byte pixels in rows `stride` bytes apart into
/// packed three-byte pixels.
pub fn bgra_to_rgb(raw: &[u8], width: usize, height: usize, stride: usize) -> (rgb: Vec<u8>)
    requires
        holds_image(raw@.len() as int, stride as int, width as int, height as int),
    ensures
        is_rgb_of(rgb@, raw@, stride as int, width as int, height as int),
{
    let mut rgb: Vec<u8> = Vec::new();
    if width == 0 || height == 0 {
        assert(height * width == 0) by (nonlinear_arith)
            requires
                width == 0 || height == 0,
        ;
        return rgb;
    }
    let len: usize = raw.len();
    let mut y: usize = 0;
    let mut row: usize = 0;
    while y < height
        invariant
            0 < width,
            y <= height,
            len == raw@.len(),
            holds_image(raw@.len() as int, stride as int, width as int, height as int),
            y < height ==> row == y * stride,
            rgb@.len() == 3 * (y * width),
            forall|v: int, u: int|
                0 <= v < y && 0 <= u < width ==> #[trigger] pixel_matches(
                    rgb@,
                    raw@,
                    stride as int,
                    width as int,
                    v,
                    u,
                ),
        decreases height - y,
    {
        proof {
            assert(y * stride <= (height - 1) * stride) by (nonlinear_arith)
                requires
                    0 <= y <= height - 1,
                    0 <= stride,
            ;
        }
        let mut x: usize = 0;
        while x < width
            invariant
                x <= width,
                y < height,
                len == raw@.len(),
                row == y * stride,
                row + 4 * width <= len,
                rgb@.len() == 3 * (y * width + x),
                forall|v: int, u: int|
                    (0 <= v < y && 0 <= u < width) || (v == y && 0 <= u < x)
                        ==> #[trigger] pixel_matches(
                        rgb@,
                        raw@,
                        stride as int,
                        width as int,
                        v,
                        u,
                    ),
            decreases width - x,
        {
            let from: usize = row + 4 * x;
            let ghost before = rgb@;
            rgb.push(raw[from + 2]);
            rgb.push(raw[from + 1]);
            rgb.push(raw[from]);
            proof {
                assert forall|v: int, u: int|
                    (0 <= v < y && 0 <= u < width) || (v == y && 0 <= u < x + 1)
                        implies #[trigger] pixel_matches(
                    rgb@,
                    raw@,
                    stride as int,
                    width as int,
                    v,
                    u,
                ) by {
                    if v == y && u == x {
                    } else {
                        assert(pixel_matches(before, raw@, stride as int, width as int, v, u));
                        if v < y {
                            assert(v * width + u + 1 <= y * width) by (nonlinear_arith)
                                requires
                                    0 <= v < y,
                                    0 <= u < width,
                            ;
                        }
                    }
                }
            }
            x = x + 1;
        }
        proof {
            assert((y + 1) * width == y * width + width) by (nonlinear_arith);
            assert((y + 1) * stride == y * stride + stride) by (nonlinear_arith);
            if y + 1 < height {
                assert((y + 1) * stride <= (height - 1) * stride) by (nonlinear_arith)
                    requires
                        0 <= y + 1 <= height - 1,
                        0 <= stride,
                ;
            }
        }
        if y + 1 < height {
            row = row + stride;
        }
        y = y + 1;
    }
    rgb
}

/// Bytes from one row to the next in a frame buffer of `buffer_len` bytes.
///
/// A frame may carry padding at the end of each row, so the distance is
/// taken from the buffer itself.
pub open spec fn spec_row_stride(buffer_len: nat, width: u32, height: u32) -> int {
    if height > 0 {
        (buffer_len / (height as nat)) as int
    } else {
        4 * width
    }
}

/// The frame buffer holds a whole image with area: every row has room for
/// all of its pixels.
pub open spec fn frame_complete(buffer_len: nat, width: u32, height: u32) -> bool {
    &&& width > 0
    &&& height > 0
    &&& spec_row_stride(buffer_len, width, height) >= 4 * width
}

/// Prepares a captured frame for the encoder.
///
/// A frame without area, or one whose buffer is too short for its size,
/// gives no job: such a frame is dropped.
pub fn frame_job(raw: &[u8], width: u32, height: u32) -> (job: Option<JpegJob>)
    ensures
        job is Some <==> frame_complete(raw@.len(), width, height),
        job matches Some(j) ==> {
            &&& j.wf()
            &&& j.width == width
            &&& j.height == height
            &&& j.quality == FRAME_JPEG_QUALITY
            &&& j.subsampling == ChromaSubsampling::Sub2x2
            &&& is_rgb_of(
                j.pixels@,
                raw@,
                spec_row_stride(raw@.len(), width, height),
                width as int,
                height as int,
            )
        },
{
    if width == 0 || height == 0 {
        return None;
    }
    if height as u64 > usize::MAX as u64 || width as u64 > usize::MAX as u64 {
        proof {
            if height > usize::MAX {
                assert(raw@.len() / (height as nat) == 0) by (nonlinear_arith)
                    requires
                        raw@.len() < height,
                ;
            }
        }
        return None;
    }
    let stride: usize = raw.len() / (height as usize);
    if stride / 4 < width as usize {
        return None;
    }
    proof {
        let len = raw@.len() as int;
        vstd::arithmetic::div_mod::lemma_fundamental_div_mod(len, height as int);
        vstd::arithmetic::div_mod::lemma_mod_bound(len, height as int);
        assert((height - 1) * stride + stride <= len) by (nonlinear_arith)
            requires
                len == height * stride + len % (height as int),
                0 <= len % (height as int),
        ;
    }
    image_job(raw, width as usize, height as usize, stride, FRAME_JPEG_QUALITY)
}

/// The pixels read back from a thumbnail surface cover the whole thumbnail.
pub open spec fn thumbnail_complete(buffer_len: nat, width: u32, height: u32) -> bool {
    &&& width > 0
    &&& height > 0
    &&& 4 * (width * height) <= buffer_len
}

/// Prepares the pixels of a thumbnail surface, which has no row padding, for
/// the encoder. Pixels that do not cover the thumbnail give no job.
pub fn thumbnail_job(bgra: &[u8], width: u32, height: u32) -> (job: Option<JpegJob>)
    ensures
        job is Some <==> thumbnail_complete(bgra@.len(), width, height),
        job matches Some(j) ==> {
            &&& j.wf()
            &&& j.width == width
            &&& j.height == height
            &&& j.quality == THUMB_JPEG_QUALITY
            &&& j.subsampling == ChromaSubsampling::Sub2x2
            &&& is_rgb_of(j.pixels@, bgra@, 4 * width, width as int, height as int)
        },
{
    if width == 0 || height == 0 {
        return None;
    }
    assert(width * height <= 0xffff_ffff * 0xffff_ffff) by (nonlinear_arith)
        requires
            0 <= width <= 0xffff_ffff,
            0 <= height <= 0xffff_ffff,
    ;
    let needed: u128 = 4 * ((width as u128) * (height as u128));
    if needed > bgra.len() as u128 {
        return None;
    }
    proof {
        assert(width <= width * height) by (nonlinear_arith)
            requires
                width >= 0,
                height >= 1,
        ;
        assert(height <= width * height) by (nonlinear_arith)
            requires
                width >= 1,
                height >= 0,
        ;
    }
    let stride: usize = 4 * (width as usize);
    proof {
        assert((height - 1) * stride + 4 * width == 4 * (width * height)) by (nonlinear_arith)
            requires
                stride == 4 * width,
        ;
    }
    image_job(bgra, width as usize, height as usize, stride, THUMB_JPEG_QUALITY)
}

fn image_job(raw: &[u8], width: usize, height: usize, stride: usize, quality: i32) -> (job: Option<
    JpegJob,
>)
    requires
        width > 0,
        height > 0,
        stride >= 4 * width,
        (height - 1) * stride + 4 * width <= raw@.len(),
        0 <= quality <= 100,
    ensures
        job matches Some(j) && j.wf() && j.width == width && j.height == height && j.quality
            == quality && j.subsampling == ChromaSubsampling::Sub2x2 && is_rgb_of(
            j.pixels@,
            raw@,
            stride as int,
            width as int,
            height as int,
        ),
{
    let pixels = bgra_to_rgb(raw, width, height, stride);
    proof {
        assert(3 * width * height == 3 * (height * width)) by (nonlinear_arith);
    }
    Some(
        JpegJob {
            pixels,
            width,
            height,
            pitch: RGB_PIXEL_LEN * width,
            quality,
            subsampling: ChromaSubsampling::Sub2x2,
        },
    )
}

} // verus!
