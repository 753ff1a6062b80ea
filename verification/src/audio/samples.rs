//! Decoding raw packets into samples and mixing them down to stereo.

use vstd::prelude::*;

verus! {

/// One audio sample as it left the device, before any floating-point work.
///
/// A consumer turns `Pcm16(v)` into `v / 32768`, reads `Float32(bits)` as the
/// IEEE-754 value with that bit pattern, and `Silence` as zero.
#[derive(Clone, Copy, Debug, PartialEq, Eq, Structural)]
pub enum Sample {
    /// A signed 16-bit sample.
    Pcm16(i16),
    /// The bit pattern of a 32-bit float sample.
    Float32(u32),
    /// A sample of a width that is not decoded, or one that was missing.
    Silence,
}

/// Divisor that scales a `Pcm16` sample into the range from -1 to 1.
pub const PCM16_SCALE: u32 = 32768;

/// Channels of every emitted buffer.
pub const OUTPUT_CHANNELS: u16 = 2;

/// One audio packet, mixed down to interleaved stereo.
#[derive(Clone, Debug)]
pub struct AudioPayload {
    pub data: Vec<Sample>,
    pub sample_rate: u32,
    pub channels: u16,
    pub frames: u32,
}

/// The unsigned number whose little-endian bytes start at `at`.
pub open spec fn le_u32(raw: Seq<u8>, at: int) -> u32 {
    (raw[at] + 256 * raw[at + 1] + 65536 * raw[at + 2] + 16777216 * raw[at + 3]) as u32
}

/// The two's-complement number whose little-endian bytes start at `at`.
pub open spec fn le_i16(raw: Seq<u8>, at: int) -> i16 {
    let unsigned = raw[at] + 256 * raw[at + 1];
    if unsigned >= 32768 {
        (unsigned - 65536) as i16
    } else {
        unsigned as i16
    }
}

/// The `i`-th sample of a packet whose samples are `width` bytes wide.
pub open spec fn sample_at(raw: Seq<u8>, width: nat, i: int) -> Sample {
    if width == 4 {
        Sample::Float32(le_u32(raw, 4 * i))
    } else if width == 2 {
        Sample::Pcm16(le_i16(raw, 2 * i))
    } else {
        Sample::Silence
    }
}

/// How many samples a packet of `raw_len` bytes yields when `total` are asked
/// for: as many whole samples as the bytes hold, and never more than `total`.
pub open spec fn decoded_count(raw_len: nat, width: nat, total: nat) -> nat {
    if width == 0 || total <= raw_len / width {
        total
    } else {
        raw_len / width
    }
}

/// The samples of a packet.
pub open spec fn spec_decode(raw: Seq<u8>, width: nat, total: nat) -> Seq<Sample> {
    Seq::new(decoded_count(raw.len(), width, total), |i: int| sample_at(raw, width, i))
}

proof fn lemma_whole_samples(len: int, width: int, i: int)
    requires
        0 < width,
        0 <= i,
        i * width <= len,
    ensures
        i <= len / width,
        (i + 1) * width > len ==> len / width == i,
{
    vstd::arithmetic::div_mod::lemma_fundamental_div_mod(len, width);
    vstd::arithmetic::div_mod::lemma_mod_bound(len, width);
    let q = len / width;
    let r = len % width;
    assert(i <= q) by (nonlinear_arith)
        requires
            len == width * q + r,
            0 <= r < width,
            i * width <= len,
            0 < width,
    ;
    if (i + 1) * width > len {
        assert(q <= i) by (nonlinear_arith)
            requires
                len == width * q + r,
                0 <= r < width,
                (i + 1) * width > len,
                0 < width,
        ;
    }
}

/// Decodes up to `total_samples` samples of `bytes_per_sample` bytes each.
///
/// Four bytes are the bit pattern of a float, two bytes a signed integer, both
/// little-endian; a sample of any other width is silence. Decoding ends where
/// the bytes no longer hold a whole sample.
pub fn decode_samples(raw: &[u8], bytes_per_sample: usize, total_samples: usize) -> (samples: Vec<
    Sample,
>)
    ensures
        samples@ == spec_decode(raw@, bytes_per_sample as nat, total_samples as nat),
{
    let mut samples: Vec<Sample> = Vec::new();
    let mut offset: usize = 0;
    let mut i: usize = 0;
    while i < total_samples
        invariant_except_break
            i <= total_samples,
        invariant
            samples@.len() == i,
            offset == i * bytes_per_sample,
            offset <= raw@.len() || bytes_per_sample == 0,
            bytes_per_sample > 0 ==> i <= (raw@.len() as int) / (bytes_per_sample as int),
            forall|k: int| 0 <= k < i ==> samples@[k] == sample_at(raw@, bytes_per_sample as nat, k),
        ensures
            i == decoded_count(raw@.len(), bytes_per_sample as nat, total_samples as nat),
        decreases total_samples - i,
    {
        proof {
            if bytes_per_sample > 0 {
                lemma_whole_samples(raw@.len() as int, bytes_per_sample as int, i as int);
            }
        }
        if bytes_per_sample > 0 && bytes_per_sample > raw.len() - offset {
            proof {
                assert((i + 1) * bytes_per_sample == i * bytes_per_sample + bytes_per_sample)
                    by (nonlinear_arith);
            }
            break;
        }
        let sample = if bytes_per_sample == 4 {
            let bits: u32 = raw[offset] as u32 + 256 * (raw[offset + 1] as u32) + 65536 * (raw[offset
                + 2] as u32) + 16777216 * (raw[offset + 3] as u32);
            Sample::Float32(bits)
        } else if bytes_per_sample == 2 {
            let unsigned: i32 = raw[offset] as i32 + 256 * (raw[offset + 1] as i32);
            if unsigned >= 32768 {
                Sample::Pcm16((unsigned - 65536) as i16)
            } else {
                Sample::Pcm16(unsigned as i16)
            }
        } else {
            Sample::Silence
        };
        samples.push(sample);
        proof {
            assert((i + 1) * bytes_per_sample == i * bytes_per_sample + bytes_per_sample)
                by (nonlinear_arith);
            if bytes_per_sample > 0 {
                lemma_whole_samples(raw@.len() as int, bytes_per_sample as int, i + 1);
            }
        }
        offset = offset + bytes_per_sample;
        i = i + 1;
    }
    assert(samples@ =~= spec_decode(raw@, bytes_per_sample as nat, total_samples as nat));
    samples
}

/// The sample at `i`, or silence where the input has none.
pub open spec fn pick(all: Seq<Sample>, i: int) -> Sample {
    if 0 <= i < all.len() {
        all[i]
    } else {
        Sample::Silence
    }
}

/// Interleaved stereo for `frames` frames of `channels` interleaved channels.
///
/// Stereo passes through as it is. Mono is written to both sides. Of more
/// channels the first two of each frame are left and right.
pub open spec fn spec_downmix(all: Seq<Sample>, channels: nat, frames: nat) -> Seq<Sample> {
    if channels == 2 {
        all
    } else if channels == 1 {
        Seq::new(2 * frames, |k: int| pick(all, k / 2))
    } else {
        Seq::new(2 * frames, |k: int| pick(all, (k / 2) * channels + k % 2))
    }
}

/// The left sample of frame `f` of an interleaved stereo buffer.
pub open spec fn left_of(stereo: Seq<Sample>, f: int) -> Sample {
    stereo[2 * f]
}

/// The right sample of frame `f` of an interleaved stereo buffer.
pub open spec fn right_of(stereo: Seq<Sample>, f: int) -> Sample {
    stereo[2 * f + 1]
}

fn sample_or_silence(all: &[Sample], at: Option<usize>) -> (s: Sample)
    ensures
        s == match at {
            Some(i) => pick(all@, i as int),
            None => Sample::Silence,
        },
{
    match at {
        Some(i) => if i < all.len() {
            all[i]
        } else {
            Sample::Silence
        },
        None => Sample::Silence,
    }
}

/// Mixes `frame_count` frames of `channels` interleaved channels down to
/// interleaved stereo.
pub fn downmix_to_stereo(all_samples: &[Sample], channels: usize, frame_count: usize) -> (stereo:
    Vec<Sample>)
    requires
        channels == 2 || 2 * frame_count <= usize::MAX,
    ensures
        stereo@ == spec_downmix(all_samples@, channels as nat, frame_count as nat),
        channels != 2 ==> stereo@.len() == 2 * frame_count,
        channels == 1 ==> forall|f: int|
            0 <= f < frame_count ==> #[trigger] left_of(stereo@, f) == pick(all_samples@, f)
                && right_of(stereo@, f) == pick(all_samples@, f),
        channels != 1 && channels != 2 ==> forall|f: int|
            0 <= f < frame_count ==> #[trigger] left_of(stereo@, f) == pick(
                all_samples@,
                f * channels,
            ) && right_of(stereo@, f) == pick(all_samples@, f * channels + 1),
{
    if channels == 2 {
        let mut stereo: Vec<Sample> = Vec::new();
        let mut i: usize = 0;
        while i < all_samples.len()
            invariant
                i <= all_samples@.len(),
                stereo@ == all_samples@.subrange(0, i as int),
            decreases all_samples@.len() - i,
        {
            stereo.push(all_samples[i]);
            i = i + 1;
            assert(stereo@ =~= all_samples@.subrange(0, i as int));
        }
        assert(stereo@ =~= all_samples@);
        stereo
    } else {
        let mut stereo: Vec<Sample> = Vec::new();
        let available: usize = all_samples.len();
        let mut f: usize = 0;
        while f < frame_count
            invariant
                f <= frame_count,
                available == all_samples@.len(),
                channels != 2,
                2 * frame_count <= usize::MAX,
                stereo@.len() == 2 * f,
                forall|k: int|
                    0 <= k < 2 * f ==> stereo@[k] == spec_downmix(
                        all_samples@,
                        channels as nat,
                        frame_count as nat,
                    )[k],
            decreases frame_count - f,
        {
            let (left_at, right_at): (Option<usize>, Option<usize>) = if channels == 1 {
                (Some(f), Some(f))
            } else {
                match f.checked_mul(channels) {
                    Some(base) => (Some(base), base.checked_add(1)),
                    None => (None, None),
                }
            };
            let left = sample_or_silence(all_samples, left_at);
            let right = sample_or_silence(all_samples, right_at);
            proof {
                let k0 = 2 * f as int;
                let k1 = 2 * f as int + 1;
                assert(k0 / 2 == f && k0 % 2 == 0);
                assert(k1 / 2 == f && k1 % 2 == 1);
                if channels != 1 {
                    if left_at is None {
                        assert(f * channels > usize::MAX);
                    }
                    if right_at is None {
                        assert(f * channels + 1 > usize::MAX);
                    }
                }
            }
            stereo.push(left);
            stereo.push(right);
            f = f + 1;
        }
        assert(stereo@ =~= spec_downmix(all_samples@, channels as nat, frame_count as nat));
        proof {
            assert forall|g: int| 0 <= g < frame_count implies #[trigger] left_of(stereo@, g)
                == pick(all_samples@, if channels == 1 {
                g
            } else {
                g * channels
            }) && right_of(stereo@, g) == pick(
                all_samples@,
                if channels == 1 {
                    g
                } else {
                    g * channels + 1
                },
            ) by {
                assert((2 * g) / 2 == g && (2 * g) % 2 == 0);
                assert((2 * g + 1) / 2 == g && (2 * g + 1) % 2 == 1);
            }
        }
        stereo
    }
}

/// A mixed-down buffer holds two samples for every frame, whatever the number
/// of channels that came in: a buffer of `frames` whole frames of `channels`
/// channels becomes `2 * frames` samples.
pub proof fn lemma_downmix_is_stereo(all: Seq<Sample>, channels: nat, frames: nat)
    requires
        all.len() == frames * channels,
    ensures
        spec_downmix(all, channels, frames).len() == 2 * frames,
{
    if channels == 2 {
        assert(frames * 2 == 2 * frames);
    }
}

/// Mono input lands identically on both sides of every frame.
pub proof fn lemma_downmix_mono_duplicates(all: Seq<Sample>, frames: nat, f: int)
    requires
        0 <= f < frames,
        f < all.len(),
    ensures
        left_of(spec_downmix(all, 1, frames), f) == all[f],
        right_of(spec_downmix(all, 1, frames), f) == all[f],
{
    assert((2 * f) / 2 == f);
    assert((2 * f + 1) / 2 == f);
}

/// Of three or more channels the first two of every frame come through
/// unchanged, as left and right.
pub proof fn lemma_downmix_keeps_front_pair(all: Seq<Sample>, channels: nat, frames: nat, f: int)
    requires
        channels >= 3,
        0 <= f < frames,
        all.len() == frames * channels,
    ensures
        0 <= f * channels,
        f * channels + 1 < all.len(),
        left_of(spec_downmix(all, channels, frames), f) == all[f * channels],
        right_of(spec_downmix(all, channels, frames), f) == all[f * channels + 1],
{
    assert((2 * f) / 2 == f && (2 * f) % 2 == 0);
    assert((2 * f + 1) / 2 == f && (2 * f + 1) % 2 == 1);
    assert(f * channels + channels <= frames * channels) by (nonlinear_arith)
        requires
            0 <= f < frames,
            channels >= 3,
    ;
    assert(0 <= f * channels) by (nonlinear_arith)
        requires
            0 <= f,
            channels >= 3,
    ;
}

} // verus!
