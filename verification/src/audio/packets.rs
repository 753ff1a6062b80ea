//! From the bytes a device delivers to the buffers that are emitted.

use crate::audio::acquire::StreamFormat;
use crate::audio::samples::{
    decode_samples, downmix_to_stereo, spec_decode, spec_downmix, AudioPayload, Sample,
    OUTPUT_CHANNELS,
};
use std::collections::VecDeque;
use vstd::prelude::*;

verus! {

/// Bytes of a packet of `frames` frames in `format`.
pub open spec fn spec_packet_len(frames: u32, format: StreamFormat) -> int {
    frames * format.channels * format.bytes_per_sample
}

/// Bytes of a packet of `frames` frames in `format`, or nothing where the
/// number does not fit.
pub fn packet_len(frames: u32, format: &StreamFormat) -> (len: Option<usize>)
    ensures
        len == if spec_packet_len(frames, *format) <= usize::MAX {
            Some(spec_packet_len(frames, *format) as usize)
        } else {
            None
        },
{
    if format.channels == 0 || format.bytes_per_sample == 0 {
        assert(spec_packet_len(frames, *format) == 0) by (nonlinear_arith)
            requires
                format.channels == 0 || format.bytes_per_sample == 0,
        ;
        return Some(0);
    }
    if frames as u64 > usize::MAX as u64 {
        assert(spec_packet_len(frames, *format) > usize::MAX) by (nonlinear_arith)
            requires
                frames > usize::MAX,
                format.channels >= 1,
                format.bytes_per_sample >= 1,
        ;
        return None;
    }
    match (frames as usize).checked_mul(format.channels) {
        Some(samples) => {
            let len = samples.checked_mul(format.bytes_per_sample);
            assert(spec_packet_len(frames, *format) == samples * format.bytes_per_sample);
            len
        },
        None => {
            assert(spec_packet_len(frames, *format) > usize::MAX) by (nonlinear_arith)
                requires
                    frames * format.channels > usize::MAX,
                    format.bytes_per_sample >= 1,
            ;
            None
        },
    }
}

/// A packet of `frames` frames in `format` can be held and mixed down within
/// the machine's address range.
pub open spec fn packet_fits(frames: u32, format: StreamFormat) -> bool {
    &&& frames * format.channels <= usize::MAX
    &&& (format.channels == 2 || 2 * frames <= usize::MAX)
}

/// The stereo samples of a packet of `frames` frames in `format`.
pub open spec fn spec_packet_samples(raw: Seq<u8>, frames: u32, format: StreamFormat) -> Seq<
    Sample,
> {
    spec_downmix(
        spec_decode(raw, format.bytes_per_sample as nat, (frames * format.channels) as nat),
        format.channels as nat,
        frames as nat,
    )
}

/// Turns one delivered packet into one buffer: decodes its samples and mixes
/// them down to stereo. Nothing is produced only where the packet does not
/// fit the machine.
pub fn process_packet(raw: &[u8], frames: u32, format: &StreamFormat) -> (payload: Option<
    AudioPayload,
>)
    ensures
        payload is Some <==> packet_fits(frames, *format),
        payload matches Some(p) ==> {
            &&& p.data@ == spec_packet_samples(raw@, frames, *format)
            &&& p.sample_rate == format.sample_rate
            &&& p.channels == OUTPUT_CHANNELS
            &&& p.frames == frames
        },
{
    if frames as u64 > usize::MAX as u64 {
        assert(!packet_fits(frames, *format)) by (nonlinear_arith)
            requires
                frames > usize::MAX,
                format.channels >= 0,
        ;
        return None;
    }
    let frame_count: usize = frames as usize;
    let total_samples: usize = match frame_count.checked_mul(format.channels) {
        Some(n) => n,
        None => {
            return None;
        },
    };
    if format.channels != 2 && frame_count > usize::MAX / 2 {
        return None;
    }
    let all = decode_samples(raw, format.bytes_per_sample, total_samples);
    let stereo = downmix_to_stereo(all.as_slice(), format.channels, frame_count);
    Some(
        AudioPayload {
            data: stereo,
            sample_rate: format.sample_rate,
            channels: OUTPUT_CHANNELS,
            frames,
        },
    )
}

/// Samples that are whole in a queue of `queued` bytes.
pub open spec fn queued_samples(queued: nat, format: StreamFormat) -> nat {
    if format.bytes_per_sample == 0 {
        0
    } else {
        queued / (format.bytes_per_sample as nat)
    }
}

/// Frames that are whole in a queue of `queued` bytes.
pub open spec fn queued_frames(queued: nat, format: StreamFormat) -> nat {
    if format.channels == 0 {
        0
    } else {
        queued_samples(queued, format) / (format.channels as nat)
    }
}

/// A queue of `queued` bytes yields a buffer: it holds a whole frame, and the
/// stereo result fits the machine.
pub open spec fn queue_ready(queued: nat, format: StreamFormat) -> bool {
    &&& queued_frames(queued, format) > 0
    &&& (format.channels == 2 || 2 * queued_frames(queued, format) <= usize::MAX)
}

/// Takes every whole sample out of `queue` and turns them into one buffer.
///
/// Bytes of an unfinished sample stay queued for the next delivery. A queue
/// without a whole frame is left as it is.
pub fn drain_queue(queue: &mut VecDeque<u8>, format: &StreamFormat) -> (payload: Option<
    AudioPayload,
>)
    ensures
        payload is Some <==> queue_ready(old(queue)@.len(), *format),
        payload is None ==> final(queue)@ == old(queue)@,
        payload matches Some(p) ==> {
            let samples = queued_samples(old(queue)@.len(), *format);
            let taken = samples * format.bytes_per_sample;
            &&& taken <= old(queue)@.len()
            &&& final(queue)@ == old(queue)@.subrange(taken as int, old(queue)@.len() as int)
            &&& p.data@ == spec_downmix(
                spec_decode(
                    old(queue)@.subrange(0, taken as int),
                    format.bytes_per_sample as nat,
                    samples,
                ),
                format.channels as nat,
                queued_frames(old(queue)@.len(), *format),
            )
            &&& p.sample_rate == format.sample_rate
            &&& p.channels == OUTPUT_CHANNELS
            &&& p.frames as nat == queued_frames(old(queue)@.len(), *format) % 0x1_0000_0000
        },
{
    let width = format.bytes_per_sample;
    if width == 0 || format.channels == 0 {
        return None;
    }
    let total_bytes = queue.len();
    let total_samples = total_bytes / width;
    let frame_count = total_samples / format.channels;
    if frame_count == 0 {
        return None;
    }
    if format.channels != 2 && frame_count > usize::MAX / 2 {
        return None;
    }
    proof {
        vstd::arithmetic::div_mod::lemma_fundamental_div_mod(total_bytes as int, width as int);
        vstd::arithmetic::div_mod::lemma_mod_bound(total_bytes as int, width as int);
        assert(total_samples * width == width * total_samples) by (nonlinear_arith);
    }
    let taken: usize = total_samples * width;
    let ghost before = queue@;
    let mut raw: Vec<u8> = Vec::new();
    let mut k: usize = 0;
    while k < taken
        invariant
            k <= taken <= before.len(),
            raw@ == before.subrange(0, k as int),
            queue@ == before.subrange(k as int, before.len() as int),
        decreases taken - k,
    {
        match queue.pop_front() {
            Some(byte) => {
                raw.push(byte);
            },
            None => {},
        }
        k = k + 1;
        assert(raw@ =~= before.subrange(0, k as int));
        assert(queue@ =~= before.subrange(k as int, before.len() as int));
    }
    let all = decode_samples(raw.as_slice(), width, total_samples);
    let stereo = downmix_to_stereo(all.as_slice(), format.channels, frame_count);
    let frames: u32 = ((frame_count as u64) % 0x1_0000_0000) as u32;
    Some(
        AudioPayload {
            data: stereo,
            sample_rate: format.sample_rate,
            channels: OUTPUT_CHANNELS,
            frames,
        },
    )
}

} // verus!
