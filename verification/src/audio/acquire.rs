//! Acquiring a loopback client: which processes it covers, the parameter
//! block handed to the activation call, the stream format asked for, and the
//! notice that tells the user interface which kind of loopback is running.

use crate::text::{decimal_digits, push_decimal};
use vstd::prelude::*;
use vstd::string::StringExecFns;

verus! {

/// Which side of a process tree a process-scoped loopback records.
#[derive(Clone, Copy, Debug, PartialEq, Eq, Structural)]
pub enum LoopbackMode {
    /// Only the target process and its children. Used when one window is
    /// shared.
    IncludeTargetProcessTree,
    /// Everything but the target process and its children. Used when a whole
    /// monitor is shared, with the application itself as the target, so that
    /// its own voice audio is left out.
    ExcludeTargetProcessTree,
}

/// The process tree a process-scoped loopback is bound to.
#[derive(Clone, Copy, Debug, PartialEq, Eq, Structural)]
pub struct LoopbackScope {
    pub process_id: u32,
    pub mode: LoopbackMode,
}

/// The scope for a capture of `target_process_id`, where 0 stands for "no
/// single process", asked for by the process `own_process_id`.
pub open spec fn spec_loopback_scope(target_process_id: u32, own_process_id: u32) -> LoopbackScope {
    if target_process_id > 0 {
        LoopbackScope {
            process_id: target_process_id,
            mode: LoopbackMode::IncludeTargetProcessTree,
        }
    } else {
        LoopbackScope { process_id: own_process_id, mode: LoopbackMode::ExcludeTargetProcessTree }
    }
}

/// Chooses the loopback scope of a session.
pub fn loopback_scope(target_process_id: u32, own_process_id: u32) -> (scope: LoopbackScope)
    ensures
        scope == spec_loopback_scope(target_process_id, own_process_id),
{
    if target_process_id > 0 {
        LoopbackScope {
            process_id: target_process_id,
            mode: LoopbackMode::IncludeTargetProcessTree,
        }
    } else {
        LoopbackScope { process_id: own_process_id, mode: LoopbackMode::ExcludeTargetProcessTree }
    }
}

impl LoopbackMode {
    /// The number the audio stack knows the mode by.
    pub open spec fn spec_code(self) -> i32 {
        match self {
            LoopbackMode::IncludeTargetProcessTree => 0,
            LoopbackMode::ExcludeTargetProcessTree => 1,
        }
    }

    /// The number the audio stack knows the mode by.
    pub fn code(self) -> (c: i32)
        ensures
            c == self.spec_code(),
    {
        match self {
            LoopbackMode::IncludeTargetProcessTree => 0,
            LoopbackMode::ExcludeTargetProcessTree => 1,
        }
    }

    /// The mode's name as notices spell it.
    pub open spec fn spec_label(self) -> Seq<char> {
        match self {
            LoopbackMode::IncludeTargetProcessTree => "include"@,
            LoopbackMode::ExcludeTargetProcessTree => "exclude"@,
        }
    }

    /// The mode's name as notices spell it.
    pub fn label(self) -> (s: &'static str)
        ensures
            s@ == self.spec_label(),
    {
        match self {
            LoopbackMode::IncludeTargetProcessTree => "include",
            LoopbackMode::ExcludeTargetProcessTree => "exclude",
        }
    }
}

/// Activation type of a process-scoped loopback.
pub const ACTIVATION_TYPE_PROCESS_LOOPBACK: i32 = 1;

/// Variant tag of a binary blob.
pub const VARIANT_TYPE_BLOB: u16 = 0x0041;

/// Bytes of an `ActivationParams` block.
pub const ACTIVATION_PARAMS_LEN: u32 = 12;

/// Longest wait for the activation to complete, in milliseconds.
pub const ACTIVATION_TIMEOUT_MS: u32 = 5000;

/// The parameter block of a process-scoped activation: three 32-bit fields in
/// this order, without padding.
#[derive(Clone, Copy, Debug, PartialEq, Eq, Structural)]
pub struct ActivationParams {
    pub activation_type: i32,
    pub target_process_id: u32,
    pub process_loopback_mode: i32,
}

/// The head of the variant that carries the parameter block: the tag, three
/// reserved words, the block's length and four bytes of padding. The pointer
/// to the block follows it.
#[derive(Clone, Copy, Debug, PartialEq, Eq, Structural)]
pub struct BlobHeader {
    pub variant_type: u16,
    pub reserved1: u16,
    pub reserved2: u16,
    pub reserved3: u16,
    pub blob_len: u32,
    pub padding: u32,
}

/// The parameter block for `scope`.
pub open spec fn spec_activation_params(scope: LoopbackScope) -> ActivationParams {
    ActivationParams {
        activation_type: ACTIVATION_TYPE_PROCESS_LOOPBACK,
        target_process_id: scope.process_id,
        process_loopback_mode: scope.mode.spec_code(),
    }
}

/// Builds the parameter block for `scope`.
pub fn activation_params(scope: LoopbackScope) -> (params: ActivationParams)
    ensures
        params == spec_activation_params(scope),
{
    ActivationParams {
        activation_type: ACTIVATION_TYPE_PROCESS_LOOPBACK,
        target_process_id: scope.process_id,
        process_loopback_mode: scope.mode.code(),
    }
}

/// The four little-endian bytes of `v`.
pub open spec fn le_bytes_u32(v: u32) -> Seq<u8> {
    seq![
        (v % 256) as u8,
        (v / 256 % 256) as u8,
        (v / 65536 % 256) as u8,
        (v / 16777216) as u8,
    ]
}

/// The two little-endian bytes of `v`.
pub open spec fn le_bytes_u16(v: u16) -> Seq<u8> {
    seq![(v % 256) as u8, (v / 256) as u8]
}

/// The unsigned number with the same 32 bits as `v`.
pub open spec fn twos_complement(v: i32) -> u32 {
    if v < 0 {
        (v + 4294967296) as u32
    } else {
        v as u32
    }
}

impl ActivationParams {
    /// The block as the audio stack reads it: each field little-endian, in
    /// declaration order.
    pub open spec fn spec_bytes(self) -> Seq<u8> {
        le_bytes_u32(twos_complement(self.activation_type)) + le_bytes_u32(self.target_process_id)
            + le_bytes_u32(twos_complement(self.process_loopback_mode))
    }

    /// Lays the block out in memory order.
    pub fn to_bytes(&self) -> (bytes: Vec<u8>)
        ensures
            bytes@ == self.spec_bytes(),
            bytes@.len() == ACTIVATION_PARAMS_LEN,
    {
        let mut bytes: Vec<u8> = Vec::new();
        push_le_u32(&mut bytes, unsigned_bits(self.activation_type));
        push_le_u32(&mut bytes, self.target_process_id);
        push_le_u32(&mut bytes, unsigned_bits(self.process_loopback_mode));
        assert(bytes@ =~= self.spec_bytes());
        bytes
    }
}

impl BlobHeader {
    /// The header as the audio stack reads it.
    pub open spec fn spec_bytes(self) -> Seq<u8> {
        le_bytes_u16(self.variant_type) + le_bytes_u16(self.reserved1) + le_bytes_u16(
            self.reserved2,
        ) + le_bytes_u16(self.reserved3) + le_bytes_u32(self.blob_len) + le_bytes_u32(self.padding)
    }

    /// Lays the header out in memory order.
    pub fn to_bytes(&self) -> (bytes: Vec<u8>)
        ensures
            bytes@ == self.spec_bytes(),
            bytes@.len() == 16,
    {
        let mut bytes: Vec<u8> = Vec::new();
        push_le_u16(&mut bytes, self.variant_type);
        push_le_u16(&mut bytes, self.reserved1);
        push_le_u16(&mut bytes, self.reserved2);
        push_le_u16(&mut bytes, self.reserved3);
        push_le_u32(&mut bytes, self.blob_len);
        push_le_u32(&mut bytes, self.padding);
        assert(bytes@ =~= self.spec_bytes());
        bytes
    }
}

/// The header of a variant that carries one `ActivationParams` block.
pub fn activation_blob_header() -> (header: BlobHeader)
    ensures
        header == (BlobHeader {
            variant_type: VARIANT_TYPE_BLOB,
            reserved1: 0,
            reserved2: 0,
            reserved3: 0,
            blob_len: ACTIVATION_PARAMS_LEN,
            padding: 0,
        }),
{
    BlobHeader {
        variant_type: VARIANT_TYPE_BLOB,
        reserved1: 0,
        reserved2: 0,
        reserved3: 0,
        blob_len: ACTIVATION_PARAMS_LEN,
        padding: 0,
    }
}

fn unsigned_bits(v: i32) -> (u: u32)
    ensures
        u == twos_complement(v),
{
    if v < 0 {
        (v as i64 + 4294967296) as u32
    } else {
        v as u32
    }
}

fn push_le_u32(out: &mut Vec<u8>, v: u32)
    ensures
        final(out)@ == old(out)@ + le_bytes_u32(v),
{
    out.push((v % 256) as u8);
    out.push((v / 256 % 256) as u8);
    out.push((v / 65536 % 256) as u8);
    out.push((v / 16777216) as u8);
    assert(out@ =~= old(out)@ + le_bytes_u32(v));
}

fn push_le_u16(out: &mut Vec<u8>, v: u16)
    ensures
        final(out)@ == old(out)@ + le_bytes_u16(v),
{
    out.push((v % 256) as u8);
    out.push((v / 256) as u8);
    assert(out@ =~= old(out)@ + le_bytes_u16(v));
}

/// Format tag of plain integer PCM.
pub const WAVE_FORMAT_PCM: u16 = 1;

/// A stream format as the audio stack takes it.
#[derive(Clone, Copy, Debug, PartialEq, Eq, Structural)]
pub struct WaveFormat {
    pub format_tag: u16,
    pub channels: u16,
    pub samples_per_sec: u32,
    pub avg_bytes_per_sec: u32,
    pub block_align: u16,
    pub bits_per_sample: u16,
    pub extra_len: u16,
}

impl WaveFormat {
    /// The derived fields agree with the basic ones: a block is one sample of
    /// every channel, and the byte rate is one block per sample tick.
    pub open spec fn consistent(self) -> bool {
        &&& self.block_align == self.channels * self.bits_per_sample / 8
        &&& self.avg_bytes_per_sec == self.samples_per_sec * self.block_align
    }
}

/// The integer PCM format with the given basics, where its derived fields
/// fit their widths.
pub open spec fn spec_pcm_format(channels: u16, samples_per_sec: u32, bits_per_sample: u16)
    -> Option<WaveFormat> {
    let block = channels * bits_per_sample / 8;
    if block <= u16::MAX && samples_per_sec * block <= u32::MAX {
        Some(
            WaveFormat {
                format_tag: WAVE_FORMAT_PCM,
                channels,
                samples_per_sec,
                avg_bytes_per_sec: (samples_per_sec * block) as u32,
                block_align: block as u16,
                bits_per_sample,
                extra_len: 0,
            },
        )
    } else {
        None
    }
}

/// Builds an integer PCM format, or nothing where a derived field would not
/// fit its width.
pub fn pcm_format(channels: u16, samples_per_sec: u32, bits_per_sample: u16) -> (format: Option<
    WaveFormat,
>)
    ensures
        format == spec_pcm_format(channels, samples_per_sec, bits_per_sample),
        format matches Some(f) ==> f.consistent(),
{
    assert(channels * bits_per_sample <= 65535 * 65535) by (nonlinear_arith)
        requires
            0 <= channels <= 65535,
            0 <= bits_per_sample <= 65535,
    ;
    let block: u32 = (channels as u32) * (bits_per_sample as u32) / 8;
    if block > u16::MAX as u32 {
        return None;
    }
    assert(samples_per_sec * block <= 0xffff_ffff * 65535) by (nonlinear_arith)
        requires
            0 <= samples_per_sec <= 0xffff_ffff,
            0 <= block <= 65535,
    ;
    let rate: u64 = (samples_per_sec as u64) * (block as u64);
    if rate > u32::MAX as u64 {
        return None;
    }
    Some(
        WaveFormat {
            format_tag: WAVE_FORMAT_PCM,
            channels,
            samples_per_sec,
            avg_bytes_per_sec: rate as u32,
            block_align: block as u16,
            bits_per_sample,
            extra_len: 0,
        },
    )
}

/// Sample rate asked of a process-scoped loopback.
pub const PROCESS_LOOPBACK_RATE: u32 = 48000;

/// Channels asked of a process-scoped loopback.
pub const PROCESS_LOOPBACK_CHANNELS: u16 = 2;

/// Sample width asked of a process-scoped loopback.
pub const PROCESS_LOOPBACK_BITS: u16 = 16;

/// The format a process-scoped loopback is initialised with: 16-bit stereo
/// PCM at 48 kHz. The audio stack converts whatever the processes play.
pub fn process_loopback_format() -> (format: WaveFormat)
    ensures
        Some(format) == spec_pcm_format(
            PROCESS_LOOPBACK_CHANNELS,
            PROCESS_LOOPBACK_RATE,
            PROCESS_LOOPBACK_BITS,
        ),
        format.consistent(),
        format.block_align == 4,
        format.avg_bytes_per_sec == 192000,
{
    WaveFormat {
        format_tag: WAVE_FORMAT_PCM,
        channels: PROCESS_LOOPBACK_CHANNELS,
        samples_per_sec: PROCESS_LOOPBACK_RATE,
        avg_bytes_per_sec: 192000,
        block_align: 4,
        bits_per_sample: PROCESS_LOOPBACK_BITS,
        extra_len: 0,
    }
}

/// Stream flag: record what the endpoint plays.
pub const STREAM_FLAG_LOOPBACK: u32 = 0x0002_0000;

/// Stream flag: signal an event when a packet is ready.
pub const STREAM_FLAG_EVENT_CALLBACK: u32 = 0x0004_0000;

/// Stream flag: convert to the format asked for.
pub const STREAM_FLAG_AUTO_CONVERT_PCM: u32 = 0x8000_0000;

/// The flags a process-scoped loopback is initialised with: loopback,
/// event-driven, converting.
pub fn process_loopback_stream_flags() -> (flags: u32)
    ensures
        flags == 0x8006_0000u32,
        flags & STREAM_FLAG_LOOPBACK == STREAM_FLAG_LOOPBACK,
        flags & STREAM_FLAG_EVENT_CALLBACK == STREAM_FLAG_EVENT_CALLBACK,
        flags & STREAM_FLAG_AUTO_CONVERT_PCM == STREAM_FLAG_AUTO_CONVERT_PCM,
{
    let flags: u32 = STREAM_FLAG_LOOPBACK | STREAM_FLAG_EVENT_CALLBACK
        | STREAM_FLAG_AUTO_CONVERT_PCM;
    assert(0x0002_0000u32 | 0x0004_0000u32 | 0x8000_0000u32 == 0x8006_0000u32) by (bit_vector);
    assert(0x8006_0000u32 & 0x0002_0000u32 == 0x0002_0000u32) by (bit_vector);
    assert(0x8006_0000u32 & 0x0004_0000u32 == 0x0004_0000u32) by (bit_vector);
    assert(0x8006_0000u32 & 0x8000_0000u32 == 0x8000_0000u32) by (bit_vector);
    flags
}

/// How the samples of a running stream are laid out.
#[derive(Clone, Copy, Debug, PartialEq, Eq, Structural)]
pub struct StreamFormat {
    pub sample_rate: u32,
    pub channels: usize,
    pub bits_per_sample: u16,
    pub bytes_per_sample: usize,
}

/// The layout of a stream with the given basics.
pub open spec fn spec_stream_format(sample_rate: u32, channels: u16, bits_per_sample: u16)
    -> StreamFormat {
    StreamFormat {
        sample_rate,
        channels: channels as usize,
        bits_per_sample,
        bytes_per_sample: (bits_per_sample / 8) as usize,
    }
}

/// Derives the sample layout from what a device or a format reports.
pub fn stream_format(sample_rate: u32, channels: u16, bits_per_sample: u16) -> (format:
    StreamFormat)
    ensures
        format == spec_stream_format(sample_rate, channels, bits_per_sample),
{
    StreamFormat {
        sample_rate,
        channels: channels as usize,
        bits_per_sample,
        bytes_per_sample: (bits_per_sample / 8) as usize,
    }
}

/// Which kind of loopback a session runs on.
#[derive(Clone, Copy, Debug, PartialEq, Eq, Structural)]
pub enum AudioTier {
    /// Loopback scoped to a process tree.
    ProcessLoopback(LoopbackScope),
    /// The full mix of the default output device. It holds the application's
    /// own voice audio too, so listeners may hear an echo.
    RegularLoopback(StreamFormat),
}

/// The notice for a process-scoped loopback.
pub open spec fn spec_process_notice(scope: LoopbackScope) -> Seq<char> {
    "WASAPI (process-"@ + scope.mode.spec_label() + ", PID="@ + decimal_digits(
        scope.process_id as nat,
    ) + "): "@ + decimal_digits(PROCESS_LOOPBACK_RATE as nat) + "Hz "@ + decimal_digits(
        PROCESS_LOOPBACK_CHANNELS as nat,
    ) + "ch "@ + decimal_digits(PROCESS_LOOPBACK_BITS as nat) + "bit PCM"@
}

/// The notice for a regular loopback in `format`. The regular loopback runs
/// only where the process-scoped one could not be had, and the notice says
/// so, since listeners may then hear an echo.
pub open spec fn spec_regular_notice(format: StreamFormat) -> Seq<char> {
    "WASAPI: regular loopback (process loopback unavailable), "@ + decimal_digits(
        format.sample_rate as nat,
    ) + "Hz "@ + decimal_digits(format.channels as nat) + "ch "@ + decimal_digits(
        format.bits_per_sample as nat,
    ) + "bit"@
}

/// The notice for `tier`.
pub open spec fn spec_tier_notice(tier: AudioTier) -> Seq<char> {
    match tier {
        AudioTier::ProcessLoopback(scope) => spec_process_notice(scope),
        AudioTier::RegularLoopback(format) => spec_regular_notice(format),
    }
}

/// The notice that tells the user interface which loopback is active and in
/// which format it delivers.
pub fn tier_notice(tier: AudioTier) -> (notice: String)
    ensures
        notice@ == spec_tier_notice(tier),
{
    match tier {
        AudioTier::ProcessLoopback(scope) => {
            let mut notice = String::from_str("WASAPI (process-");
            notice.append(scope.mode.label());
            notice.append(", PID=");
            push_decimal(&mut notice, scope.process_id as u128);
            notice.append("): ");
            push_decimal(&mut notice, PROCESS_LOOPBACK_RATE as u128);
            notice.append("Hz ");
            push_decimal(&mut notice, PROCESS_LOOPBACK_CHANNELS as u128);
            notice.append("ch ");
            push_decimal(&mut notice, PROCESS_LOOPBACK_BITS as u128);
            notice.append("bit PCM");
            notice
        },
        AudioTier::RegularLoopback(format) => {
            let mut notice = String::from_str(
                "WASAPI: regular loopback (process loopback unavailable), ",
            );
            push_decimal(&mut notice, format.sample_rate as u128);
            notice.append("Hz ");
            push_decimal(&mut notice, format.channels as u128);
            notice.append("ch ");
            push_decimal(&mut notice, format.bits_per_sample as u128);
            notice.append("bit");
            notice
        },
    }
}

/// The tier that a session runs on: the process-scoped loopback where it
/// started, else the regular loopback where that started in `regular`, else
/// none.
pub open spec fn spec_audio_tier(
    process_started: bool,
    scope: LoopbackScope,
    regular: Option<StreamFormat>,
) -> Option<AudioTier> {
    if process_started {
        Some(AudioTier::ProcessLoopback(scope))
    } else {
        match regular {
            Some(format) => Some(AudioTier::RegularLoopback(format)),
            None => None,
        }
    }
}

/// Names the tier that a session runs on.
pub fn audio_tier(process_started: bool, scope: LoopbackScope, regular: Option<StreamFormat>) -> (tier:
    Option<AudioTier>)
    ensures
        tier == spec_audio_tier(process_started, scope, regular),
{
    if process_started {
        Some(AudioTier::ProcessLoopback(scope))
    } else {
        match regular {
            Some(format) => Some(AudioTier::RegularLoopback(format)),
            None => None,
        }
    }
}

/// The notices of one audio session: exactly one, that of the tier it runs
/// on, and none where no tier could be had. A session that falls back emits
/// the notice of the regular loopback and no other.
pub open spec fn spec_session_notices(tier: Option<AudioTier>) -> Seq<Seq<char>> {
    match tier {
        Some(t) => seq![spec_tier_notice(t)],
        None => Seq::empty(),
    }
}

/// Writes the notices that an audio session emits, before its first buffer.
pub fn session_notices(tier: Option<AudioTier>) -> (notices: Vec<String>)
    ensures
        notices@.len() == spec_session_notices(tier).len(),
        notices@.len() <= 1,
        tier is Some ==> notices@.len() == 1,
        forall|i: int|
            0 <= i < notices@.len() ==> (#[trigger] notices@[i])@ == spec_session_notices(tier)[i],
{
    let mut notices: Vec<String> = Vec::new();
    match tier {
        Some(t) => {
            notices.push(tier_notice(t));
        },
        None => {},
    }
    notices
}

/// What follows an attempt at the process-scoped loopback.
#[derive(Clone, Copy, Debug, PartialEq, Eq, Structural)]
pub enum AfterProcessLoopback {
    /// The attempt ran a whole session; nothing is left to do.
    Finished,
    /// The attempt failed: run the regular loopback.
    FallBack,
}

/// Decides what follows an attempt at the process-scoped loopback that
/// ended with success (`attempt_ok`) or with any failure.
pub fn after_process_loopback(attempt_ok: bool) -> (next: AfterProcessLoopback)
    ensures
        next == if attempt_ok {
            AfterProcessLoopback::Finished
        } else {
            AfterProcessLoopback::FallBack
        },
{
    if attempt_ok {
        AfterProcessLoopback::Finished
    } else {
        AfterProcessLoopback::FallBack
    }
}

} // verus!
