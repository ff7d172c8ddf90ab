//! Layout of an Ogg/Opus stream (RFC 7845): encoder setup, header packets,
//! the frame plan over the recorded samples, and the Ogg framing of packets.

use vstd::prelude::*;
use crate::text::{decimal_chars, push_decimal};
use crate::ogg_writer::{
    ogg_packets_written, ogg_stream_bytes, ogg_write_packet, ogg_writer_into_bytes, ogg_writer_new,
    PacketEnd,
};

verus! {

/// The sample rates that an Opus encoder accepts.
pub open spec fn is_opus_rate(rate: u32) -> bool {
    rate == 8000 || rate == 12000 || rate == 16000 || rate == 24000 || rate == 48000
}

/// Channel layouts that Opus encodes with mapping family 0.
#[derive(PartialEq, Eq, Structural, Clone, Copy, Debug)]
pub enum OpusChannelLayout {
    Mono,
    Stereo,
}

/// Why an Ogg/Opus export is refused before any encoding starts.
#[derive(PartialEq, Eq, Structural, Clone, Copy, Debug)]
pub enum OpusSetupError {
    /// Opus (mapping family 0) only encodes one or two channels.
    UnsupportedChannelCount(u16),
}

impl OpusSetupError {
    /// The message the recorder answers a refused export with.
    pub fn message(&self) -> (m: String)
        ensures
            m@ == (match *self {
                OpusSetupError::UnsupportedChannelCount(c) => "Unsupported channel count: "@
                    + decimal_chars(c as nat) + ". Opus supports mono/stereo."@,
            }),
    {
        match self {
            OpusSetupError::UnsupportedChannelCount(c) => {
                let mut m = String::from_str("Unsupported channel count: ");
                push_decimal(&mut m, *c as u64);
                m.append(". Opus supports mono/stereo.");
                m
            },
        }
    }
}

/// How a recording at `sample_rate` with `channels` channels is encoded.
#[derive(PartialEq, Eq, Structural, Clone, Copy, Debug)]
pub struct OpusEncodingSetup {
    /// The rate handed to the encoder (always an Opus rate).
    pub encode_rate: u32,
    /// Whether the samples must first be resampled to `encode_rate`.
    pub needs_resample: bool,
    pub layout: OpusChannelLayout,
}

pub open spec fn spec_layout(channels: u16) -> Option<OpusChannelLayout> {
    if channels == 1 {
        Some(OpusChannelLayout::Mono)
    } else if channels == 2 {
        Some(OpusChannelLayout::Stereo)
    } else {
        None
    }
}

/// Chooses the encoder rate and channel layout: a recording at an Opus rate
/// is encoded at that rate, any other rate is resampled to 48 kHz; only mono
/// and stereo are accepted.
pub fn opus_encoding_setup(sample_rate: u32, channels: u16) -> (r: Result<
    OpusEncodingSetup,
    OpusSetupError,
>)
    ensures
        r is Err <==> spec_layout(channels) is None,
        r matches Err(e) ==> e == OpusSetupError::UnsupportedChannelCount(channels),
        r matches Ok(setup) ==> {
            &&& Some(setup.layout) == spec_layout(channels)
            &&& setup.needs_resample == !is_opus_rate(sample_rate)
            &&& setup.encode_rate == (if is_opus_rate(sample_rate) { sample_rate } else { 48000 })
            &&& is_opus_rate(setup.encode_rate)
        },
{
    let layout = if channels == 1 {
        OpusChannelLayout::Mono
    } else if channels == 2 {
        OpusChannelLayout::Stereo
    } else {
        return Err(OpusSetupError::UnsupportedChannelCount(channels));
    };
    let supported = sample_rate == 8000 || sample_rate == 12000 || sample_rate == 16000
        || sample_rate == 24000 || sample_rate == 48000;
    let encode_rate = if supported {
        sample_rate
    } else {
        48000
    };
    Ok(OpusEncodingSetup { encode_rate, needs_resample: !supported, layout })
}


/// The pre-skip written into OpusHead, counted at 48 kHz: the encoder's
/// lookahead, truncated to 16 bits, scaled from `encode_rate` to 48 kHz and
/// truncated to 16 bits again.
pub open spec fn spec_pre_skip_48(lookahead: u32, encode_rate: u32) -> u16 {
    let pre_skip = lookahead as int % 65536;
    if encode_rate == 48000 {
        pre_skip as u16
    } else {
        ((pre_skip * 48000 / encode_rate as int) % 65536) as u16
    }
}

/// Converts the encoder lookahead (in samples at `encode_rate`) into the
/// OpusHead pre-skip, which Ogg Opus always counts at 48 kHz.
pub fn opus_pre_skip(lookahead: u32, encode_rate: u32) -> (r: u16)
    requires
        encode_rate > 0,
    ensures
        r == spec_pre_skip_48(lookahead, encode_rate),
{
    let pre_skip: u16 = (lookahead % 65536) as u16;
    if encode_rate == 48000 {
        pre_skip
    } else {
        let scaled: u64 = (pre_skip as u64) * 48000 / (encode_rate as u64);
        (scaled % 65536) as u16
    }
}

/// Little-endian bytes of a 16-bit value.
pub open spec fn le16(x: int) -> Seq<u8> {
    seq![(x % 256) as u8, ((x / 256) % 256) as u8]
}

/// Little-endian bytes of a 32-bit value.
pub open spec fn le32(x: int) -> Seq<u8> {
    seq![
        (x % 256) as u8,
        ((x / 256) % 256) as u8,
        ((x / 65536) % 256) as u8,
        ((x / 16777216) % 256) as u8,
    ]
}

/// "OpusHead"
pub open spec fn opus_head_magic() -> Seq<u8> {
    seq![0x4fu8, 0x70u8, 0x75u8, 0x73u8, 0x48u8, 0x65u8, 0x61u8, 0x64u8]
}

/// "OpusTags"
pub open spec fn opus_tags_magic() -> Seq<u8> {
    seq![0x4fu8, 0x70u8, 0x75u8, 0x73u8, 0x54u8, 0x61u8, 0x67u8, 0x73u8]
}

/// "tauri-recorder", the vendor string of the comment header.
pub open spec fn vendor_string() -> Seq<u8> {
    seq![
        0x74u8, 0x61u8, 0x75u8, 0x72u8, 0x69u8, 0x2du8, 0x72u8,
        0x65u8, 0x63u8, 0x6fu8, 0x72u8, 0x64u8, 0x65u8, 0x72u8,
    ]
}

/// The identification header (RFC 7845, 5.1): magic, version 1, channel
/// count, pre-skip at 48 kHz, original sample rate, output gain 0, channel
/// mapping family 0.
pub open spec fn spec_opus_head(channels: u16, pre_skip_48: u16, sample_rate: u32) -> Seq<u8> {
    opus_head_magic() + seq![1u8, (channels as int % 256) as u8] + le16(pre_skip_48 as int) + le32(
        sample_rate as int,
    ) + seq![0u8, 0u8, 0u8]
}

/// The comment header (RFC 7845, 5.2): magic, vendor length, vendor string,
/// and an empty comment list.
pub open spec fn spec_opus_tags() -> Seq<u8> {
    opus_tags_magic() + le32(vendor_string().len() as int) + vendor_string() + le32(0)
}

fn push_le16(buf: &mut Vec<u8>, x: u16)
    ensures
        final(buf)@ == old(buf)@ + le16(x as int),
{
    buf.push((x % 256) as u8);
    buf.push((x / 256) as u8);
    assert(final(buf)@ =~= old(buf)@ + le16(x as int));
}

fn push_le32(buf: &mut Vec<u8>, x: u32)
    ensures
        final(buf)@ == old(buf)@ + le32(x as int),
{
    buf.push((x % 256) as u8);
    buf.push(((x / 256) % 256) as u8);
    buf.push(((x / 65536) % 256) as u8);
    buf.push((x / 16777216) as u8);
    assert(final(buf)@ =~= old(buf)@ + le32(x as int));
}

fn push_all(buf: &mut Vec<u8>, bytes: &[u8])
    ensures
        final(buf)@ == old(buf)@ + bytes@,
{
    let mut i: usize = 0;
    while i < bytes.len()
        invariant
            i <= bytes@.len(),
            buf@ == old(buf)@ + bytes@.subrange(0, i as int),
        decreases bytes@.len() - i,
    {
        buf.push(bytes[i]);
        i = i + 1;
        assert(buf@ =~= old(buf)@ + bytes@.subrange(0, i as int));
    }
    assert(bytes@.subrange(0, i as int) =~= bytes@);
}

/// Builds the OpusHead packet.
pub fn opus_head_packet(channels: u16, pre_skip_48: u16, sample_rate: u32) -> (r: Vec<u8>)
    ensures
        r@ == spec_opus_head(channels, pre_skip_48, sample_rate),
        r@.len() == 19,
{
    let magic: [u8; 8] = [0x4f, 0x70, 0x75, 0x73, 0x48, 0x65, 0x61, 0x64];
    let mut head: Vec<u8> = Vec::with_capacity(19);
    push_all(&mut head, &magic);
    head.push(1);
    head.push((channels % 256) as u8);
    push_le16(&mut head, pre_skip_48);
    push_le32(&mut head, sample_rate);
    push_le16(&mut head, 0);
    head.push(0);
    assert(magic@ =~= opus_head_magic());
    assert(le16(0) =~= seq![0u8, 0u8]);
    assert(head@ =~= spec_opus_head(channels, pre_skip_48, sample_rate));
    head
}

/// Builds the OpusTags packet.
pub fn opus_tags_packet() -> (r: Vec<u8>)
    ensures
        r@ == spec_opus_tags(),
        r@.len() == 30,
{
    let magic: [u8; 8] = [0x4f, 0x70, 0x75, 0x73, 0x54, 0x61, 0x67, 0x73];
    let vendor: [u8; 14] = [
        0x74, 0x61, 0x75, 0x72, 0x69, 0x2d, 0x72, 0x65, 0x63, 0x6f, 0x72, 0x64, 0x65, 0x72,
    ];
    let mut tags: Vec<u8> = Vec::with_capacity(30);
    push_all(&mut tags, &magic);
    push_le32(&mut tags, 14);
    push_all(&mut tags, &vendor);
    push_le32(&mut tags, 0);
    assert(magic@ =~= opus_tags_magic());
    assert(vendor@ =~= vendor_string());
    assert(tags@ =~= spec_opus_tags());
    tags
}


/// Samples per channel in one 20 ms frame at `encode_rate`.
pub open spec fn spec_frame_samples_per_channel(encode_rate: u32) -> int {
    encode_rate as int / 50
}

/// Interleaved samples in one 20 ms frame.
pub open spec fn spec_frame_size(encode_rate: u32, channels: u16) -> int {
    spec_frame_samples_per_channel(encode_rate) * channels as int
}

/// How far the granule position (always counted at 48 kHz) advances per frame.
pub open spec fn spec_granules_per_frame(encode_rate: u32) -> int {
    if encode_rate == 48000 {
        spec_frame_samples_per_channel(encode_rate)
    } else {
        spec_frame_samples_per_channel(encode_rate) * 48000 / encode_rate as int
    }
}

/// Number of frames needed to hold `sample_count` interleaved samples.
pub open spec fn spec_packet_count(sample_count: int, frame_size: int) -> int {
    if sample_count == 0 {
        0
    } else {
        (sample_count + frame_size - 1) / frame_size
    }
}

/// One audio packet of the stream: the interleaved samples
/// `start..end` (padded with silence up to a full frame when shorter),
/// the granule position after it, and whether it ends the stream.
#[derive(PartialEq, Eq, Structural, Clone, Copy, Debug)]
pub struct AudioPacketPlan {
    pub start: usize,
    pub end: usize,
    pub granule: u64,
    pub end_of_stream: bool,
}

/// Packet `i` of the plan for `sample_count` samples.
pub open spec fn spec_audio_packet(
    i: int,
    sample_count: int,
    encode_rate: u32,
    channels: u16,
    pre_skip_48: u16,
) -> AudioPacketPlan {
    let fs = spec_frame_size(encode_rate, channels);
    AudioPacketPlan {
        start: (i * fs) as usize,
        end: (if (i + 1) * fs <= sample_count {
            (i + 1) * fs
        } else {
            sample_count
        }) as usize,
        granule: (pre_skip_48 as int + (i + 1) * spec_granules_per_frame(encode_rate)) as u64,
        end_of_stream: i + 1 == spec_packet_count(sample_count, fs),
    }
}

/// The frame plan: one packet per 20 ms frame, in order.
pub open spec fn spec_audio_plan(
    sample_count: int,
    encode_rate: u32,
    channels: u16,
    pre_skip_48: u16,
) -> Seq<AudioPacketPlan> {
    Seq::new(
        spec_packet_count(sample_count, spec_frame_size(encode_rate, channels)) as nat,
        |i: int| spec_audio_packet(i, sample_count, encode_rate, channels, pre_skip_48),
    )
}

/// The granule position of the last packet fits in 64 bits.
pub open spec fn plan_fits(
    sample_count: int,
    encode_rate: u32,
    channels: u16,
    pre_skip_48: u16,
) -> bool {
    pre_skip_48 as int + spec_packet_count(sample_count, spec_frame_size(encode_rate, channels))
        * spec_granules_per_frame(encode_rate) <= u64::MAX
}

proof fn lemma_rate_frame(encode_rate: u32)
    requires
        is_opus_rate(encode_rate),
    ensures
        160 <= spec_frame_samples_per_channel(encode_rate) <= 960,
        spec_granules_per_frame(encode_rate) == 960,
{
}

proof fn lemma_packet_count(n: int, fs: int)
    requires
        n >= 0,
        fs > 0,
    ensures
        spec_packet_count(n, fs) == n / fs + (if n % fs == 0 {
            0int
        } else {
            1int
        }),
        spec_packet_count(n, fs) * fs >= n,
        spec_packet_count(n, fs) > 0 ==> (spec_packet_count(n, fs) - 1) * fs < n,
{
    if n > 0 {
        assert((n + fs - 1) / fs == n / fs + (if n % fs == 0 {
            0int
        } else {
            1int
        })) by (nonlinear_arith)
            requires
                n > 0,
                fs > 0,
        ;
    }
    assert(n == (n / fs) * fs + n % fs && 0 <= n % fs < fs) by (nonlinear_arith)
        requires
            fs > 0,
    ;
    let q = n / fs;
    if n % fs == 0 {
        assert((q + 1) * fs == q * fs + fs) by (nonlinear_arith);
        assert((q - 1) * fs == q * fs - fs) by (nonlinear_arith);
    } else {
        assert((q + 1) * fs == q * fs + fs) by (nonlinear_arith);
    }
}

proof fn lemma_frame_size_bounds(encode_rate: u32, channels: u16)
    requires
        is_opus_rate(encode_rate),
        channels == 1 || channels == 2,
    ensures
        160 <= spec_frame_size(encode_rate, channels) <= 1920,
        spec_granules_per_frame(encode_rate) == 960,
{
    lemma_rate_frame(encode_rate);
    assert(160 <= spec_frame_size(encode_rate, channels) <= 1920) by (nonlinear_arith)
        requires
            spec_frame_size(encode_rate, channels) == spec_frame_samples_per_channel(encode_rate)
                * channels as int,
            160 <= spec_frame_samples_per_channel(encode_rate) <= 960,
            1 <= channels <= 2,
    ;
}

/// The frame plan covers the samples exactly once, in order: frames are
/// contiguous, the first starts at sample 0, the last ends at the last
/// sample, every frame but the last is full, and no frame is empty or longer
/// than a frame. There are no frames exactly when there are no samples.
pub proof fn lemma_plan_tiles_samples(
    sample_count: usize,
    encode_rate: u32,
    channels: u16,
    pre_skip_48: u16,
)
    requires
        is_opus_rate(encode_rate),
        channels == 1 || channels == 2,
    ensures
        ({
            let plan = spec_audio_plan(sample_count as int, encode_rate, channels, pre_skip_48);
            let fs = spec_frame_size(encode_rate, channels);
            &&& (plan.len() == 0 <==> sample_count == 0)
            &&& plan.len() > 0 ==> plan[0].start == 0 && plan[plan.len() - 1].end == sample_count
            &&& forall|i: int|
                0 <= i < plan.len() - 1 ==> #[trigger] plan[i].end == plan[i + 1].start
                    && plan[i].end - plan[i].start == fs
            &&& forall|i: int|
                0 <= i < plan.len() ==> #[trigger] plan[i].start < plan[i].end <= plan[i].start
                    + fs
        }),
{
    let plan = spec_audio_plan(sample_count as int, encode_rate, channels, pre_skip_48);
    let fs = spec_frame_size(encode_rate, channels);
    let n = sample_count as int;
    lemma_frame_size_bounds(encode_rate, channels);
    lemma_packet_count(n, fs);
    let count = spec_packet_count(n, fs);
    assert(plan.len() == count);
    assert(count == 0 <==> n == 0) by {
        if n > 0 {
            assert(count * fs >= n);
            if count == 0 {
                assert(count * fs == 0);
            }
        }
    }
    assert forall|i: int| 0 <= i < plan.len() implies #[trigger] plan[i].start < plan[i].end
        <= plan[i].start + fs && plan[i].start == i * fs && plan[i].end == (if i == count - 1 {
        n
    } else {
        (i + 1) * fs
    }) by {
        assert(i * fs < n) by (nonlinear_arith)
            requires
                0 <= i < count,
                (count - 1) * fs < n,
                fs > 0,
        ;
        assert((i + 1) * fs == i * fs + fs) by (nonlinear_arith);
        assert(0 <= i * fs) by (nonlinear_arith)
            requires
                0 <= i,
                fs > 0,
        ;
        if i < count - 1 {
            assert((i + 1) * fs < n) by (nonlinear_arith)
                requires
                    i + 1 <= count - 1,
                    (count - 1) * fs < n,
                    fs > 0,
            ;
        } else {
            assert(count * fs >= n);
        }
    }
    assert forall|i: int| 0 <= i < plan.len() - 1 implies #[trigger] plan[i].end == plan[i
        + 1].start && plan[i].end - plan[i].start == fs by {
        assert(plan[i].start == i * fs);
        assert(plan[i + 1].start == (i + 1) * fs);
        assert((i + 1) * fs == i * fs + fs) by (nonlinear_arith);
    }
    if plan.len() > 0 {
        assert(plan[0].start == 0 * fs);
    }
}

/// Granule positions: packet `i` ends at the pre-skip plus 960 granules
/// (20 ms at 48 kHz) per frame so far, whatever the encoder rate, so they
/// strictly increase, and the last one is the pre-skip plus 960 per frame.
pub proof fn lemma_plan_granules(
    sample_count: usize,
    encode_rate: u32,
    channels: u16,
    pre_skip_48: u16,
)
    requires
        is_opus_rate(encode_rate),
        channels == 1 || channels == 2,
        plan_fits(sample_count as int, encode_rate, channels, pre_skip_48),
    ensures
        ({
            let plan = spec_audio_plan(sample_count as int, encode_rate, channels, pre_skip_48);
            &&& forall|i: int|
                0 <= i < plan.len() ==> #[trigger] plan[i].granule == pre_skip_48 + (i + 1)
                    * 960
            &&& forall|i: int, j: int|
                0 <= i < j < plan.len() ==> #[trigger] plan[i].granule < #[trigger] plan[j].granule
            &&& plan.len() > 0 ==> plan[plan.len() - 1].granule == pre_skip_48 + plan.len() * 960
        }),
{
    let plan = spec_audio_plan(sample_count as int, encode_rate, channels, pre_skip_48);
    lemma_frame_size_bounds(encode_rate, channels);
    lemma_packet_count(sample_count as int, spec_frame_size(encode_rate, channels));
    let count = plan.len();
    assert(pre_skip_48 + count * 960 <= u64::MAX);
    assert forall|i: int| 0 <= i < plan.len() implies #[trigger] plan[i].granule == pre_skip_48 + (
    i + 1) * 960 by {
        assert((i + 1) * 960 <= count * 960) by (nonlinear_arith)
            requires
                0 <= i < count,
        ;
        assert(0 <= (i + 1) * 960) by (nonlinear_arith)
            requires
                0 <= i,
        ;
    }
    assert forall|i: int, j: int| 0 <= i < j < plan.len() implies #[trigger] plan[i].granule
        < #[trigger] plan[j].granule by {
        assert((i + 1) * 960 < (j + 1) * 960) by (nonlinear_arith)
            requires
                i < j,
        ;
    }
}

/// Exactly one packet ends the stream, the last one.
pub proof fn lemma_plan_single_end_of_stream(
    sample_count: usize,
    encode_rate: u32,
    channels: u16,
    pre_skip_48: u16,
)
    requires
        is_opus_rate(encode_rate),
        channels == 1 || channels == 2,
    ensures
        ({
            let plan = spec_audio_plan(sample_count as int, encode_rate, channels, pre_skip_48);
            forall|i: int|
                0 <= i < plan.len() ==> (#[trigger] plan[i].end_of_stream <==> i == plan.len() - 1)
        }),
{
    lemma_frame_size_bounds(encode_rate, channels);
    lemma_packet_count(sample_count as int, spec_frame_size(encode_rate, channels));
}

/// At 48 kHz the pre-skip is the lookahead itself; at another Opus rate it
/// is the lookahead scaled to 48 kHz (while both fit in 16 bits).
pub proof fn lemma_pre_skip_scaling(lookahead: u32, encode_rate: u32)
    requires
        is_opus_rate(encode_rate),
        lookahead < 65536,
        lookahead * 48000 / (encode_rate as int) < 65536,
    ensures
        spec_pre_skip_48(lookahead, encode_rate) == lookahead * 48000 / (encode_rate as int),
{
}

/// The identification header gives back what was written into it: the
/// channel count (for counts below 256), the pre-skip and the sample rate,
/// read as little-endian integers at their offsets.
pub proof fn lemma_opus_head_fields(channels: u16, pre_skip_48: u16, sample_rate: u32)
    requires
        channels < 256,
    ensures
        ({
            let h = spec_opus_head(channels, pre_skip_48, sample_rate);
            &&& h.len() == 19
            &&& h.subrange(0, 8) == opus_head_magic()
            &&& h[8] == 1
            &&& h[9] == channels
            &&& h[10] + 256 * h[11] == pre_skip_48
            &&& h[12] + 256 * h[13] + 65536 * h[14] + 16777216 * h[15] == sample_rate
            &&& h[16] == 0 && h[17] == 0 && h[18] == 0
        }),
{
    let h = spec_opus_head(channels, pre_skip_48, sample_rate);
    assert(h.subrange(0, 8) =~= opus_head_magic());
    let r = sample_rate as int;
    assert(r % 256 + 256 * ((r / 256) % 256) + 65536 * ((r / 65536) % 256) + 16777216 * ((r
        / 16777216) % 256) == r) by (nonlinear_arith)
        requires
            0 <= r < 4294967296,
    ;
}

/// Samples per channel in one 20 ms frame at `encode_rate`.
pub fn frame_samples_per_channel(encode_rate: u32) -> (r: usize)
    ensures
        r == spec_frame_samples_per_channel(encode_rate),
{
    (encode_rate / 50) as usize
}

/// Interleaved samples in one 20 ms frame (the size every encoded frame is
/// padded to).
pub fn frame_size(encode_rate: u32, channels: u16) -> (r: usize)
    requires
        is_opus_rate(encode_rate),
        channels == 1 || channels == 2,
    ensures
        r == spec_frame_size(encode_rate, channels),
        r > 0,
{
    let fspc = frame_samples_per_channel(encode_rate);
    proof {
        lemma_rate_frame(encode_rate);
        assert(fspc * channels <= 1920 && fspc * channels > 0) by (nonlinear_arith)
            requires
                160 <= fspc <= 960,
                1 <= channels <= 2,
        ;
    }
    fspc * (channels as usize)
}

/// Splits `sample_count` interleaved samples into 20 ms frames and gives each
/// its granule position (pre-skip plus the frames so far, at 48 kHz) and its
/// end-of-stream flag (set on the last frame only).
pub fn plan_audio_packets(
    sample_count: usize,
    encode_rate: u32,
    channels: u16,
    pre_skip_48: u16,
) -> (plan: Vec<AudioPacketPlan>)
    requires
        is_opus_rate(encode_rate),
        channels == 1 || channels == 2,
        plan_fits(sample_count as int, encode_rate, channels, pre_skip_48),
    ensures
        plan@ == spec_audio_plan(sample_count as int, encode_rate, channels, pre_skip_48),
{
    let fspc = frame_samples_per_channel(encode_rate);
    let fs = frame_size(encode_rate, channels);
    let gpf: u64 = if encode_rate == 48000 {
        fspc as u64
    } else {
        (fspc as u64) * 48000 / (encode_rate as u64)
    };
    let count: usize = if sample_count == 0 {
        0
    } else if sample_count % fs == 0 {
        sample_count / fs
    } else {
        assert(sample_count / fs < sample_count) by (nonlinear_arith)
            requires
                fs > 1,
                sample_count > 0,
        ;
        sample_count / fs + 1
    };
    proof {
        lemma_rate_frame(encode_rate);
        lemma_packet_count(sample_count as int, fs as int);
    }
    let ghost n = sample_count as int;
    let ghost total = spec_audio_plan(n, encode_rate, channels, pre_skip_48);
    assert(count == total.len());
    let mut plan: Vec<AudioPacketPlan> = Vec::with_capacity(count);
    let mut i: usize = 0;
    let mut start: usize = 0;
    let mut granule: u64 = pre_skip_48 as u64;
    while i < count
        invariant
            count == spec_packet_count(n, fs as int),
            count == total.len(),
            total == spec_audio_plan(n, encode_rate, channels, pre_skip_48),
            fs == spec_frame_size(encode_rate, channels),
            fs > 0,
            gpf == 960,
            spec_granules_per_frame(encode_rate) == 960,
            n == sample_count,
            count * fs >= n,
            count > 0 ==> (count - 1) * fs < n,
            pre_skip_48 as int + count * 960 <= u64::MAX,
            i <= count,
            i < count ==> start == i * fs,
            granule == pre_skip_48 as int + i * 960,
            plan@ == total.subrange(0, i as int),
        decreases count - i,
    {
        assert(i * fs < n) by (nonlinear_arith)
            requires
                i < count,
                (count - 1) * fs < n,
                fs > 0,
        ;
        assert((i + 1) * fs == i * fs + fs) by (nonlinear_arith);
        assert((i + 1) * 960 == i * 960 + 960) by (nonlinear_arith);
        assert((i + 1) * 960 <= count * 960) by (nonlinear_arith)
            requires
                i < count,
        ;
        let end = if sample_count - start <= fs {
            sample_count
        } else {
            start + fs
        };
        granule = granule + gpf;
        let packet = AudioPacketPlan { start, end, granule, end_of_stream: i + 1 == count };
        assert(packet == total[i as int]);
        plan.push(packet);
        i = i + 1;
        start = end;
        if i < count {
            assert(start == i * fs) by (nonlinear_arith)
                requires
                    i < count,
                    (count - 1) * fs < n,
                    start == (if (i as int) * fs <= n { (i as int) * fs } else { n }),
                    fs > 0,
            ;
        }
        assert(plan@ =~= total.subrange(0, i as int));
    }
    assert(plan@ =~= total);
    plan
}


/// End mark of an audio packet: the last one ends the stream.
pub open spec fn audio_end_mark(p: AudioPacketPlan) -> PacketEnd {
    if p.end_of_stream {
        PacketEnd::EndStream
    } else {
        PacketEnd::NormalPacket
    }
}

/// The packets of an Ogg/Opus stream, in order: the identification header
/// and the comment header, each on a page of its own with granule position
/// 0, then one packet per planned frame with its granule position and end
/// mark.
pub open spec fn spec_stream_packets(
    head: Seq<u8>,
    tags: Seq<u8>,
    plan: Seq<AudioPacketPlan>,
    audio: Seq<Vec<u8>>,
    serial: u32,
) -> Seq<(Seq<u8>, u32, PacketEnd, u64)> {
    seq![(head, serial, PacketEnd::EndPage, 0u64), (tags, serial, PacketEnd::EndPage, 0u64)]
        + Seq::new(
        plan.len(),
        |i: int| (audio[i]@, serial, audio_end_mark(plan[i]), plan[i].granule),
    )
}

/// The stream laid out by a frame plan: all packets carry the same serial;
/// the two headers end their own pages at granule position 0; after them
/// come the audio packets in plan order, each advancing the granule position
/// by 960 from the pre-skip, and only the last one ends the stream.
pub proof fn lemma_stream_layout(
    head: Seq<u8>,
    tags: Seq<u8>,
    audio: Seq<Vec<u8>>,
    serial: u32,
    sample_count: usize,
    encode_rate: u32,
    channels: u16,
    pre_skip_48: u16,
)
    requires
        is_opus_rate(encode_rate),
        channels == 1 || channels == 2,
        plan_fits(sample_count as int, encode_rate, channels, pre_skip_48),
        audio.len() == spec_audio_plan(sample_count as int, encode_rate, channels, pre_skip_48).len(),
    ensures
        ({
            let plan = spec_audio_plan(sample_count as int, encode_rate, channels, pre_skip_48);
            let packets = spec_stream_packets(head, tags, plan, audio, serial);
            &&& packets.len() == plan.len() + 2
            &&& packets[0] == (head, serial, PacketEnd::EndPage, 0u64)
            &&& packets[1] == (tags, serial, PacketEnd::EndPage, 0u64)
            &&& forall|k: int| 0 <= k < packets.len() ==> (#[trigger] packets[k]).1 == serial
            &&& forall|k: int|
                2 <= k < packets.len() ==> (#[trigger] packets[k]).0 == audio[k - 2]@
                    && packets[k].3 == pre_skip_48 + (k - 1) * 960
                    && (packets[k].2 == PacketEnd::EndStream <==> k == packets.len() - 1)
                    && (packets[k].2 == PacketEnd::EndStream || packets[k].2
                    == PacketEnd::NormalPacket)
        }),
{
    let plan = spec_audio_plan(sample_count as int, encode_rate, channels, pre_skip_48);
    let packets = spec_stream_packets(head, tags, plan, audio, serial);
    lemma_plan_granules(sample_count, encode_rate, channels, pre_skip_48);
    lemma_plan_single_end_of_stream(sample_count, encode_rate, channels, pre_skip_48);
    assert forall|k: int| 2 <= k < packets.len() implies (#[trigger] packets[k]).0 == audio[k
        - 2]@ && packets[k].3 == pre_skip_48 + (k - 1) * 960 && (packets[k].2
        == PacketEnd::EndStream <==> k == packets.len() - 1) && (packets[k].2
        == PacketEnd::EndStream || packets[k].2 == PacketEnd::NormalPacket) by {
        assert(plan[k - 2].granule == pre_skip_48 + (k - 2 + 1) * 960);
        assert(plan[k - 2].end_of_stream <==> k - 2 == plan.len() - 1);
    }
}

/// Frames a complete Ogg/Opus stream with serial number `serial`: OpusHead,
/// OpusTags, then the encoded frames `audio` laid out as `plan` says.
pub fn write_ogg_opus_stream(
    channels: u16,
    pre_skip_48: u16,
    sample_rate: u32,
    plan: &Vec<AudioPacketPlan>,
    audio: &Vec<Vec<u8>>,
    serial: u32,
) -> (bytes: Vec<u8>)
    requires
        audio@.len() == plan@.len(),
        plan@.len() < 0x3fff_0000,
        forall|i: int| 0 <= i < audio@.len() ==> #[trigger] audio@[i]@.len() < 65025,
    ensures
        bytes@ == ogg_stream_bytes(
            spec_stream_packets(
                spec_opus_head(channels, pre_skip_48, sample_rate),
                spec_opus_tags(),
                plan@,
                audio@,
                serial,
            ),
        ),
{
    let ghost packets = spec_stream_packets(
        spec_opus_head(channels, pre_skip_48, sample_rate),
        spec_opus_tags(),
        plan@,
        audio@,
        serial,
    );
    let mut writer = ogg_writer_new();
    let head = opus_head_packet(channels, pre_skip_48, sample_rate);
    let written = ogg_write_packet(&mut writer, &head, serial, PacketEnd::EndPage, 0);
    assert(written is Ok);
    let tags = opus_tags_packet();
    let written = ogg_write_packet(&mut writer, &tags, serial, PacketEnd::EndPage, 0);
    assert(written is Ok);
    assert(ogg_packets_written(writer) =~= packets.subrange(0, 2));
    let mut i: usize = 0;
    while i < plan.len()
        invariant
            audio@.len() == plan@.len(),
            plan@.len() < 0x3fff_0000,
            forall|j: int| 0 <= j < audio@.len() ==> #[trigger] audio@[j]@.len() < 65025,
            packets == spec_stream_packets(
                spec_opus_head(channels, pre_skip_48, sample_rate),
                spec_opus_tags(),
                plan@,
                audio@,
                serial,
            ),
            i <= plan@.len(),
            ogg_packets_written(writer) == packets.subrange(0, i + 2),
        decreases plan@.len() - i,
    {
        let p = plan[i];
        let end = if p.end_of_stream {
            PacketEnd::EndStream
        } else {
            PacketEnd::NormalPacket
        };
        assert(audio@[i as int]@.len() < 65025);
        let written = ogg_write_packet(&mut writer, &audio[i], serial, end, p.granule);
        assert(written is Ok);
        i = i + 1;
        assert(ogg_packets_written(writer) =~= packets.subrange(0, i + 2));
    }
    assert(packets.subrange(0, i + 2) =~= packets);
    ogg_writer_into_bytes(writer)
}

} // verus!
