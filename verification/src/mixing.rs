//! Where each mixed output sample comes from. Two interleaved streams with
//! possibly different channel counts are mixed frame by frame: a stream
//! with the output's channel count gives the same channel, a mono stream
//! gives its one sample to every output channel, any other stream gives the
//! average of its frame, and a stream that has run out gives silence. The
//! sample arithmetic itself is done by the caller.

use vstd::prelude::*;

verus! {

/// The input samples one stream contributes to one output sample.
#[derive(PartialEq, Eq, Structural, Clone, Copy, Debug)]
pub enum SampleSource {
    /// The stream has no frame here: it contributes silence.
    Silence,
    /// The sample at this index.
    Sample(usize),
    /// The average of `count` samples starting at `start`.
    Average { start: usize, count: usize },
}

/// Whole frames in a stream of `len` interleaved samples with `channels`
/// channels (none when the channel count is 0).
pub open spec fn spec_frames(len: int, channels: u16) -> int {
    if channels > 0 {
        len / channels as int
    } else {
        0
    }
}

/// Frames in the mix: as many as the longer stream has.
pub open spec fn spec_mix_frames(a_len: int, a_ch: u16, b_len: int, b_ch: u16) -> int {
    let a = spec_frames(a_len, a_ch);
    let b = spec_frames(b_len, b_ch);
    if a >= b {
        a
    } else {
        b
    }
}

/// What a stream of `len` samples with `channels` channels contributes to
/// channel `channel` of output frame `frame` when the output has `out_ch`
/// channels.
pub open spec fn spec_sample_source(
    len: int,
    channels: u16,
    out_ch: u16,
    frame: int,
    channel: int,
) -> SampleSource {
    if frame < spec_frames(len, channels) {
        if channels == out_ch {
            SampleSource::Sample((frame * channels + channel) as usize)
        } else if channels == 1 {
            SampleSource::Sample(frame as usize)
        } else {
            SampleSource::Average { start: (frame * channels) as usize, count: channels as usize }
        }
    } else {
        SampleSource::Silence
    }
}

/// Whole frames in a stream of `len` interleaved samples.
pub fn frame_count(len: usize, channels: u16) -> (r: usize)
    ensures
        r == spec_frames(len as int, channels),
{
    if channels > 0 {
        len / (channels as usize)
    } else {
        0
    }
}

/// Frames in the mix of two streams.
pub fn mix_frame_count(a_len: usize, a_ch: u16, b_len: usize, b_ch: u16) -> (r: usize)
    ensures
        r == spec_mix_frames(a_len as int, a_ch, b_len as int, b_ch),
{
    let a = frame_count(a_len, a_ch);
    let b = frame_count(b_len, b_ch);
    if a >= b {
        a
    } else {
        b
    }
}

/// What a stream contributes to one output sample; every index it names
/// lies inside the stream.
pub fn sample_source(len: usize, channels: u16, out_ch: u16, frame: usize, channel: usize) -> (r:
    SampleSource)
    requires
        channel < out_ch,
    ensures
        r == spec_sample_source(len as int, channels, out_ch, frame as int, channel as int),
        r matches SampleSource::Sample(i) ==> i < len,
        r matches SampleSource::Average { start, count } ==> count > 1 && start + count <= len,
{
    let frames = frame_count(len, channels);
    if frame < frames {
        let ch = channels as usize;
        proof {
            assert((frame + 1) * ch <= len) by (nonlinear_arith)
                requires
                    frame < frames,
                    frames == len / ch,
                    ch > 0,
            ;
            assert((frame + 1) * ch == frame * ch + ch) by (nonlinear_arith);
        }
        if channels == out_ch {
            SampleSource::Sample(frame * ch + channel)
        } else if channels == 1 {
            SampleSource::Sample(frame)
        } else {
            SampleSource::Average { start: frame * ch, count: ch }
        }
    } else {
        SampleSource::Silence
    }
}

/// Whole frames: a stream with channels holds `f` whole frames when `f`
/// frames fit in it and `f + 1` do not; a stream without channels holds
/// none. The mix has as many frames as the longer stream, so mixing a
/// stream with an empty one keeps all of its frames, and the order of the
/// two streams does not matter.
pub proof fn lemma_mix_frames(a_len: usize, a_ch: u16, b_len: usize, b_ch: u16)
    ensures
        a_ch > 0 ==> spec_frames(a_len as int, a_ch) * a_ch <= a_len < (spec_frames(
            a_len as int,
            a_ch,
        ) + 1) * a_ch,
        a_ch > 0 ==> spec_frames(a_len as int, a_ch) >= 0,
        a_ch == 0 ==> spec_frames(a_len as int, a_ch) == 0,
        spec_mix_frames(a_len as int, a_ch, b_len as int, b_ch) >= spec_frames(a_len as int, a_ch),
        spec_mix_frames(a_len as int, a_ch, b_len as int, b_ch) >= spec_frames(b_len as int, b_ch),
        spec_mix_frames(a_len as int, a_ch, b_len as int, b_ch) == spec_frames(a_len as int, a_ch)
            || spec_mix_frames(a_len as int, a_ch, b_len as int, b_ch) == spec_frames(
            b_len as int,
            b_ch,
        ),
        spec_mix_frames(a_len as int, a_ch, b_len as int, b_ch) == spec_mix_frames(
            b_len as int,
            b_ch,
            a_len as int,
            a_ch,
        ),
        spec_mix_frames(a_len as int, a_ch, 0, b_ch) == spec_frames(a_len as int, a_ch),
        spec_mix_frames(0, a_ch, b_len as int, b_ch) == spec_frames(b_len as int, b_ch),
{
    if a_ch > 0 {
        let c = a_ch as int;
        let n = a_len as int;
        assert((n / c) * c <= n < (n / c + 1) * c && n / c >= 0) by (nonlinear_arith)
            requires
                c > 0,
                n >= 0,
        ;
    }
    if b_ch > 0 {
        assert(0int / (b_ch as int) == 0);
    }
    if a_ch > 0 {
        assert(0int / (a_ch as int) == 0);
    }
    if b_ch > 0 {
        let c = b_ch as int;
        let n = b_len as int;
        assert(n / c >= 0) by (nonlinear_arith)
            requires
                c > 0,
                n >= 0,
        ;
    }
}

/// A stream contributes silence after its last whole frame, and within its
/// frames it reads from that frame only: a single sample of the frame, or,
/// when averaging, exactly all the samples of the frame.
pub proof fn lemma_sample_source_frames(
    len: usize,
    channels: u16,
    out_ch: u16,
    frame: int,
    channel: int,
)
    requires
        0 <= frame,
        0 <= channel < out_ch,
    ensures
        frame >= spec_frames(len as int, channels) ==> spec_sample_source(
            len as int,
            channels,
            out_ch,
            frame,
            channel,
        ) == SampleSource::Silence,
        frame < spec_frames(len as int, channels) ==> match spec_sample_source(
            len as int,
            channels,
            out_ch,
            frame,
            channel,
        ) {
            SampleSource::Silence => false,
            SampleSource::Sample(i) => frame * channels <= i < (frame + 1) * channels,
            SampleSource::Average { start, count } => start == frame * channels && count
                == channels && channels > 1,
        },
{
    if frame < spec_frames(len as int, channels) {
        let c = channels as int;
        assert(0 <= frame * c) by (nonlinear_arith)
            requires
                0 <= frame,
                c >= 0,
        ;
        assert((frame + 1) * c <= len) by (nonlinear_arith)
            requires
                0 <= frame < len as int / c,
                c > 0,
        ;
        assert((frame + 1) * c == frame * c + c) by (nonlinear_arith);
        if channels == out_ch {
            assert(frame * c <= frame * c + channel < (frame + 1) * c);
        } else if channels == 1 {
            assert(frame * c == frame) by (nonlinear_arith)
                requires
                    c == 1,
            ;
            assert(frame < len);
        }
    }
}

/// A mono stream gives its sample to every output channel, and a stream
/// with the output's channel count keeps its channels apart.
pub proof fn lemma_channel_mapping(len: usize, channels: u16, out_ch: u16, frame: int, channel: int)
    requires
        0 <= frame < spec_frames(len as int, channels),
        0 <= channel < out_ch,
    ensures
        channels == 1 ==> spec_sample_source(len as int, channels, out_ch, frame, channel)
            == spec_sample_source(len as int, channels, out_ch, frame, 0),
        channels == out_ch ==> forall|other: int|
            0 <= other < out_ch && other != channel ==> spec_sample_source(
                len as int,
                channels,
                out_ch,
                frame,
                other,
            ) != spec_sample_source(len as int, channels, out_ch, frame, channel),
{
    if channels == out_ch {
        assert forall|other: int|
            0 <= other < out_ch && other != channel implies spec_sample_source(
            len as int,
            channels,
            out_ch,
            frame,
            other,
        ) != spec_sample_source(len as int, channels, out_ch, frame, channel) by {
            assert(frame * channels + other < len) by (nonlinear_arith)
                requires
                    0 <= frame < len as int / channels as int,
                    0 <= other < channels,
            ;
            assert(frame * channels + channel < len) by (nonlinear_arith)
                requires
                    0 <= frame < len as int / channels as int,
                    0 <= channel < channels,
            ;
            assert(0 <= frame * channels) by (nonlinear_arith)
                requires
                    0 <= frame,
            ;
        }
    }
}

} // verus!
