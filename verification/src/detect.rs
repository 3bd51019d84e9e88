use vstd::prelude::*;

verus! {

/// Division truncating toward zero, the behaviour of integer `/` at run
/// time. It agrees with Euclidean division on non-negative dividends.
pub open spec fn trunc_div_spec(dividend: int, divisor: int) -> int {
    if dividend >= 0 {
        dividend / divisor
    } else {
        -((-dividend) / divisor)
    }
}

/// Sum of the `count` samples of `samples` starting at `start`.
pub open spec fn sample_sum_spec(samples: Seq<i32>, start: int, count: int) -> int
    decreases count,
{
    if count <= 0 {
        0
    } else {
        sample_sum_spec(samples, start, count - 1) + samples[start + count - 1]
    }
}

/// The mono sample for frame `frame` of an interleaved buffer with
/// `channels` channels: the average of the frame's samples, truncated
/// toward zero.
pub open spec fn mono_sample_spec(samples: Seq<i32>, channels: int, frame: int) -> int {
    trunc_div_spec(sample_sum_spec(samples, frame * channels, channels), channels)
}

/// The mono sequence that downmixing an interleaved buffer yields: one
/// averaged sample per complete frame, in order; a final partial frame is
/// dropped.
pub open spec fn downmix_spec(samples: Seq<i32>, channels: int) -> Seq<i32> {
    Seq::new((samples.len() as int / channels) as nat, |frame: int| mono_sample_spec(samples, channels, frame) as i32)
}

/// The sum of `count` samples is bounded by `count` times the sample bounds.
proof fn lemma_sample_sum_bounds(samples: Seq<i32>, start: int, count: int)
    requires
        0 <= count,
        0 <= start,
        start + count <= samples.len(),
    ensures
        count * i32::MIN <= sample_sum_spec(samples, start, count) <= count * i32::MAX,
    decreases count,
{
    if count > 0 {
        lemma_sample_sum_bounds(samples, start, count - 1);
        assert((count - 1) * i32::MIN + i32::MIN == count * i32::MIN) by (nonlinear_arith);
        assert((count - 1) * i32::MAX + i32::MAX == count * i32::MAX) by (nonlinear_arith);
    }
}

/// An average of `i32` samples lies within the `i32` range.
proof fn lemma_mono_sample_in_range(samples: Seq<i32>, channels: int, frame: int)
    requires
        1 <= channels,
        0 <= frame,
        (frame + 1) * channels <= samples.len(),
    ensures
        i32::MIN <= mono_sample_spec(samples, channels, frame) <= i32::MAX,
{
    assert(0 <= frame * channels && frame * channels + channels <= samples.len())
        by (nonlinear_arith)
        requires
            1 <= channels,
            0 <= frame,
            (frame + 1) * channels <= samples.len(),
    ;
    let start = frame * channels;
    lemma_sample_sum_bounds(samples, start, channels);
    let sum = sample_sum_spec(samples, start, channels);
    if sum >= 0 {
        assert(sum / channels <= i32::MAX) by (nonlinear_arith)
            requires
                1 <= channels,
                0 <= sum <= channels * i32::MAX,
        ;
    } else {
        assert((-sum) / channels <= -(i32::MIN as int)) by (nonlinear_arith)
            requires
                1 <= channels,
                0 < -sum <= channels * (-(i32::MIN as int)),
        ;
    }
}

/// Appends to `buffer` one averaged sample per complete frame of
/// `audio_data`, an interleaved buffer with `num_channels` channels. The
/// channel-count bound is the range of the audio device's channel count.
pub fn downmix_audio(buffer: &mut Vec<i32>, audio_data: &Vec<i32>, num_channels: usize)
    requires
        1 <= num_channels <= u16::MAX,
    ensures
        final(buffer)@ == old(buffer)@ + downmix_spec(audio_data@, num_channels as int),
{
    let ghost samples = audio_data@;
    let ghost channels = num_channels as int;
    let num_frames = audio_data.len() / num_channels;
    proof {
        assert(samples.len() as int / channels * channels <= samples.len() as int)
            by (nonlinear_arith)
            requires
                1 <= channels,
        ;
    }
    let mut frame: usize = 0;
    while frame < num_frames
        invariant
            1 <= num_channels <= u16::MAX,
            channels == num_channels as int,
            samples == audio_data@,
            samples.len() <= usize::MAX,
            num_frames == samples.len() as int / channels,
            num_frames * channels <= samples.len(),
            0 <= frame <= num_frames,
            buffer@ == old(buffer)@ + downmix_spec(samples, channels).subrange(0, frame as int),
        decreases num_frames - frame,
    {
        proof {
            assert((frame + 1) * channels <= num_frames * channels) by (nonlinear_arith)
                requires
                    frame + 1 <= num_frames,
                    1 <= channels,
            ;
            assert((frame + 1) * channels == frame as int * channels + channels)
                by (nonlinear_arith);
            assert(frame as int * channels >= 0) by (nonlinear_arith)
                requires
                    0 <= frame,
                    1 <= channels,
            ;
            lemma_mono_sample_in_range(samples, channels, frame as int);
        }
        let start = frame * num_channels;
        let mut sum: i64 = 0;
        let mut i: usize = 0;
        while i < num_channels
            invariant
                1 <= num_channels <= u16::MAX,
                channels == num_channels as int,
                samples == audio_data@,
                samples.len() <= usize::MAX,
                start == frame as int * channels,
                start + channels <= samples.len(),
                0 <= i <= num_channels,
                sum == sample_sum_spec(samples, start as int, i as int),
                i as int * i32::MIN <= sum <= i as int * i32::MAX,
            decreases num_channels - i,
        {
            proof {
                assert((i + 1) * i32::MIN == i * i32::MIN + i32::MIN) by (nonlinear_arith);
                assert((i + 1) * i32::MAX == i * i32::MAX + i32::MAX) by (nonlinear_arith);
                assert(i as int * i32::MIN >= u16::MAX as int * i32::MIN) by (nonlinear_arith)
                    requires
                        0 <= i <= u16::MAX,
                ;
                assert(i as int * i32::MAX <= u16::MAX as int * i32::MAX) by (nonlinear_arith)
                    requires
                        0 <= i <= u16::MAX,
                ;
            }
            sum = sum + audio_data[start + i] as i64;
            i = i + 1;
        }
        let mono_sample: i64 = if sum >= 0 {
            sum / num_channels as i64
        } else {
            -((-sum) / num_channels as i64)
        };
        proof {
            assert(mono_sample == mono_sample_spec(samples, channels, frame as int));
        }
        buffer.push(mono_sample as i32);
        frame = frame + 1;
        proof {
            assert(buffer@ =~= old(buffer)@ + downmix_spec(samples, channels).subrange(
                0,
                frame as int,
            ));
        }
    }
    proof {
        assert(downmix_spec(samples, channels).subrange(0, num_frames as int) =~= downmix_spec(
            samples,
            channels,
        ));
    }
}

/// Downmixing a single-channel buffer is the identity map on it.
pub proof fn lemma_downmix_mono_identity(samples: Seq<i32>)
    ensures
        downmix_spec(samples, 1) == samples,
{
    assert forall|frame: int| 0 <= frame < samples.len() implies mono_sample_spec(samples, 1, frame)
        == samples[frame] by {
        assert(sample_sum_spec(samples, frame, 0) == 0);
        assert(sample_sum_spec(samples, frame, 1) == samples[frame]);
    }
    assert(downmix_spec(samples, 1) =~= samples);
}

/// Downmixing silence yields silence: an all-zero buffer of any channel
/// count downmixes to an all-zero mono buffer of one sample per frame.
pub proof fn lemma_downmix_silence(samples: Seq<i32>, channels: int)
    requires
        1 <= channels,
        forall|i: int| 0 <= i < samples.len() ==> samples[i] == 0,
    ensures
        downmix_spec(samples, channels).len() == samples.len() as int / channels,
        forall|i: int|
            0 <= i < downmix_spec(samples, channels).len() ==> downmix_spec(samples, channels)[i]
                == 0,
{
    assert forall|frame: int| 0 <= frame < downmix_spec(samples, channels).len() implies downmix_spec(
        samples,
        channels,
    )[frame] == 0 by {
        assert((frame + 1) * channels <= samples.len() as int / channels * channels)
            by (nonlinear_arith)
            requires
                0 <= frame,
                frame < samples.len() as int / channels,
                1 <= channels,
        ;
        assert(samples.len() as int / channels * channels <= samples.len() as int)
            by (nonlinear_arith)
            requires
                1 <= channels,
        ;
        assert((frame + 1) * channels == frame * channels + channels) by (nonlinear_arith);
        assert(frame * channels >= 0) by (nonlinear_arith)
            requires
                0 <= frame,
                1 <= channels,
        ;
        lemma_sample_sum_zero(samples, frame * channels, channels);
    }
}

/// The sum over any all-zero stretch is zero.
proof fn lemma_sample_sum_zero(samples: Seq<i32>, start: int, count: int)
    requires
        0 <= start,
        0 <= count,
        start + count <= samples.len(),
        forall|i: int| 0 <= i < samples.len() ==> samples[i] == 0,
    ensures
        sample_sum_spec(samples, start, count) == 0,
    decreases count,
{
    if count > 0 {
        lemma_sample_sum_zero(samples, start, count - 1);
    }
}

/// Per-delivery pitch-detection state: the reusable mono buffer together
/// with the stream configuration the audio device negotiated.
#[derive(Debug, Clone)]
pub struct PitchFrequencyDetector {
    /// Mono samples accumulated since the last estimation cycle; cleared
    /// after each cycle, never reallocated.
    pub downmixed_audio_buffer: Vec<i32>,
    /// Channel count of the interleaved input, at least one.
    pub channels: u16,
    /// Sample rate of the input in hertz.
    pub sample_rate: u32,
}

impl PitchFrequencyDetector {
    /// A detector has a positive channel count.
    pub open spec fn wf(&self) -> bool {
        self.channels >= 1
    }

    pub fn new(channels: u16, sample_rate: u32) -> (detector: PitchFrequencyDetector)
        requires
            channels >= 1,
        ensures
            detector.wf(),
            detector.downmixed_audio_buffer@.len() == 0,
            detector.channels == channels,
            detector.sample_rate == sample_rate,
    {
        PitchFrequencyDetector {
            downmixed_audio_buffer: Vec::with_capacity(1024),
            channels,
            sample_rate,
        }
    }

    /// Downmixes one delivered interleaved buffer into the mono buffer.
    pub fn downmix_into(&mut self, audio_data: &Vec<i32>)
        requires
            old(self).wf(),
        ensures
            final(self).wf(),
            final(self).channels == old(self).channels,
            final(self).sample_rate == old(self).sample_rate,
            final(self).downmixed_audio_buffer@ == old(self).downmixed_audio_buffer@
                + downmix_spec(audio_data@, old(self).channels as int),
    {
        let channels = self.channels as usize;
        downmix_audio(&mut self.downmixed_audio_buffer, audio_data, channels);
    }

    /// The mono samples accumulated so far.
    pub fn mono_buffer(&self) -> (buffer: &Vec<i32>)
        ensures
            buffer@ == self.downmixed_audio_buffer@,
    {
        &self.downmixed_audio_buffer
    }

    /// Empties the mono buffer for the next estimation cycle, keeping its
    /// allocation.
    pub fn clear_buffer(&mut self)
        requires
            old(self).wf(),
        ensures
            final(self).wf(),
            final(self).channels == old(self).channels,
            final(self).sample_rate == old(self).sample_rate,
            final(self).downmixed_audio_buffer@.len() == 0,
    {
        self.downmixed_audio_buffer.clear();
    }
}

} // verus!
