use vstd::prelude::*;
use crate::detect::{downmix_spec, PitchFrequencyDetector};

verus! {

/// Minimum time between two renders, in milliseconds (ten renders a second).
pub const UI_RENDER_TICK_TIME_MS: u64 = 100;

/// A delivery at `now_ms` starts an estimation cycle exactly when at least
/// the render interval has passed since the last completed cycle.
pub open spec fn should_process_spec(last_render_ms: int, now_ms: int) -> bool {
    now_ms - last_render_ms >= 100
}

/// The real-time driver of the pipeline. It owns the detector state and the
/// timestamp of the last completed cycle; the audio collaborator's delivery
/// callback hands each interleaved buffer to `begin_frame`, runs the pitch
/// estimation over the mono buffer when asked to, and closes the cycle with
/// `finish_frame`.
pub struct CaptureLoop {
    pub detector: PitchFrequencyDetector,
    pub last_render_timestamp_ms: u64,
}

impl CaptureLoop {
    /// A capture loop carries a well-formed detector.
    pub open spec fn wf(&self) -> bool {
        self.detector.wf()
    }

    pub fn new(channels: u16, sample_rate: u32, now_ms: u64) -> (capture_loop: CaptureLoop)
        requires
            channels >= 1,
        ensures
            capture_loop.wf(),
            capture_loop.last_render_timestamp_ms == now_ms,
            capture_loop.detector.downmixed_audio_buffer@.len() == 0,
            capture_loop.detector.channels == channels,
            capture_loop.detector.sample_rate == sample_rate,
    {
        CaptureLoop {
            detector: PitchFrequencyDetector::new(channels, sample_rate),
            last_render_timestamp_ms: now_ms,
        }
    }

    /// Handles one delivered buffer. Within the render interval the frame is
    /// discarded and nothing changes; otherwise the frame is downmixed into
    /// the mono buffer and the caller must run the estimation cycle and then
    /// call `finish_frame`. The clock is monotone, so a delivery never
    /// carries a timestamp older than the last completed cycle.
    pub fn begin_frame(&mut self, now_ms: u64, audio_data: &Vec<i32>) -> (process: bool)
        requires
            old(self).wf(),
            old(self).last_render_timestamp_ms <= now_ms,
        ensures
            final(self).wf(),
            process == should_process_spec(old(self).last_render_timestamp_ms as int, now_ms as int),
            final(self).last_render_timestamp_ms == old(self).last_render_timestamp_ms,
            final(self).detector.channels == old(self).detector.channels,
            final(self).detector.sample_rate == old(self).detector.sample_rate,
            !process ==> final(self).detector.downmixed_audio_buffer@ == old(
                self,
            ).detector.downmixed_audio_buffer@,
            process ==> final(self).detector.downmixed_audio_buffer@ == old(
                self,
            ).detector.downmixed_audio_buffer@ + downmix_spec(
                audio_data@,
                old(self).detector.channels as int,
            ),
    {
        if now_ms - self.last_render_timestamp_ms < UI_RENDER_TICK_TIME_MS {
            return false;
        }
        self.detector.downmix_into(audio_data);
        true
    }

    /// Closes an estimation cycle: empties the mono buffer and records the
    /// cycle's completion time, whether or not an estimate was produced, so
    /// that silence does not cause runaway attempted renders.
    pub fn finish_frame(&mut self, now_ms: u64)
        requires
            old(self).wf(),
        ensures
            final(self).wf(),
            final(self).last_render_timestamp_ms == now_ms,
            final(self).detector.channels == old(self).detector.channels,
            final(self).detector.sample_rate == old(self).detector.sample_rate,
            final(self).detector.downmixed_audio_buffer@.len() == 0,
    {
        self.detector.clear_buffer();
        self.last_render_timestamp_ms = now_ms;
    }
}

/// Rate limiting: after a cycle completes at time `completed_ms`, every
/// delivery strictly within the render interval is discarded, and the first
/// delivery at or past the interval starts a cycle.
pub proof fn lemma_rate_limiting(completed_ms: int, delivery_ms: int)
    requires
        completed_ms <= delivery_ms,
    ensures
        delivery_ms < completed_ms + 100 ==> !should_process_spec(completed_ms, delivery_ms),
        delivery_ms >= completed_ms + 100 ==> should_process_spec(completed_ms, delivery_ms),
{
}

} // verus!
