use pitch_detection::detector::yin::YINDetector;
use pitch_detection::detector::PitchDetector;
use tuner::capture::CaptureLoop;
use tuner::detect::{downmix_audio, PitchFrequencyDetector};
use tuner::info::get_pitch_info;

/// Fixed-point scale of one sample unit: the capture side quantizes the
/// device's floating-point samples to thousandths-of-full-scale times 2^24.
const SAMPLE_SCALE: f32 = 16_777_216.0;

const TUNER_POWER_THRESHOLD: f32 = 0.1;
const TUNER_CLARITY_THRESHOLD: f32 = 0.8;

#[test]
fn downmix_single_channel_is_identity() {
    let mut buffer: Vec<i32> = Vec::new();
    let input = vec![5, -3, 0, 7, 2_000_000, -2_000_000];
    downmix_audio(&mut buffer, &input, 1);
    assert_eq!(buffer, input);
}

#[test]
fn downmix_silence_is_silence() {
    let mut buffer: Vec<i32> = Vec::new();
    let input = vec![0; 10];
    downmix_audio(&mut buffer, &input, 3);
    assert_eq!(buffer, vec![0, 0, 0]);
}

#[test]
fn downmix_averages_each_frame() {
    let mut buffer: Vec<i32> = Vec::new();
    let input = vec![3, 5, -3, -5, 10, 20];
    downmix_audio(&mut buffer, &input, 2);
    assert_eq!(buffer, vec![4, -4, 15]);
}

#[test]
fn downmix_truncates_toward_zero() {
    let mut buffer: Vec<i32> = Vec::new();
    downmix_audio(&mut buffer, &vec![1, 2], 2);
    downmix_audio(&mut buffer, &vec![-1, -2], 2);
    assert_eq!(buffer, vec![1, -1]);
}

#[test]
fn downmix_drops_partial_frames() {
    let mut buffer: Vec<i32> = Vec::new();
    let input = vec![4, 4, 4, 4, 9];
    downmix_audio(&mut buffer, &input, 2);
    assert_eq!(buffer, vec![4, 4]);
}

#[test]
fn downmix_appends_without_clearing() {
    let mut detector = PitchFrequencyDetector::new(2, 48_000);
    detector.downmix_into(&vec![10, 20, 30, 40]);
    detector.downmix_into(&vec![50, 70]);
    assert_eq!(detector.mono_buffer(), &vec![15, 35, 60]);
    detector.clear_buffer();
    assert!(detector.mono_buffer().is_empty());
}

#[test]
fn capture_loop_rate_limits_deliveries() {
    let frame = vec![1, 1];
    let mut capture_loop = CaptureLoop::new(1, 44_100, 0);

    // Within the 100 ms render interval: frames are discarded.
    assert!(!capture_loop.begin_frame(50, &frame));
    assert!(!capture_loop.begin_frame(99, &frame));
    assert!(capture_loop.detector.mono_buffer().is_empty());

    // The first delivery at the interval starts a cycle.
    assert!(capture_loop.begin_frame(100, &frame));
    assert_eq!(capture_loop.detector.mono_buffer(), &frame);
    capture_loop.finish_frame(100);
    assert!(capture_loop.detector.mono_buffer().is_empty());

    // The interval restarts from the completed cycle.
    assert!(!capture_loop.begin_frame(150, &frame));
    assert!(!capture_loop.begin_frame(199, &frame));
    assert!(capture_loop.begin_frame(200, &frame));
    capture_loop.finish_frame(200);
}

#[test]
fn capture_loop_spaced_deliveries_all_process() {
    let frame = vec![0, 0];
    let mut capture_loop = CaptureLoop::new(2, 44_100, 0);
    for i in 1..=5u64 {
        assert!(capture_loop.begin_frame(i * 100, &frame));
        capture_loop.finish_frame(i * 100);
    }
}

/// An interleaved stereo sine wave, quantized as the capture side does.
fn quantized_sine(frequency: f32, sample_rate: usize, frames: usize, channels: usize) -> Vec<i32> {
    let mut samples = Vec::new();
    for i in 0..frames {
        let t = i as f32 / sample_rate as f32;
        let value = 0.8 * (2.0 * std::f32::consts::PI * frequency * t).sin();
        for _ in 0..channels {
            samples.push((value * SAMPLE_SCALE) as i32);
        }
    }
    samples
}

fn estimate_frequency(mono: &[i32], sample_rate: usize) -> Option<f32> {
    let signal: Vec<f32> = mono.iter().map(|&s| s as f32 / SAMPLE_SCALE).collect();
    let mut detector = YINDetector::new(signal.len(), signal.len());
    detector
        .get_pitch(
            &signal,
            sample_rate,
            TUNER_POWER_THRESHOLD,
            TUNER_CLARITY_THRESHOLD,
        )
        .map(|pitch| pitch.frequency)
}

#[test]
fn estimator_finds_a_pure_sine() {
    let sample_rate = 44_100;
    let mut detector = PitchFrequencyDetector::new(2, sample_rate as u32);
    detector.downmix_into(&quantized_sine(440.0, sample_rate, 2048, 2));

    let frequency = estimate_frequency(detector.mono_buffer(), sample_rate)
        .expect("a loud pure sine should yield an estimate");
    assert!((frequency - 440.0).abs() < 4.4, "estimate {frequency} off by over 1%");

    // The estimate maps back to A4, in tune within a tenth of a semitone.
    let milli = (12.0 * (frequency as f64 / 440.0).log2() * 1000.0).round() as i64;
    let info = get_pitch_info(milli);
    assert_eq!(info.note.literal, "A");
    assert_eq!(info.note.octave, 4);
    assert!(info.cent_milli.abs() < 100);
}

#[test]
fn estimator_rejects_silence() {
    let sample_rate = 44_100;
    let mono = vec![0; 2048];
    assert_eq!(estimate_frequency(&mono, sample_rate), None);
}

#[test]
fn estimator_rejects_quiet_noise() {
    // Deterministic low-power wobble well below the power threshold.
    let sample_rate = 44_100;
    let mono: Vec<i32> = (0..2048)
        .map(|i| {
            let value = 0.001 * if i % 2 == 0 { 1.0f32 } else { -1.0 };
            (value * SAMPLE_SCALE) as i32
        })
        .collect();
    assert_eq!(estimate_frequency(&mono, sample_rate), None);
}
