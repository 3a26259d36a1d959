//! Audio models: voice activity, end of turn, denoising.
use voice_engine::audio_ml::denoiser::backend::DenoiserBackend;
use voice_engine::audio_ml::denoiser::dfn3::{
    apply_stages, band_ranges, coef_index, erb_widths, hop_plan, DeepFilterNetDenoiser, HopPlan,
    SpectrumHistory, Stages, N_FREQS,
};
use voice_engine::audio_ml::denoiser::dtln::{DtlnAction, DtlnDenoiser};
use voice_engine::audio_ml::denoiser::pacing::PacerAction;
use voice_engine::audio_ml::denoiser::rnnoise::RnnoiseDenoiser;
use voice_engine::audio_ml::model_state::{element_count, state_shape};
use voice_engine::audio_ml::smart_turn::{
    fit_window, frame_count, frame_start, mel_index, reflect_pad, SmartTurnAnalyzer,
};
use voice_engine::audio_ml::vad::{
    state_count, SileroVad, VadConfig, VadEvent, VadThreshold, FRAME_SIZE,
};
use voice_engine::float32::Float32;
use voice_engine::pcm::i16_to_bytes;

fn float(x: f32) -> Float32 {
    Float32 { bits: x.to_bits() }
}

fn vad(min_speech: u32, silence: u32, lookback: usize) -> SileroVad {
    SileroVad::new(
        VadConfig {
            silence_frames: silence,
            min_speech_frames: min_speech,
            lookback_frames: lookback,
            context_size: 2,
            ..VadConfig::default()
        },
        0,
    )
}

#[test]
fn speech_starts_and_ends_after_enough_frames() {
    let mut v = vad(2, 2, 1);
    assert_eq!(v.process_frame(true, &[1]), None);
    assert_eq!(v.process_frame(false, &[2]), None);
    assert_eq!(v.process_frame(true, &[3]), None);
    assert_eq!(v.process_frame(true, &[4]), Some(VadEvent::SpeechStart));
    assert!(v.is_speaking());
    assert_eq!(v.get_speech_audio(), &[3, 4]);
    assert_eq!(v.process_frame(false, &[5]), None);
    assert_eq!(v.process_frame(true, &[6]), None);
    assert_eq!(v.process_frame(false, &[7]), None);
    assert_eq!(v.process_frame(false, &[8]), Some(VadEvent::SpeechEnd));
    assert_eq!(v.take_speech_audio(), vec![3, 4, 5, 6, 7, 8]);
    assert!(v.get_speech_audio().is_empty());
}

#[test]
fn reports_follow_the_runs_of_frames() {
    let mut v = vad(3, 2, 0);
    let mut reports = String::new();
    for c in "SSQSSQQSSSSQSQQQQSSQSSS".chars() {
        reports.push(match v.process_frame(c == 'S', &[0]) {
            Some(VadEvent::SpeechStart) => '<',
            Some(VadEvent::SpeechEnd) => '>',
            None => '.',
        });
    }
    assert_eq!(reports, ".........<....>.......<");
}

#[test]
fn forced_end_is_not_reported() {
    let mut v = vad(1, 2, 0);
    assert_eq!(v.process_frame(true, &[1]), Some(VadEvent::SpeechStart));
    v.force_speech_end();
    assert!(!v.is_speaking());
    assert_eq!(v.process_frame(false, &[2]), None);
}

#[test]
fn model_is_reset_every_five_seconds() {
    let mut v = vad(1, 1, 0);
    assert!(!v.needs_model_reset(4_999_999_999));
    assert!(v.needs_model_reset(5_000_000_000));
    v.reset_states(5_000_000_000);
    assert!(!v.needs_model_reset(5_000_000_001));
    v.process_frame(true, &[0]);
    assert!(!v.needs_model_reset(20_000_000_000));
}

#[test]
fn model_sees_the_end_of_the_last_frame() {
    let mut v = vad(1, 1, 0);
    let input = v.model_input(&i16_to_bytes(&[1, 2, 3]));
    assert_eq!(input, vec![0, 0, 1, 2, 3]);
    v.on_inferred(&input);
    assert_eq!(v.model_input(&i16_to_bytes(&[4])), vec![2, 3, 4]);
    let long = vec![9i16; 600];
    assert_eq!(v.model_input(&i16_to_bytes(&long)).len(), 2 + 512);
    v.reset(7);
    assert_eq!(v.context, vec![0, 0]);
    assert_eq!(v.last_reset, 7);
}

#[test]
fn model_states_are_shaped() {
    assert_eq!(state_count(4), 2);
    assert_eq!(state_count(1), 0);
    assert_eq!(state_shape(Some(&[2, -1, 128])), vec![2, 1, 128]);
    assert_eq!(state_shape(None), vec![1]);
    assert_eq!(element_count(&[2, 1, 128]), Some(256));
    assert_eq!(element_count(&[]), Some(1));
    assert_eq!(element_count(&[usize::MAX, 2]), None);
}

#[test]
fn defaults_of_the_detector() {
    let c = VadConfig::default();
    assert_eq!(
        (c.silence_frames, c.min_speech_frames, c.lookback_frames, c.context_size),
        (6, 6, 20, 64)
    );
    assert_eq!(c.threshold, float(0.70));
    assert_eq!(c.min_volume, float(0.0035));
    assert_eq!(VadThreshold::Idle.value(), float(0.70));
    assert_eq!(VadThreshold::Playback.value(), float(0.85));
    assert_eq!(VadThreshold::PlaybackRaw.value(), float(0.90));
}

#[test]
fn window_holds_the_last_eight_seconds() {
    let w = fit_window(&i16_to_bytes(&[1, 2, 3]));
    assert_eq!(w.len(), 128_000);
    assert_eq!(&w[127_996..], &[0, 1, 2, 3]);
    let long: Vec<i16> = (0..128_002).map(|i| (i % 1000) as i16).collect();
    let w = fit_window(&i16_to_bytes(&long));
    assert_eq!(w[..], long[2..]);
}

#[test]
fn window_fills_the_spectrogram() {
    let w = fit_window(&[]);
    let p = reflect_pad(&w);
    assert_eq!(p.len(), 128_400);
    assert_eq!(frame_count(p.len()), 800);
    assert!(frame_start(799) + 400 <= p.len());
    assert_eq!(mel_index(79, 799), 63_999);
    assert_eq!(frame_count(399), 0);
    assert_eq!(frame_count(400), 0);
    assert_eq!(frame_count(560), 1);
}

#[test]
fn ends_are_reflected() {
    let audio: Vec<i32> = (0..300).collect();
    let p = reflect_pad(&audio);
    assert_eq!(p[0], 200);
    assert_eq!(p[199], 1);
    assert_eq!(p[200], 0);
    assert_eq!(p[499], 299);
    assert_eq!(p[500], 298);
    assert_eq!(p[699], 99);
    let one = reflect_pad(&[5]);
    assert!(one.iter().all(|&x| x == 5));
    assert_eq!(one.len(), 401);
}

#[test]
fn denoiser_names() {
    assert_eq!(DenoiserBackend::from_name("dfn3"), DenoiserBackend::DeepFilterNet3);
    assert_eq!(DenoiserBackend::from_name("dtln"), DenoiserBackend::Dtln);
    assert_eq!(DenoiserBackend::from_name("rnnoise"), DenoiserBackend::RNNoise);
    assert_eq!(DenoiserBackend::from_name("?"), DenoiserBackend::default());
}

#[test]
fn rnnoise_answers_each_frame_in_length() {
    let mut d = RnnoiseDenoiser::new();
    assert!(matches!(d.denoise_frame(&[1], true), PacerAction::Emit(b) if b == vec![1]));
    assert!(matches!(d.denoise_frame(&[1, 2], false), PacerAction::Emit(b) if b == vec![1, 2]));
    assert!(matches!(d.denoise_frame(&[1, 2, 3, 4, 5], true), PacerAction::Upsample));
    let up = i16_to_bytes(&vec![3i16; 500]);
    let block = match d.pacer.on_upsampled(&up) {
        PacerAction::Denoise(b) => b,
        _ => panic!("expected a block"),
    };
    assert_eq!(block, vec![3i16; 480]);
    let enhanced = match d.pacer.on_enhanced(&[7, 8]) {
        PacerAction::Downsample(b) => b,
        _ => panic!("expected denoised audio"),
    };
    assert_eq!(enhanced, vec![7, 0, 8, 0]);
    assert!(
        matches!(d.pacer.on_downsampled(&[1, 1, 1]), PacerAction::Emit(b) if b == vec![0; 4])
    );
    assert!(matches!(d.denoise_frame(&[1, 2], true), PacerAction::Upsample));
    assert!(matches!(d.pacer.on_upsampled(&[]), PacerAction::Emit(b) if b == vec![1, 1]));
    assert_eq!(d.pacer.samples.len(), 20);
    d.reset();
    assert!(d.pacer.samples.is_empty() && d.pacer.output.is_empty());
}

#[test]
fn dtln_is_silent_while_it_warms_up() {
    let mut d = DtlnDenoiser::new();
    let frame = i16_to_bytes(&(1..=128).collect::<Vec<i16>>());
    assert!(matches!(d.denoise_frame(&frame, false), DtlnAction::Emit(b) if b == frame));
    for shift in 0..5 {
        match d.denoise_frame(&frame, true) {
            DtlnAction::Denoise(w) => {
                assert_eq!(w.len(), 512);
                assert_eq!(w[384], 1);
                assert_eq!(w[511], 128);
                if shift == 0 {
                    assert_eq!(w[383], 0);
                }
            }
            _ => panic!("expected a window"),
        }
        assert_eq!(d.ends_warmup(), shift == 4);
        assert!(matches!(d.on_shift(&[9; 128]), DtlnAction::Emit(b) if b == vec![0; 256]));
    }
    assert!(matches!(d.denoise_frame(&frame, true), DtlnAction::Denoise(_)));
    assert!(
        matches!(d.on_shift(&[9; 128]), DtlnAction::Emit(b) if b == i16_to_bytes(&[9; 128]))
    );
    d.reset();
    assert_eq!(d.warmup_remaining, 5);
}

#[test]
fn dtln_waits_for_a_whole_shift() {
    let mut d = DtlnDenoiser::new();
    assert!(matches!(d.denoise_frame(&[1, 0], true), DtlnAction::Emit(b) if b == vec![0, 0]));
    assert_eq!(d.samples, vec![1]);
}

#[test]
fn bands_cover_the_spectrum() {
    let mut edges: Vec<usize> = (1..=32).map(|i| i * 15).collect();
    edges[0] = 1;
    let w = erb_widths(&edges).unwrap();
    assert_eq!(w[0], 2);
    assert_eq!(w[1], 28);
    assert_eq!(w[31], 16);
    assert_eq!(w.iter().sum::<usize>(), N_FREQS);
    let ranges = band_ranges(&w, N_FREQS);
    assert_eq!(ranges[0], (0, 2));
    assert_eq!(ranges[31].1, N_FREQS);
    for i in 1..32 {
        assert_eq!(ranges[i].0, ranges[i - 1].1);
    }
    assert_eq!(band_ranges(&[3, 4], 5), vec![(0, 3), (3, 5)]);
}

#[test]
fn crowded_bands_have_no_widths() {
    let mut edges = vec![480usize; 32];
    edges[31] = 480;
    assert!(erb_widths(&edges).is_none());
}

#[test]
fn stages_follow_the_noise() {
    let s = |erb, zeros, df| Stages { erb, zeros, df };
    assert_eq!(apply_stages(float(-15.1)), s(false, true, false));
    assert_eq!(apply_stages(float(-15.0)), s(true, false, true));
    assert_eq!(apply_stages(float(0.0)), s(true, false, true));
    assert_eq!(apply_stages(float(35.0)), s(true, false, true));
    assert_eq!(apply_stages(float(35.1)), s(false, false, false));
    assert_eq!(apply_stages(float(f32::NAN)), s(true, false, true));
    assert_eq!(hop_plan(true, None), HopPlan::Silence);
    assert_eq!(hop_plan(false, None), HopPlan::Passthrough);
    assert_eq!(hop_plan(false, Some(s(true, false, true))), HopPlan::Filter(s(true, false, true)));
}

#[test]
fn quiet_hops_are_skipped() {
    let mut d = DeepFilterNetDenoiser::new();
    let quiet = float(0.9e-7);
    for _ in 0..5 {
        assert!(!d.on_hop(quiet));
    }
    assert!(d.on_hop(quiet));
    assert!(!d.on_hop(float(1e-7)));
    assert!(!d.on_hop(quiet));
    assert!(matches!(d.denoise_frame(&[0, 0], true, false), PacerAction::Emit(_)));
    assert!(matches!(d.denoise_frame(&[0, 0], true, true), PacerAction::Upsample));
    d.reset();
    assert_eq!(d.skip_counter, 0);
}

#[test]
fn history_is_delayed_by_the_lookahead() {
    let mut h = SpectrumHistory { spectra: vec![0; 7] };
    for i in 1..=9 {
        h.push(i);
    }
    assert_eq!(*h.delayed(), 7);
    assert_eq!(*h.tap(0), 5);
    assert_eq!(*h.tap(4), 9);
    assert_eq!(coef_index(95, 4), 958);
}

#[test]
fn numbers_compare_as_they_should() {
    let values = [
        f32::NEG_INFINITY,
        -15.0,
        -1e-30,
        -0.0,
        0.0,
        1e-45,
        0.7,
        1.0,
        f32::INFINITY,
        f32::NAN,
        -f32::NAN,
    ];
    for a in values {
        for b in values {
            assert_eq!(float(a).at_least(float(b)), a >= b, "{a} >= {b}");
            assert_eq!(float(a).above(float(b)), a > b, "{a} > {b}");
        }
    }
}

#[test]
fn a_turn_is_complete_above_the_threshold() {
    let a = SmartTurnAnalyzer::new(float(0.5));
    assert!(a.is_complete(float(0.51)));
    assert!(!a.is_complete(float(0.5)));
    assert!(!a.is_complete(float(f32::NAN)));
}

#[test]
fn quiet_frames_hold_no_speech() {
    let mut v = vad(1, 1, 0);
    assert_eq!(v.process_with_prob(float(0.99), float(0.003), &[1]), None);
    assert_eq!(v.process_with_prob(float(0.99), float(f32::NAN), &[1]), None);
    assert_eq!(
        v.process_with_prob(float(0.70), float(0.0035), &[1]),
        Some(VadEvent::SpeechStart)
    );
}

fn make_frame(amplitude: f32) -> Vec<u8> {
    let sample = (amplitude * 32767.0) as i16;
    i16_to_bytes(&[sample; FRAME_SIZE])
}

/// The smoothed volume after a first frame of this amplitude.
fn volume(amplitude: f32) -> Float32 {
    float(0.2 * amplitude)
}

fn make_vad(threshold: Float32) -> SileroVad {
    SileroVad::new(
        VadConfig {
            threshold,
            min_volume: float(0.0),
            silence_frames: 6,
            min_speech_frames: 1,
            lookback_frames: 0,
            context_size: 0,
        },
        0,
    )
}

#[test]
fn threshold_controls_speech_detection() {
    let frame = make_frame(0.1);

    let mut vad = make_vad(VadThreshold::Idle.value());
    let result = vad.process_with_prob(float(0.80), volume(0.1), &frame);
    assert_eq!(result, Some(VadEvent::SpeechStart));

    let mut vad = make_vad(VadThreshold::Playback.value());
    let result = vad.process_with_prob(float(0.80), volume(0.1), &frame);
    assert_eq!(result, None);
}

#[test]
fn set_threshold_takes_effect_immediately() {
    let frame = make_frame(0.1);
    let mut vad = make_vad(VadThreshold::Idle.value());

    vad.process_with_prob(float(0.50), volume(0.1), &frame);
    assert!(!vad.is_speaking());

    vad.set_threshold(VadThreshold::Playback.value());
    assert_eq!(vad.threshold(), float(0.85));
    let result = vad.process_with_prob(float(0.80), volume(0.1), &frame);
    assert_eq!(result, None, "prob 0.80 should be below playback threshold 0.85");

    vad.set_threshold(VadThreshold::Idle.value());
    let result = vad.process_with_prob(float(0.80), volume(0.1), &frame);
    assert_eq!(result, Some(VadEvent::SpeechStart));
}
