//! The decode state machine, driven end to end over real containers built
//! in memory.

use audio_visualizer::amplitude::raw_to_milli;
use audio_visualizer::errors::FatalError;
use audio_visualizer::errors::InitError;
use audio_visualizer::errors::StreamError;
use audio_visualizer::media::TrackEntry;
use audio_visualizer::num_to_circle::number_to_circle;
use audio_visualizer::num_to_color::number_to_color;
use audio_visualizer::player::AppState;
use audio_visualizer::player::check_track;
use audio_visualizer::player::select_track;

/// A 16-bit PCM mono WAV: a 1-second 440 Hz half-scale test tone at
/// 8000 Hz, returned with the raw 16-bit samples it carries.
fn tone_wav() -> (Vec<u8>, Vec<i16>) {
    let rate: u32 = 8000;
    let n: usize = 8000;
    let mut samples: Vec<i16> = Vec::with_capacity(n);
    for i in 0..n {
        let t = i as f64 / rate as f64;
        let v = (2.0 * std::f64::consts::PI * 440.0 * t).sin() * 0.5;
        samples.push((v * 32767.0).round() as i16);
    }
    let data_len = (2 * n) as u32;
    let mut wav: Vec<u8> = Vec::new();
    wav.extend_from_slice(b"RIFF");
    wav.extend_from_slice(&(36 + data_len).to_le_bytes());
    wav.extend_from_slice(b"WAVE");
    wav.extend_from_slice(b"fmt ");
    wav.extend_from_slice(&16u32.to_le_bytes());
    wav.extend_from_slice(&1u16.to_le_bytes()); // PCM
    wav.extend_from_slice(&1u16.to_le_bytes()); // mono
    wav.extend_from_slice(&rate.to_le_bytes());
    wav.extend_from_slice(&(rate * 2).to_le_bytes()); // byte rate
    wav.extend_from_slice(&2u16.to_le_bytes()); // block align
    wav.extend_from_slice(&16u16.to_le_bytes()); // bits per sample
    wav.extend_from_slice(b"data");
    wav.extend_from_slice(&data_len.to_le_bytes());
    for s in &samples {
        wav.extend_from_slice(&s.to_le_bytes());
    }
    (wav, samples)
}

#[test]
fn ready_tick_without_bytes_is_unreadable_source() {
    let mut app = AppState::default();
    let r = app.tick(None, "mp3");
    assert_eq!(r, Err(FatalError::Init(InitError::UnreadableSource)));
    assert!(!app.is_playing());
}

#[test]
fn unknown_container_fails_initialization() {
    let mut app = AppState::default();
    let r = app.tick(Some(vec![0u8; 4096]), "bin");
    match r {
        Err(FatalError::Init(InitError::UnsupportedFormat(_))) => {}
        other => panic!("expected UnsupportedFormat, got {:?}", other),
    }
    // No player data was ever constructed.
    assert!(!app.is_playing());
    assert_eq!(app.total_samples(), 0);
    assert_eq!(app.current_samples().len(), 0);
}

#[test]
fn first_ready_tick_only_initializes() {
    let (wav, _) = tone_wav();
    let mut app = AppState::default();
    let r = app.tick(Some(wav), "wav");
    assert_eq!(r, Ok(0));
    assert!(app.is_playing());
    assert_eq!(app.total_samples(), 0);
    assert_eq!(app.current_samples().len(), 0);
}

#[test]
fn tone_decodes_with_its_spec_and_counted_samples() {
    let (wav, raw) = tone_wav();
    let mut app = AppState::default();
    assert_eq!(app.tick(Some(wav), "wav"), Ok(0));

    // First Playing tick: a non-empty buffer with the source's spec.
    let n1 = app.tick(None, "wav").expect("first decode");
    assert!(n1 > 0);
    assert_eq!(app.sample_rate(), 8000);
    assert_eq!(app.channel_count(), 1);
    let first = app.current_samples();
    assert_eq!(first.len(), n1);
    // The decoder widens each 16-bit sample by a left shift of 16.
    for i in 0..n1 {
        assert_eq!(first[i], (raw[i] as i32) << 16);
    }

    // The capacity is fixed by the first decode and never changes.
    let cap = app.buffer_capacity();
    assert!(cap >= n1);

    let mut produced = n1 as u64;
    loop {
        match app.tick(None, "wav") {
            Ok(n) => {
                assert!(n <= app.buffer_capacity());
                assert_eq!(app.buffer_capacity(), cap);
                assert_eq!(app.sample_rate(), 8000);
                assert_eq!(app.channel_count(), 1);
                produced += n as u64;
            }
            Err(FatalError::Stream(StreamError::IoFailure(_))) => break,
            Err(other) => panic!("expected end of stream, got {:?}", other),
        }
        assert!(produced <= 8000);
    }
    // The running total equals the sum of the per-tick sample counts, and
    // every sample of the tone was produced exactly once.
    assert_eq!(app.total_samples(), produced);
    assert_eq!(produced, 8000);
}

#[test]
fn render_view_matches_the_mappers() {
    let (wav, _) = tone_wav();
    let mut app = AppState::default();
    assert_eq!(app.tick(Some(wav), "wav"), Ok(0));
    app.tick(None, "wav").expect("first decode");

    let samples = app.current_samples();
    let len = samples.len();
    assert!(len > 0);
    let v = app.render_view();
    assert_eq!(v.sample_len, len);
    assert_eq!(v.sample_count, app.total_samples());
    let at = |i: usize| Some(raw_to_milli(samples[i]));
    assert_eq!(v.label_color, number_to_color(at(len - 1)));
    assert_eq!(v.circle_first, number_to_circle(at(0)));
    assert_eq!(v.circle_quarter, number_to_circle(at(len / 4)));
    assert_eq!(v.circle_half, number_to_circle(at(len / 2)));
    assert_eq!(v.circle_three_quarter, number_to_circle(at(len / 2 + len / 4)));
}

#[test]
fn empty_render_view_is_black_and_zero() {
    let app = AppState::default();
    let v = app.render_view();
    assert_eq!(v.sample_len, 0);
    assert_eq!(v.sample_count, 0);
    assert_eq!(v.label_color, number_to_color(None));
    assert_eq!(v.circle_first, number_to_circle(None));
    assert_eq!(v.circle_half, (0, number_to_color(None)));
}

#[test]
fn default_configuration() {
    let app = AppState::default();
    assert_eq!(app.audio_path, "./sample.mp3");
    assert_eq!(app.fps_as_ms, 41);
    assert_eq!(app.sample_count, 0);
}

#[test]
fn select_track_takes_first_decodable() {
    let tracks = vec![
        TrackEntry { id: 7, decodable: false },
        TrackEntry { id: 9, decodable: true },
        TrackEntry { id: 11, decodable: true },
    ];
    assert_eq!(select_track(&tracks), Some((1, 9)));
}

#[test]
fn select_track_rejects_all_undecodable() {
    let tracks = vec![
        TrackEntry { id: 7, decodable: false },
        TrackEntry { id: 8, decodable: false },
    ];
    assert_eq!(select_track(&tracks), None);
    assert_eq!(select_track(&Vec::new()), None);
}

#[test]
fn check_track_admits_only_the_selected_track() {
    assert_eq!(check_track(3, 3), Ok(()));
    assert_eq!(
        check_track(4, 3),
        Err(StreamError::TrackMismatch { got: 4, expected: 3 })
    );
}
