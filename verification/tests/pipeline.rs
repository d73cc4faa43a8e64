use std::sync::mpsc::channel;

use saw_synth::dataconverter::DataConverter;
use saw_synth::envvelope::{Envelope, EnvelopeState};
use saw_synth::music_data::MusicData;
use saw_synth::musical_keyboard::NoteEvent;
use saw_synth::saw_wave_oscilator_band_limited::SawWaveOscilatorBandLimited;

const FULL_SCALE: f64 = 1_000_000_000.0;

fn sines_of(oscillator: &SawWaveOscilatorBandLimited) -> Vec<i64> {
    let cycle = oscillator.cycle() as f64;
    let mut sines = Vec::new();
    for harmonic in 1..=oscillator.partials() {
        let turn = oscillator.harmonic_phase(harmonic) as f64 / cycle;
        let sine = (turn * 2.0 * std::f64::consts::PI).sin();
        sines.push((sine * FULL_SCALE).round() as i64);
    }
    sines
}

#[test]
fn first_sample_after_a_press_at_concert_pitch() {
    let (sender, receiver) = channel();
    let mut oscillator = SawWaveOscilatorBandLimited::new(44100, receiver);
    let mut envelope = Envelope::new(44100);
    let mut converter = DataConverter::new();
    sender.send(NoteEvent::Press(440_000)).unwrap();

    oscillator.advance();
    let radians = oscillator.harmonic_phase(1) as f64 / oscillator.cycle() as f64
        * 2.0
        * std::f64::consts::PI;
    assert!((radians - 0.06267).abs() < 1e-4);
    assert_eq!(oscillator.harmonics(), 6);
    assert_eq!(oscillator.partials(), 5);

    let sines = sines_of(&oscillator);
    assert_eq!(sines.len(), 5);
    let sample = oscillator.next(&sines).unwrap();
    assert_eq!(sample.current_event, Some(NoteEvent::Press(440_000)));
    assert!((sample.wave_data as f64 / FULL_SCALE - 0.19789).abs() < 5e-4);

    let shaped = envelope.next(Some(sample)).unwrap();
    assert_eq!(shaped.current_event, Some(NoteEvent::Press(440_000)));
    assert_eq!(envelope.state(), EnvelopeState::Attack);
    assert_eq!(envelope.current_multiplier(), 1);
    assert!((1.0 / envelope.unity() as f64 - 2.268e-5).abs() < 1e-8);

    let output = converter.next(Some(shaped)).unwrap();
    assert_eq!(output, shaped.wave_data);
    assert!((output as f64 / FULL_SCALE - 4.49e-6).abs() < 2e-8);
}

#[test]
fn envelope_scales_by_exact_steps() {
    let mut envelope = Envelope::new(4);
    let press = MusicData { current_event: Some(NoteEvent::Press(1)), wave_data: 1000 };
    let plain = MusicData { current_event: None, wave_data: -1000 };
    assert_eq!(envelope.next(Some(press)).unwrap().wave_data, 250);
    assert_eq!(envelope.next(Some(plain)).unwrap().wave_data, -500);
    assert_eq!(envelope.next(Some(plain)).unwrap().wave_data, -750);
    assert_eq!(envelope.state(), EnvelopeState::Attack);
    assert_eq!(envelope.next(Some(plain)).unwrap().wave_data, -1000);
    assert_eq!(envelope.state(), EnvelopeState::Hold);
}

fn pull(
    oscillator: &mut SawWaveOscilatorBandLimited,
    envelope: &mut Envelope,
    converter: &mut DataConverter,
) -> i64 {
    oscillator.advance();
    let sines = sines_of(oscillator);
    let sample = oscillator.next(&sines);
    converter.next(envelope.next(sample)).unwrap()
}

#[test]
fn output_stays_under_the_sawtooth_through_a_whole_note() {
    let (sender, receiver) = channel();
    let mut oscillator = SawWaveOscilatorBandLimited::new(8000, receiver);
    let mut envelope = Envelope::new(8000);
    let mut converter = DataConverter::new();
    sender.send(NoteEvent::Press(440_000)).unwrap();
    for tick in 0..30_000 {
        if tick == 12_000 {
            sender.send(NoteEvent::Up).unwrap();
        }
        oscillator.advance();
        let sines = sines_of(&oscillator);
        let decayed = oscillator.next(&sines).unwrap();
        let output = converter.next(envelope.next(Some(decayed))).unwrap();
        assert!(output.abs() <= decayed.wave_data.abs());
        assert!(output == 0 || (output > 0) == (decayed.wave_data > 0));
        assert!(output.abs() <= 1_200_000_000);
    }
    assert_eq!(envelope.state(), EnvelopeState::Flat);
    assert_eq!(pull(&mut oscillator, &mut envelope, &mut converter), 0);
}

#[test]
fn sawtooth_of_five_harmonics_overshoots_full_scale_beside_its_jump() {
    let (sender, receiver) = channel();
    let mut oscillator = SawWaveOscilatorBandLimited::new(44100, receiver);
    let mut envelope = Envelope::new(44100);
    let mut converter = DataConverter::new();
    sender.send(NoteEvent::Press(440_000)).unwrap();
    for _ in 0..45_711 {
        let output = pull(&mut oscillator, &mut envelope, &mut converter);
        assert!(output.abs() < 1_000_000_000);
    }
    assert_eq!(envelope.state(), EnvelopeState::Hold);
    sender.send(NoteEvent::Hold).unwrap();
    let output = pull(&mut oscillator, &mut envelope, &mut converter);
    assert_eq!(oscillator.phase(), 3_680_000);
    assert_eq!(oscillator.amplitude(), 99_999);
    assert!(output > 1_000_000_000);
    assert!((output as f64 / FULL_SCALE - 1.00766).abs() < 1e-5);
}

#[test]
fn each_pull_takes_one_event_through_every_stage() {
    let (sender, receiver) = channel();
    let mut oscillator = SawWaveOscilatorBandLimited::new(4, receiver);
    let mut envelope = Envelope::new(4);
    let mut converter = DataConverter::new();
    sender.send(NoteEvent::Press(100)).unwrap();
    sender.send(NoteEvent::Up).unwrap();
    sender.send(NoteEvent::Press(200)).unwrap();
    pull(&mut oscillator, &mut envelope, &mut converter);
    assert_eq!(envelope.state(), EnvelopeState::Attack);
    assert_eq!(oscillator.current_frequency(), 100);
    pull(&mut oscillator, &mut envelope, &mut converter);
    assert_eq!(envelope.state(), EnvelopeState::Flat);
    assert_eq!(oscillator.current_frequency(), 100);
    pull(&mut oscillator, &mut envelope, &mut converter);
    assert_eq!(envelope.state(), EnvelopeState::Attack);
    assert_eq!(envelope.current_multiplier(), 1);
    assert_eq!(oscillator.current_frequency(), 200);
    pull(&mut oscillator, &mut envelope, &mut converter);
    assert_eq!(envelope.current_multiplier(), 2);
    assert_eq!(oscillator.current_event(), None);
}
