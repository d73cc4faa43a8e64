use std::sync::mpsc::channel;

use saw_synth::saw_wave_oscilator::SawWaveOscilator;
use saw_synth::wave_table_oscilator::WavetableOscillator;

#[test]
fn plain_sawtooth_ramps_from_bottom_to_top() {
    let (_sender, receiver) = channel();
    let mut oscillator = SawWaveOscilator::new(1, receiver);
    assert_eq!(oscillator.tick(None), 0);
    assert_eq!(oscillator.amplitude(), 0);
    assert_eq!(oscillator.tick(Some(250)), -499_995_000);
    assert_eq!(oscillator.phase(), 250);
    assert_eq!(oscillator.amplitude(), 99_999);
    assert_eq!(oscillator.tick(Some(250)), 0);
    assert_eq!(oscillator.phase(), 500);
    oscillator.tick(None);
    assert_eq!(oscillator.tick(None), 999_970_000);
    assert_eq!(oscillator.phase(), 1000);
    oscillator.tick(None);
    assert_eq!(oscillator.phase(), 250);
}

#[test]
fn plain_sawtooth_rests_on_the_end_of_the_cycle() {
    let (_sender, receiver) = channel();
    let mut oscillator = SawWaveOscilator::new(1, receiver);
    oscillator.tick(Some(1000));
    assert_eq!(oscillator.phase(), 1000);
    oscillator.tick(None);
    assert_eq!(oscillator.phase(), 1000);
    oscillator.tick(Some(u32::MAX));
    assert_eq!(oscillator.phase(), 295);
    oscillator.tick(Some(3705));
    assert_eq!(oscillator.phase(), 1000);
}

#[test]
fn plain_sawtooth_at_concert_pitch() {
    let (sender, receiver) = channel();
    let mut oscillator = SawWaveOscilator::new(44100, receiver);
    sender.send(440_000).unwrap();
    sender.send(880_000).unwrap();
    assert_eq!(oscillator.get_sample(), -980_035_550);
    assert_eq!(oscillator.current_frequency(), 440_000);
    assert_eq!(oscillator.phase(), 440_000);
    assert_eq!(oscillator.next().is_some(), true);
    assert_eq!(oscillator.current_frequency(), 880_000);
    assert_eq!(oscillator.phase(), 1_320_000);
    oscillator.get_sample();
    assert_eq!(oscillator.current_frequency(), 880_000);
    assert_eq!(oscillator.amplitude(), 99_998);
    assert_eq!(oscillator.channels(), 1);
    assert_eq!(oscillator.sample_rate(), 44100);
    assert_eq!(oscillator.current_frame_len(), None);
    assert_eq!(oscillator.total_duration(), None);
}

#[test]
fn wavetable_reads_between_entries() {
    let (_sender, receiver) = channel();
    let mut oscillator = WavetableOscillator::new(1, vec![0, 1000, -1000], receiver);
    assert_eq!(oscillator.lerp(), 0);
    assert_eq!(oscillator.tick(None), 0);
    assert_eq!(oscillator.index(), 0);
    assert_eq!(oscillator.tick(Some(250)), 0);
    assert_eq!(oscillator.index(), 750);
    assert_eq!(oscillator.lerp(), 750);
    assert_eq!(oscillator.amplitude(), 99_999);
    assert_eq!(oscillator.tick(None), 749);
    assert_eq!(oscillator.index(), 1500);
    assert_eq!(oscillator.tick(None), 0);
    assert_eq!(oscillator.index(), 2250);
    assert_eq!(oscillator.lerp(), -750);
    assert_eq!(oscillator.tick(None), -749);
    assert_eq!(oscillator.index(), 0);
    assert_eq!(oscillator.amplitude(), 99_996);
    assert_eq!(oscillator.current_frequency(), 250);
}

#[test]
fn wavetable_of_the_default_waveform_is_a_square() {
    let (sender, receiver) = channel();
    let mut oscillator = WavetableOscillator::new_sinwave(1, receiver);
    sender.send(500).unwrap();
    assert_eq!(oscillator.get_sample(), 1_000_000_000);
    assert_eq!(oscillator.index(), 32_000);
    assert_eq!(oscillator.lerp(), -1_000_000_000);
    assert_eq!(oscillator.get_sample(), -999_990_000);
    assert_eq!(oscillator.index(), 0);
    assert_eq!(oscillator.next(), Some(999_980_000));
    assert_eq!(oscillator.channels(), 1);
    assert_eq!(oscillator.sample_rate(), 1);
    assert_eq!(oscillator.current_frame_len(), None);
    assert_eq!(oscillator.total_duration(), None);
}

#[test]
fn square_table_has_its_edge_in_the_middle() {
    let (_sender, receiver) = channel();
    let mut oscillator = WavetableOscillator::new_sinwave(1000, receiver);
    oscillator.tick(Some(15_625));
    for entry in 1..64u128 {
        assert_eq!(oscillator.index(), entry * 1_000_000);
        let expected = if entry < 32 { 1_000_000_000 } else { -1_000_000_000 };
        assert_eq!(oscillator.lerp(), expected);
        oscillator.tick(None);
    }
    assert_eq!(oscillator.index(), 0);
}
