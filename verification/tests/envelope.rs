use saw_synth::envvelope::{Envelope, EnvelopeState};
use saw_synth::music_data::MusicData;
use saw_synth::musical_keyboard::NoteEvent;

fn tagged(event: Option<NoteEvent>, wave_data: i64) -> Option<MusicData> {
    Some(MusicData { current_event: event, wave_data })
}

#[test]
fn envelope_starts_flat_and_silent() {
    let mut envelope = Envelope::new(44100);
    assert_eq!(envelope.state(), EnvelopeState::Flat);
    assert_eq!(envelope.current_multiplier(), 0);
    assert_eq!(envelope.unity(), 44100);
    let shaped = envelope.next(tagged(None, 123_456_789)).unwrap();
    assert_eq!(shaped.wave_data, 0);
    assert_eq!(shaped.current_event, None);
    assert_eq!(envelope.state(), EnvelopeState::Flat);
}

#[test]
fn note_round_trip_returns_to_flat() {
    let mut envelope = Envelope::new(44100);
    let shaped = envelope.next(tagged(Some(NoteEvent::Press(440_000)), 1_000_000_000)).unwrap();
    assert_eq!(envelope.state(), EnvelopeState::Attack);
    assert_eq!(envelope.current_multiplier(), 1);
    assert_eq!(shaped.wave_data, 22_675);
    for tick in 1..44099 {
        envelope.next(tagged(None, 1_000_000_000));
        assert_eq!(envelope.state(), EnvelopeState::Attack);
        assert_eq!(envelope.current_multiplier(), tick + 1);
    }
    let shaped = envelope.next(tagged(None, 1_000_000_000)).unwrap();
    assert_eq!(envelope.state(), EnvelopeState::Hold);
    assert_eq!(envelope.current_multiplier(), 44100);
    assert_eq!(shaped.wave_data, 1_000_000_000);

    let shaped = envelope.next(tagged(Some(NoteEvent::Up), 1_000_000_000)).unwrap();
    assert_eq!(envelope.state(), EnvelopeState::Release);
    assert_eq!(envelope.current_multiplier(), 44099);
    assert_eq!(shaped.wave_data, 999_977_324);
    for tick in 1..44099 {
        envelope.next(tagged(None, 1_000_000_000));
        assert_eq!(envelope.state(), EnvelopeState::Release);
        assert_eq!(envelope.current_multiplier(), 44099 - tick);
    }
    let shaped = envelope.next(tagged(None, 1_000_000_000)).unwrap();
    assert_eq!(envelope.state(), EnvelopeState::Flat);
    assert_eq!(envelope.current_multiplier(), 0);
    assert_eq!(shaped.wave_data, 0);
    for input in [i64::MIN, -1, 0, 1, 1_000_000_000, i64::MAX] {
        assert_eq!(envelope.next(tagged(None, input)).unwrap().wave_data, 0);
        assert_eq!(envelope.next(tagged(Some(NoteEvent::Hold), input)).unwrap().wave_data, 0);
        assert_eq!(envelope.state(), EnvelopeState::Flat);
    }
}

#[test]
fn hold_passes_the_input_unchanged() {
    let mut envelope = Envelope::new(2);
    envelope.next(tagged(Some(NoteEvent::Press(1)), 10));
    envelope.next(tagged(None, 10));
    assert_eq!(envelope.state(), EnvelopeState::Hold);
    for input in [i64::MIN, -3, 0, 7, i64::MAX] {
        assert_eq!(envelope.next(tagged(None, input)).unwrap().wave_data, input);
        assert_eq!(envelope.state(), EnvelopeState::Hold);
        assert_eq!(envelope.current_multiplier(), 2);
    }
}

#[test]
fn hold_tags_and_missing_tags_only_carry_on_the_ramp() {
    let mut with_holds = Envelope::new(10);
    let mut without = Envelope::new(10);
    with_holds.next(tagged(Some(NoteEvent::Press(1)), 1000));
    without.next(tagged(Some(NoteEvent::Press(1)), 1000));
    for _ in 0..20 {
        let a = with_holds.next(tagged(Some(NoteEvent::Hold), 1000)).unwrap();
        let b = without.next(tagged(None, 1000)).unwrap();
        assert_eq!(a.wave_data, b.wave_data);
        assert_eq!(a.current_event, Some(NoteEvent::Hold));
        assert_eq!(b.current_event, None);
        assert_eq!(with_holds.state(), without.state());
        assert_eq!(with_holds.current_multiplier(), without.current_multiplier());
    }
    assert_eq!(with_holds.state(), EnvelopeState::Hold);
    assert_eq!(with_holds.current_multiplier(), 10);
}

#[test]
fn press_in_the_middle_of_a_release_starts_over() {
    let mut envelope = Envelope::new(10);
    envelope.next(tagged(Some(NoteEvent::Press(1)), 1000));
    for _ in 0..9 {
        envelope.next(tagged(None, 1000));
    }
    assert_eq!(envelope.state(), EnvelopeState::Hold);
    envelope.next(tagged(Some(NoteEvent::Up), 1000));
    envelope.next(tagged(None, 1000));
    assert_eq!(envelope.state(), EnvelopeState::Release);
    assert_eq!(envelope.current_multiplier(), 8);
    let shaped = envelope.next(tagged(Some(NoteEvent::Press(2)), 1000)).unwrap();
    assert_eq!(envelope.state(), EnvelopeState::Attack);
    assert_eq!(envelope.current_multiplier(), 1);
    assert_eq!(shaped.wave_data, 100);
    assert_eq!(shaped.current_event, Some(NoteEvent::Press(2)));
}

#[test]
fn release_in_the_middle_of_an_attack_falls_from_there() {
    let mut envelope = Envelope::new(10);
    envelope.next(tagged(Some(NoteEvent::Press(1)), 1000));
    envelope.next(tagged(None, 1000));
    envelope.next(tagged(None, 1000));
    assert_eq!(envelope.current_multiplier(), 3);
    let shaped = envelope.next(tagged(Some(NoteEvent::Up), 1000)).unwrap();
    assert_eq!(envelope.state(), EnvelopeState::Release);
    assert_eq!(envelope.current_multiplier(), 2);
    assert_eq!(shaped.wave_data, 200);
    envelope.next(tagged(None, 1000));
    assert_eq!(envelope.state(), EnvelopeState::Release);
    let shaped = envelope.next(tagged(None, 1000)).unwrap();
    assert_eq!(envelope.state(), EnvelopeState::Flat);
    assert_eq!(shaped.wave_data, 0);
}

#[test]
fn release_from_flat_changes_nothing() {
    let mut envelope = Envelope::new(10);
    let shaped = envelope.next(tagged(Some(NoteEvent::Up), 1000)).unwrap();
    assert_eq!(envelope.state(), EnvelopeState::Flat);
    assert_eq!(envelope.current_multiplier(), 0);
    assert_eq!(shaped.wave_data, 0);
    assert_eq!(shaped.current_event, Some(NoteEvent::Up));
}

#[test]
fn shortest_envelope_holds_at_once() {
    let mut envelope = Envelope::new(1);
    let shaped = envelope.next(tagged(Some(NoteEvent::Press(1)), -5)).unwrap();
    assert_eq!(envelope.state(), EnvelopeState::Hold);
    assert_eq!(envelope.current_multiplier(), 1);
    assert_eq!(shaped.wave_data, -5);
    let shaped = envelope.next(tagged(Some(NoteEvent::Up), -5)).unwrap();
    assert_eq!(envelope.state(), EnvelopeState::Flat);
    assert_eq!(shaped.wave_data, 0);
}

#[test]
fn scaling_rounds_toward_zero() {
    let mut envelope = Envelope::new(3);
    assert_eq!(envelope.next(tagged(Some(NoteEvent::Press(1)), 1000)).unwrap().wave_data, 333);
    let mut envelope = Envelope::new(3);
    assert_eq!(envelope.next(tagged(Some(NoteEvent::Press(1)), -1000)).unwrap().wave_data, -333);
    assert_eq!(envelope.next(tagged(None, -1000)).unwrap().wave_data, -666);
    let mut envelope = Envelope::new(u32::MAX);
    let press = Some(NoteEvent::Press(1));
    assert_eq!(envelope.next(tagged(press, i64::MAX)).unwrap().wave_data, 2_147_483_648);
    assert_eq!(envelope.next(tagged(press, i64::MIN)).unwrap().wave_data, -2_147_483_648);
}

#[test]
fn end_of_the_stream_passes_through() {
    let mut envelope = Envelope::new(10);
    envelope.next(tagged(Some(NoteEvent::Press(1)), 1000));
    assert_eq!(envelope.next(None), None);
    assert_eq!(envelope.state(), EnvelopeState::Attack);
    assert_eq!(envelope.current_multiplier(), 1);
}
