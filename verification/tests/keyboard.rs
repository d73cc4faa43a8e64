use saw_synth::musical_keyboard::{
    calc_frequency, frequency_from_keycode, KeyAction, KeyKind, KeyStroke, Keyboard,
    FIRST_OCTAVE, OCTAVE_LIMIT,
};

#[test]
fn pitch_counts_semitones_from_the_a_of_octave_four() {
    assert_eq!(calc_frequency(4, 0), 0);
    assert_eq!(calc_frequency(4, 3), 3);
    assert_eq!(calc_frequency(5, 0), 12);
    assert_eq!(calc_frequency(1, 3), -33);
    assert_eq!(calc_frequency(i32::MAX, 255), (i32::MAX as i64 - 4) * 12 + 255);
    assert_eq!(calc_frequency(i32::MIN, 0), (i32::MIN as i64 - 4) * 12);
}

#[test]
fn home_row_plays_one_octave_from_c_to_c() {
    let keys = ['a', 'w', 's', 'e', 'd', 'f', 't', 'g', 'y', 'h', 'u', 'j', 'k'];
    for (step, key) in keys.iter().enumerate() {
        assert_eq!(frequency_from_keycode(*key, 4), Some(3 + step as i64));
    }
    assert_eq!(frequency_from_keycode('a', 1), Some(-33));
    assert_eq!(frequency_from_keycode('h', 1), Some(-24));
    assert_eq!(frequency_from_keycode('k', 1), Some(-21));
    assert_eq!(frequency_from_keycode('h', 3), Some(0));
}

#[test]
fn other_keys_play_nothing() {
    for key in ['q', '8', '9', 'z', 'A', ' ', 'l', 'r', '\n'] {
        assert_eq!(frequency_from_keycode(key, 4), None);
    }
}

#[test]
fn keyboard_quits_on_q_and_shifts_octaves_on_8_and_9() {
    let mut keyboard = Keyboard::new();
    assert_eq!(keyboard.current_octave(), 1);
    assert_eq!(FIRST_OCTAVE, 1);
    assert_eq!(keyboard.press('a'), KeyAction::Play(-33));
    assert_eq!(keyboard.press('9'), KeyAction::Nothing);
    assert_eq!(keyboard.current_octave(), 2);
    assert_eq!(keyboard.press('a'), KeyAction::Play(-21));
    assert_eq!(keyboard.press('8'), KeyAction::Nothing);
    assert_eq!(keyboard.press('8'), KeyAction::Nothing);
    assert_eq!(keyboard.current_octave(), 0);
    assert_eq!(keyboard.press('h'), KeyAction::Play(-36));
    assert_eq!(keyboard.press('z'), KeyAction::Nothing);
    assert_eq!(keyboard.press('q'), KeyAction::Quit);
    assert_eq!(keyboard.current_octave(), 0);
}

#[test]
fn octave_counter_stops_at_its_limit() {
    let mut keyboard = Keyboard::new();
    for _ in 0..OCTAVE_LIMIT + 10 {
        keyboard.press('9');
    }
    assert_eq!(keyboard.current_octave(), OCTAVE_LIMIT);
    assert_eq!(keyboard.press('k'), KeyAction::Play((OCTAVE_LIMIT as i64 + 1 - 4) * 12 + 3));
    let mut keyboard = Keyboard::new();
    for _ in 0..OCTAVE_LIMIT + 10 {
        keyboard.press('8');
    }
    assert_eq!(keyboard.current_octave(), -OCTAVE_LIMIT);
}

#[test]
fn only_plain_presses_count() {
    let mut keyboard = Keyboard::new();
    let plain = KeyStroke { code: Some('a'), modifiers: 0, kind: KeyKind::Press, state: 0 };
    assert_eq!(keyboard.key_event(plain), KeyAction::Play(-33));
    let shifted = KeyStroke { modifiers: 1, ..plain };
    assert_eq!(keyboard.key_event(shifted), KeyAction::Nothing);
    let locked = KeyStroke { state: 8, ..plain };
    assert_eq!(keyboard.key_event(locked), KeyAction::Nothing);
    let repeated = KeyStroke { kind: KeyKind::Repeat, ..plain };
    assert_eq!(keyboard.key_event(repeated), KeyAction::Nothing);
    let released = KeyStroke { kind: KeyKind::Release, ..plain };
    assert_eq!(keyboard.key_event(released), KeyAction::Nothing);
    let arrow = KeyStroke { code: None, ..plain };
    assert_eq!(keyboard.key_event(arrow), KeyAction::Nothing);
    let quit = KeyStroke { code: Some('q'), ..plain };
    assert_eq!(keyboard.key_event(KeyStroke { modifiers: 2, ..quit }), KeyAction::Nothing);
    assert_eq!(keyboard.key_event(quit), KeyAction::Quit);
    let up = KeyStroke { code: Some('9'), ..plain };
    assert_eq!(keyboard.key_event(KeyStroke { kind: KeyKind::Release, ..up }), KeyAction::Nothing);
    assert_eq!(keyboard.current_octave(), 1);
    assert_eq!(keyboard.key_event(up), KeyAction::Nothing);
    assert_eq!(keyboard.current_octave(), 2);
}
