//! Note events, and the computer keyboard that plays them.
//!
//! A pitch is counted in equal-tempered semitones from the A of octave four
//! (440 Hz): twelve semitones double the frequency.

use vstd::prelude::*;

verus! {

/// What a player does to the one voice of the instrument.
#[derive(Clone, Copy, Debug, PartialEq, Eq, Structural)]
pub enum NoteEvent {
    /// A new note begins, at this frequency in millihertz.
    Press(u32),
    /// The note goes on unchanged.
    Hold,
    /// The note is let go.
    Up,
}

/// The octave that a keyboard starts in.
pub const FIRST_OCTAVE: i32 = 1;

/// The octave counter stops here, in both directions.
pub const OCTAVE_LIMIT: i32 = 16_777_216;

/// Semitones from the A of octave four to note `note` of octave `octave`,
/// where note 0 is A, 1 is A sharp, and so on up to 11, G sharp.
pub open spec fn semitones(octave: int, note: int) -> int {
    (octave - 4) * 12 + note
}

/// The note that a key plays within the octave of the keyboard, and whether
/// the key belongs to the octave above: the home row and the row over it laid
/// out as one octave of a piano from C up to the next C.
pub open spec fn key_note(c: char) -> Option<(int, bool)> {
    if c == 'a' {
        Some((3, false))
    } else if c == 'w' {
        Some((4, false))
    } else if c == 's' {
        Some((5, false))
    } else if c == 'e' {
        Some((6, false))
    } else if c == 'd' {
        Some((7, false))
    } else if c == 'f' {
        Some((8, false))
    } else if c == 't' {
        Some((9, false))
    } else if c == 'g' {
        Some((10, false))
    } else if c == 'y' {
        Some((11, false))
    } else if c == 'h' {
        Some((0, true))
    } else if c == 'u' {
        Some((1, true))
    } else if c == 'j' {
        Some((2, true))
    } else if c == 'k' {
        Some((3, true))
    } else {
        None
    }
}

/// The pitch of key `c` on a keyboard in octave `octave`, where the key plays.
pub open spec fn key_pitch(c: char, octave: int) -> Option<int> {
    match key_note(c) {
        Some((note, above)) => Some(semitones(if above { octave + 1 } else { octave }, note)),
        None => None,
    }
}

/// The pitch of note `note` in octave `octave`, in semitones from 440 Hz. Its
/// frequency is 440 Hz times two to the power of a twelfth of the pitch.
pub fn calc_frequency(octave: i32, note: u8) -> (pitch: i64)
    ensures
        pitch == semitones(octave as int, note as int),
{
    (octave as i64 - 4) * 12 + note as i64
}

/// The pitch that key `c` plays on a keyboard in octave `octave`, in semitones
/// from 440 Hz, or `None` for a key that plays no note.
pub fn frequency_from_keycode(c: char, octave: i32) -> (pitch: Option<i64>)
    ensures
        pitch matches Some(p) ==> key_pitch(c, octave as int) == Some(p as int),
        pitch is None ==> key_pitch(c, octave as int) is None,
{
    if c == 'a' {
        Some(calc_frequency(octave, 3))
    } else if c == 'w' {
        Some(calc_frequency(octave, 4))
    } else if c == 's' {
        Some(calc_frequency(octave, 5))
    } else if c == 'e' {
        Some(calc_frequency(octave, 6))
    } else if c == 'd' {
        Some(calc_frequency(octave, 7))
    } else if c == 'f' {
        Some(calc_frequency(octave, 8))
    } else if c == 't' {
        Some(calc_frequency(octave, 9))
    } else if c == 'g' {
        Some(calc_frequency(octave, 10))
    } else if c == 'y' {
        Some(calc_frequency(octave, 11))
    } else if c == 'h' {
        Some(calc_frequency(octave, 0) + 12)
    } else if c == 'u' {
        Some(calc_frequency(octave, 1) + 12)
    } else if c == 'j' {
        Some(calc_frequency(octave, 2) + 12)
    } else if c == 'k' {
        Some(calc_frequency(octave, 3) + 12)
    } else {
        None
    }
}

/// What a key press asks of the program.
#[derive(Clone, Copy, Debug, PartialEq, Eq, Structural)]
pub enum KeyAction {
    /// Leave the program.
    Quit,
    /// Send a press of this pitch, in semitones from 440 Hz.
    Play(i64),
    /// Send nothing.
    Nothing,
}

/// The octave one above `octave`, where the counter stops at its limit.
pub open spec fn octave_above(octave: int) -> int {
    if octave < OCTAVE_LIMIT {
        octave + 1
    } else {
        octave
    }
}

/// The octave one below `octave`, where the counter stops at its limit.
pub open spec fn octave_below(octave: int) -> int {
    if octave > -OCTAVE_LIMIT {
        octave - 1
    } else {
        octave
    }
}

/// The octave of the keyboard after key `c`: 9 shifts it up, 8 shifts it
/// down and no other key moves it.
pub open spec fn octave_after(c: char, octave: int) -> int {
    if c == '9' {
        octave_above(octave)
    } else if c == '8' {
        octave_below(octave)
    } else {
        octave
    }
}

/// What key `c` asks for on a keyboard in octave `octave`: q quits, the
/// octave keys send nothing, a playing key sends its pitch.
pub open spec fn key_action(c: char, octave: int) -> KeyAction {
    if c == 'q' {
        KeyAction::Quit
    } else if c == '9' || c == '8' {
        KeyAction::Nothing
    } else {
        match key_pitch(c, octave) {
            Some(pitch) => KeyAction::Play(pitch as i64),
            None => KeyAction::Nothing,
        }
    }
}

/// What was done to a key.
#[derive(Clone, Copy, Debug, PartialEq, Eq, Structural)]
pub enum KeyKind {
    Press,
    Repeat,
    Release,
}

/// One key event of the terminal.
#[derive(Clone, Copy, Debug, PartialEq, Eq)]
pub struct KeyStroke {
    /// The character of the key, or `None` for a key without one.
    pub code: Option<char>,
    /// The modifiers that were held, one bit for each, and 0 for none.
    pub modifiers: u8,
    /// What was done to the key.
    pub kind: KeyKind,
    /// The state of the keyboard, one bit for each lock, and 0 for none.
    pub state: u8,
}

/// The character that `stroke` asks with: that of a key of its own, pressed
/// with no modifier held and no state set. Nothing else counts.
pub open spec fn plain_key(stroke: KeyStroke) -> Option<char> {
    if stroke.modifiers == 0 && stroke.kind == KeyKind::Press && stroke.state == 0 {
        stroke.code
    } else {
        None
    }
}

/// The computer keyboard as an instrument: it remembers its octave.
pub struct Keyboard {
    current_octave: i32,
}

impl Keyboard {
    #[verifier::type_invariant]
    spec fn well_formed(self) -> bool {
        -OCTAVE_LIMIT <= self.current_octave <= OCTAVE_LIMIT
    }

    /// The octave that the keyboard is in.
    pub closed spec fn octave(self) -> int {
        self.current_octave as int
    }

    /// A keyboard in the first octave.
    pub fn new() -> (keyboard: Keyboard)
        ensures
            keyboard.octave() == FIRST_OCTAVE,
    {
        Keyboard { current_octave: FIRST_OCTAVE }
    }

    /// The octave that the keyboard is in.
    pub fn current_octave(&self) -> (octave: i32)
        ensures
            octave == self.octave(),
            -OCTAVE_LIMIT <= octave <= OCTAVE_LIMIT,
    {
        proof {
            use_type_invariant(self);
        }
        self.current_octave
    }

    /// Takes a key event and says what it asks for: what its character asks
    /// for where it is a plain press, and nothing otherwise.
    pub fn key_event(&mut self, stroke: KeyStroke) -> (action: KeyAction)
        ensures
            plain_key(stroke) matches Some(c) ==> action == key_action(c, old(self).octave())
                && final(self).octave() == octave_after(c, old(self).octave()),
            plain_key(stroke) is None ==> action == KeyAction::Nothing && final(self).octave()
                == old(self).octave(),
    {
        let plain: bool = stroke.modifiers == 0 && stroke.state == 0 && match stroke.kind {
            KeyKind::Press => true,
            _ => false,
        };
        match stroke.code {
            Some(c) => if plain {
                self.press(c)
            } else {
                KeyAction::Nothing
            },
            None => KeyAction::Nothing,
        }
    }

    /// Takes the press of key `c`, unmodified, and says what it asks for.
    pub fn press(&mut self, c: char) -> (action: KeyAction)
        ensures
            action == key_action(c, old(self).octave()),
            final(self).octave() == octave_after(c, old(self).octave()),
    {
        proof {
            use_type_invariant(&*self);
        }
        if c == 'q' {
            KeyAction::Quit
        } else if c == '9' {
            if self.current_octave < OCTAVE_LIMIT {
                self.current_octave = self.current_octave + 1;
            }
            KeyAction::Nothing
        } else if c == '8' {
            if self.current_octave > -OCTAVE_LIMIT {
                self.current_octave = self.current_octave - 1;
            }
            KeyAction::Nothing
        } else {
            match frequency_from_keycode(c, self.current_octave) {
                Some(pitch) => KeyAction::Play(pitch),
                None => KeyAction::Nothing,
            }
        }
    }
}

} // verus!
