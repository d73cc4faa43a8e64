//! The wavetable oscillator: one cycle of a waveform in a table, read at the
//! speed of the note and interpolated between neighbouring entries.
//!
//! The channel carries frequencies in millihertz. The index into the table
//! counts thousandths of a sample period per entry: an entry is as wide as
//! `cycle(sample_rate)`, and one tick moves the index on by the frequency
//! times the length of the table.

use vstd::prelude::*;
use std::sync::mpsc::Receiver;
use std::time::Duration;
use crate::channel::try_receive;
use crate::fixed_point::{
    clamp, clamped, lemma_scale_ends, lemma_trunc_div_monotone, scale, scale_amplitude,
    trunc_div, FULL_SCALE,
};
use crate::saw_wave_oscilator_band_limited::{cycle, DECAY_FULL};

verus! {

/// The lesser of two amplitudes.
pub open spec fn lower(a: int, b: int) -> int {
    if a <= b {
        a
    } else {
        b
    }
}

/// The greater of two amplitudes.
pub open spec fn upper(a: int, b: int) -> int {
    if a <= b {
        b
    } else {
        a
    }
}

/// The value of `table` at `index`, read as a whole entry and a fraction of
/// `width`: the entry and the one after it, which is the first after the
/// last, weighted by how near the index lies to each.
pub open spec fn interpolated(table: Seq<i64>, index: nat, width: nat) -> int
    recommends
        width > 0,
        index < table.len() * width,
{
    let truncated_index: int = (index / width) as int;
    let next_index: int = (truncated_index + 1) % (table.len() as int);
    let next_index_weight: int = (index % width) as int;
    let truncated_index_weight: int = width - next_index_weight;
    trunc_div(
        truncated_index_weight * table[truncated_index] + next_index_weight * table[next_index],
        width as int,
    )
}

/// Entry `n` of a square wave of `length` entries: full scale up in the first
/// half and full scale down in the second.
pub open spec fn square_wave(n: int, length: int) -> int {
    if 2 * n < length {
        FULL_SCALE as int
    } else {
        -FULL_SCALE
    }
}

/// An index within the table splits into an entry of the table and a
/// fraction of its width.
pub proof fn lemma_index_splits(index: nat, length: nat, width: nat)
    requires
        width > 0,
        index < length * width,
    ensures
        0 <= index / width < length,
        0 <= index % width < width,
        0 <= ((index / width) as int + 1) % (length as int) < length,
{
    assert(0 <= index / width < length && 0 <= index % width < width) by (nonlinear_arith)
        requires
            width > 0,
            0 <= index < length * width,
    ;
}

/// A value read between two entries lies between them.
pub proof fn lemma_interpolated_between(a: int, b: int, weight: int, width: int)
    requires
        width > 0,
        0 <= weight < width,
    ensures
        lower(a, b) <= trunc_div((width - weight) * a + weight * b, width) <= upper(a, b),
{
    let low: int = lower(a, b);
    let high: int = upper(a, b);
    let mixed: int = (width - weight) * a + weight * b;
    assert(low * width <= mixed <= high * width) by (nonlinear_arith)
        requires
            mixed == (width - weight) * a + weight * b,
            0 <= weight < width,
            low <= a <= high,
            low <= b <= high,
    ;
    lemma_trunc_div_monotone(low * width, mixed, width);
    lemma_trunc_div_monotone(mixed, high * width, width);
    lemma_scale_ends(low, width);
    lemma_scale_ends(high, width);
}

/// What the wavetable oscillator remembers from tick to tick.
pub struct WavetableState {
    /// Samples per second.
    pub sample_rate: nat,
    /// One cycle of the waveform.
    pub wave_table: Seq<i64>,
    /// The place in the table, `cycle(sample_rate)` to an entry.
    pub index: nat,
    /// How far the index moves in one tick.
    pub index_increment: nat,
    /// The decay amplitude, out of `DECAY_FULL`.
    pub amplitude: int,
    /// The frequency of the note, in millihertz.
    pub frequency: nat,
}

impl WavetableState {
    /// An oscillator over `wave_table` that has not sounded yet.
    pub open spec fn silent(sample_rate: nat, wave_table: Seq<i64>) -> WavetableState {
        WavetableState {
            sample_rate,
            wave_table,
            index: 0,
            index_increment: 0,
            amplitude: 0,
            frequency: 0,
        }
    }

    /// The sample rate is positive, the table has an entry, the index lies
    /// within the table, the increment is that of the frequency and the
    /// decay amplitude lies between nothing and full.
    pub open spec fn wf(self) -> bool {
        &&& self.sample_rate > 0
        &&& self.wave_table.len() > 0
        &&& self.index < self.wave_table.len() * cycle(self.sample_rate)
        &&& self.index_increment == self.frequency * self.wave_table.len()
        &&& 0 <= self.amplitude <= DECAY_FULL
    }

    /// The value of the table at the index.
    pub open spec fn lerp(self) -> int {
        interpolated(self.wave_table, self.index, cycle(self.sample_rate))
    }

    /// The decay amplitude once `frequency` was taken off the channel: a
    /// frequency restores it.
    pub open spec fn restored(self, frequency: Option<u32>) -> int {
        if frequency is Some {
            DECAY_FULL as int
        } else {
            self.amplitude
        }
    }

    /// The sample of a tick in which `frequency` was taken off the channel:
    /// the value of the table where the index stood, times the decay
    /// amplitude before it falls.
    pub open spec fn sample(self, frequency: Option<u32>) -> int {
        scale(self.lerp(), self.restored(frequency), DECAY_FULL as int)
    }

    /// The state after one tick in which `frequency` was taken off the
    /// channel. A frequency replaces the one before, and the increment goes
    /// with it. Then the index moves on by the increment, wrapped into the
    /// table, and the decay amplitude falls by one step, not below zero.
    pub open spec fn tick(self, frequency: Option<u32>) -> WavetableState {
        let current: nat = match frequency {
            Some(f) => f as nat,
            None => self.frequency,
        };
        let index_increment: nat = current * self.wave_table.len();
        WavetableState {
            sample_rate: self.sample_rate,
            wave_table: self.wave_table,
            index: (self.index + index_increment) % (self.wave_table.len() * cycle(
                self.sample_rate,
            )),
            index_increment,
            amplitude: clamped(self.restored(frequency) - 1, 0, DECAY_FULL as int),
            frequency: current,
        }
    }
}

/// Each tick leaves the wavetable oscillator well formed.
pub proof fn lemma_wavetable_tick(state: WavetableState, frequency: Option<u32>)
    requires
        state.wf(),
    ensures
        state.tick(frequency).wf(),
{
    let length: nat = state.wave_table.len();
    let width: nat = cycle(state.sample_rate);
    assert(length * width > 0) by (nonlinear_arith)
        requires
            length > 0,
            width > 0,
    ;
}

/// The wavetable oscillator, fed by a channel of frequencies.
pub struct WavetableOscillator {
    sample_rate: u32,
    wave_table: Vec<i64>,
    index: u128,
    index_increment: u128,
    receiver: Receiver<u32>,
    amplitude: i32,
    current_frequency: u32,
}

impl View for WavetableOscillator {
    type V = WavetableState;

    closed spec fn view(&self) -> WavetableState {
        WavetableState {
            sample_rate: self.sample_rate as nat,
            wave_table: self.wave_table@,
            index: self.index as nat,
            index_increment: self.index_increment as nat,
            amplitude: self.amplitude as int,
            frequency: self.current_frequency as nat,
        }
    }
}

impl WavetableOscillator {
    #[verifier::type_invariant]
    spec fn well_formed(self) -> bool {
        self@.wf()
    }

    /// A silent oscillator over one cycle of a square wave in 64 entries.
    pub fn new_sinwave(sample_rate: u32, receiver: Receiver<u32>) -> (oscillator:
        WavetableOscillator)
        requires
            sample_rate > 0,
        ensures
            oscillator@.wf(),
            oscillator@ == WavetableState::silent(sample_rate as nat, oscillator@.wave_table),
            oscillator@.wave_table.len() == 64,
            forall|n: int|
                0 <= n < 64 ==> #[trigger] oscillator@.wave_table[n] == square_wave(n, 64),
    {
        let wave_table_size: usize = 64;
        let mut wave_table: Vec<i64> = Vec::with_capacity(wave_table_size);
        let mut n: usize = 0;
        while n < wave_table_size
            invariant
                wave_table_size == 64,
                n <= wave_table_size,
                wave_table@.len() == n,
                forall|k: int| 0 <= k < n ==> #[trigger] wave_table@[k] == square_wave(k, 64),
            decreases wave_table_size - n,
        {
            let whole: i64 = (n / wave_table_size) as i64;
            let half: i64 = (2 * n / wave_table_size) as i64;
            let sample: i64 = (2 * (2 * whole - half) + 1) * FULL_SCALE;
            wave_table.push(sample);
            n = n + 1;
        }
        WavetableOscillator::new(sample_rate, wave_table, receiver)
    }

    /// A silent oscillator at `sample_rate` samples per second over
    /// `wave_table`, one cycle of a waveform, that takes its frequencies from
    /// `receiver`.
    pub fn new(sample_rate: u32, wave_table: Vec<i64>, receiver: Receiver<u32>) -> (oscillator:
        WavetableOscillator)
        requires
            sample_rate > 0,
            wave_table@.len() > 0,
        ensures
            oscillator@ == WavetableState::silent(sample_rate as nat, wave_table@),
            oscillator@.wf(),
    {
        proof {
            assert(wave_table@.len() * cycle(sample_rate as nat) > 0) by (nonlinear_arith)
                requires
                    wave_table@.len() > 0,
                    cycle(sample_rate as nat) > 0,
            ;
        }
        WavetableOscillator {
            sample_rate,
            wave_table,
            index: 0,
            index_increment: 0,
            receiver,
            amplitude: 0,
            current_frequency: 0,
        }
    }

    fn set_frequency(&mut self, frequency: u32)
        ensures
            final(self)@ == (WavetableState {
                frequency: frequency as nat,
                index_increment: frequency as nat * old(self)@.wave_table.len(),
                ..old(self)@
            }),
    {
        let length: usize = self.wave_table.len();
        proof {
            use_type_invariant(&*self);
        }
        if frequency != self.current_frequency {
            retune(&mut self.current_frequency, &mut self.index_increment, frequency, length);
        }
    }

    /// One tick in which `frequency` was taken off the channel, and its
    /// sample.
    pub fn tick(&mut self, frequency: Option<u32>) -> (sample: i64)
        ensures
            final(self)@ == old(self)@.tick(frequency),
            final(self)@.wf(),
            sample == old(self)@.sample(frequency),
    {
        proof {
            use_type_invariant(&*self);
            lemma_wavetable_tick(self@, frequency);
        }
        let mut restored: i32 = self.amplitude;
        match frequency {
            Some(f) => {
                restored = DECAY_FULL;
                self.set_frequency(f);
            },
            None => {},
        }
        let sample: i64 = scale_amplitude(self.lerp(), restored as u32, DECAY_FULL as u32);
        let cycle: u128 = 1000 * (self.sample_rate as u128);
        let length: u128 = self.wave_table.len() as u128;
        proof {
            assert(0 < length * cycle <= 0x1_0000_0000_0000_0000 * 0x400_0000_0000)
                by (nonlinear_arith)
                requires
                    0 < length <= 0x1_0000_0000_0000_0000,
                    0 < cycle <= 0x400_0000_0000,
            ;
            assert(0 <= (self.current_frequency as int) * length <= 0x1_0000_0000
                * 0x1_0000_0000_0000_0000) by (nonlinear_arith)
                requires
                    0 <= self.current_frequency as int <= 0x1_0000_0000,
                    0 <= length <= 0x1_0000_0000_0000_0000,
            ;
        }
        self.index = (self.index + self.index_increment) % (length * cycle);
        self.amplitude = clamp(restored - 1, 0, DECAY_FULL);
        sample
    }

    /// One tick, with the frequency that waits on the channel, if one does,
    /// and its sample. At most one frequency is taken, however many wait.
    pub fn get_sample(&mut self) -> (sample: i64)
        ensures
            exists|frequency: Option<u32>|
                {
                    &&& final(self)@ == #[trigger] old(self)@.tick(frequency)
                    &&& sample == old(self)@.sample(frequency)
                },
            final(self)@.wf(),
    {
        let frequency = try_receive(&self.receiver);
        self.tick(frequency)
    }

    /// The value of the table where the index stands, read between the entry
    /// under the index and the one after it.
    pub fn lerp(&self) -> (value: i64)
        ensures
            value == self@.lerp(),
    {
        let cycle: u128 = 1000 * (self.sample_rate as u128);
        let length: usize = self.wave_table.len();
        proof {
            use_type_invariant(self);
            lemma_index_splits(self@.index, length as nat, cycle as nat);
        }
        let truncated_index: usize = (self.index / cycle) as usize;
        let next_index: usize = (truncated_index + 1) % length;
        let next_index_weight: i128 = (self.index % cycle) as i128;
        let truncated_index_weight: i128 = cycle as i128 - next_index_weight;
        let first: i128 = self.wave_table[truncated_index] as i128;
        let second: i128 = self.wave_table[next_index] as i128;
        proof {
            lemma_interpolated_between(
                first as int,
                second as int,
                next_index_weight as int,
                cycle as int,
            );
            assert(-0x400_0000_0000 * 0x8000_0000_0000_0000 <= truncated_index_weight * first
                <= 0x400_0000_0000 * 0x8000_0000_0000_0000) by (nonlinear_arith)
                requires
                    0 <= truncated_index_weight <= 0x400_0000_0000,
                    -0x8000_0000_0000_0000 <= first <= 0x8000_0000_0000_0000,
            ;
            assert(-0x400_0000_0000 * 0x8000_0000_0000_0000 <= next_index_weight * second
                <= 0x400_0000_0000 * 0x8000_0000_0000_0000) by (nonlinear_arith)
                requires
                    0 <= next_index_weight <= 0x400_0000_0000,
                    -0x8000_0000_0000_0000 <= second <= 0x8000_0000_0000_0000,
            ;
        }
        let mixed: i128 = truncated_index_weight * first + next_index_weight * second;
        (mixed / (cycle as i128)) as i64
    }

    /// The next sample. The stream never ends.
    pub fn next(&mut self) -> (sample: Option<i64>)
        ensures
            exists|frequency: Option<u32>|
                {
                    &&& final(self)@ == #[trigger] old(self)@.tick(frequency)
                    &&& sample == Some(old(self)@.sample(frequency) as i64)
                },
            final(self)@.wf(),
    {
        Some(self.get_sample())
    }

    /// The frequency of the note, in millihertz.
    pub fn current_frequency(&self) -> (frequency: u32)
        ensures
            frequency == self@.frequency,
    {
        self.current_frequency
    }

    /// The place in the table, a thousand times the sample rate to an entry.
    pub fn index(&self) -> (index: u128)
        ensures
            index == self@.index,
            index < self@.wave_table.len() * cycle(self@.sample_rate),
    {
        proof {
            use_type_invariant(self);
        }
        self.index
    }

    /// The decay amplitude, out of `DECAY_FULL`.
    pub fn amplitude(&self) -> (amplitude: i32)
        ensures
            amplitude == self@.amplitude,
            0 <= amplitude <= DECAY_FULL,
    {
        proof {
            use_type_invariant(self);
        }
        self.amplitude
    }

    /// The number of channels: one.
    pub fn channels(&self) -> (count: u16)
        ensures
            count == 1,
    {
        1
    }

    /// Samples per second, as given at construction.
    pub fn sample_rate(&self) -> (rate: u32)
        ensures
            rate == self@.sample_rate,
    {
        self.sample_rate
    }

    /// The length of the current frame: unknown, the stream goes on.
    pub fn current_frame_len(&self) -> (length: Option<usize>)
        ensures
            length is None,
    {
        None
    }

    /// The duration of the whole stream: unknown, the stream goes on.
    pub fn total_duration(&self) -> (duration: Option<Duration>)
        ensures
            duration is None,
    {
        None
    }
}

/// Sets a frequency and the increment that goes with it for a table of
/// `length` entries, in one step.
fn retune(current_frequency: &mut u32, index_increment: &mut u128, frequency: u32, length: usize)
    ensures
        *final(current_frequency) == frequency,
        *final(index_increment) == frequency * length,
    no_unwind
{
    proof {
        assert(0 <= (frequency as int) * (length as int) <= 0x1_0000_0000
            * 0x1_0000_0000_0000_0000) by (nonlinear_arith)
            requires
                0 <= frequency as int <= 0x1_0000_0000,
                0 <= length as int <= 0x1_0000_0000_0000_0000,
        ;
    }
    *index_increment = (frequency as u128) * (length as u128);
    *current_frequency = frequency;
}

} // verus!
