//! The plain sawtooth oscillator: a ramp from -1.0 to 1.0 over each cycle,
//! with every harmonic that a ramp has, aliased or not.
//!
//! The channel carries frequencies in millihertz. A phase counts thousandths
//! of a sample period, as in the band-limited oscillator, but here it wraps
//! only once it has gone past the end of the cycle, so that it may rest on it.

use vstd::prelude::*;
use std::sync::mpsc::Receiver;
use std::time::Duration;
use crate::channel::try_receive;
use crate::fixed_point::{
    clamp, clamped, lemma_scale_bounded, lemma_trunc_div_bounds, lemma_trunc_div_monotone, scale,
    scale_amplitude, trunc_div, within_full_scale, FULL_SCALE,
};
use crate::saw_wave_oscilator_band_limited::{cycle, DECAY_FULL};

verus! {

/// `phase` brought back to the cycle by taking whole cycles off while it lies
/// past the end of one.
pub open spec fn wrapped(phase: nat, cycle: nat) -> nat
    recommends
        cycle > 0,
{
    if phase <= cycle {
        phase
    } else {
        ((phase - 1) as nat % cycle) + 1
    }
}

/// The height of the ramp at `phase`: twice the phase, as a part of the
/// cycle, less one.
pub open spec fn ramp(phase: nat, cycle: nat) -> int
    recommends
        cycle > 0,
{
    trunc_div((2 * phase - cycle) * FULL_SCALE, cycle as int)
}

/// The ramp stays within full scale over the whole cycle, its end included.
pub proof fn lemma_ramp_bounded(phase: nat, cycle: nat)
    requires
        cycle > 0,
        phase <= cycle,
    ensures
        within_full_scale(ramp(phase, cycle)),
{
    let span: int = 2 * phase - cycle;
    assert(-cycle * FULL_SCALE <= span * FULL_SCALE <= cycle * FULL_SCALE) by (nonlinear_arith)
        requires
            -cycle <= span <= cycle,
    ;
    lemma_trunc_div_monotone(span * FULL_SCALE, cycle * FULL_SCALE, cycle as int);
    lemma_trunc_div_monotone(-cycle * FULL_SCALE, span * FULL_SCALE, cycle as int);
    lemma_trunc_div_bounds(cycle * FULL_SCALE, cycle as int);
    lemma_trunc_div_bounds(-cycle * FULL_SCALE, cycle as int);
    assert(trunc_div(cycle * FULL_SCALE, cycle as int) == FULL_SCALE) by (nonlinear_arith)
        requires
            cycle > 0,
            trunc_div(cycle * FULL_SCALE, cycle as int) * cycle <= cycle * FULL_SCALE,
            cycle * FULL_SCALE < (trunc_div(cycle * FULL_SCALE, cycle as int) + 1) * cycle,
    ;
    assert(trunc_div(-cycle * FULL_SCALE, cycle as int) == -FULL_SCALE) by (nonlinear_arith)
        requires
            cycle > 0,
            (trunc_div(-cycle * FULL_SCALE, cycle as int) - 1) * cycle < -cycle * FULL_SCALE,
            -cycle * FULL_SCALE <= trunc_div(-cycle * FULL_SCALE, cycle as int) * cycle,
    ;
}

/// What the plain oscillator remembers from tick to tick.
pub struct SawState {
    /// Samples per second.
    pub sample_rate: nat,
    /// The frequency of the note, in millihertz.
    pub frequency: nat,
    /// The place in the cycle, out of `cycle(sample_rate)`, which it may reach.
    pub phase: nat,
    /// The decay amplitude, out of `DECAY_FULL`.
    pub amplitude: int,
}

impl SawState {
    /// An oscillator that has not sounded yet.
    pub open spec fn silent(sample_rate: nat) -> SawState {
        SawState { sample_rate, frequency: 0, phase: 0, amplitude: 0 }
    }

    /// The sample rate is positive, the phase lies within one cycle or on its
    /// end and the decay amplitude between nothing and full.
    pub open spec fn wf(self) -> bool {
        &&& self.sample_rate > 0
        &&& self.phase <= cycle(self.sample_rate)
        &&& 0 <= self.amplitude <= DECAY_FULL
    }

    /// The state after one tick in which `frequency` was taken off the
    /// channel. A frequency restores the decay amplitude and replaces the
    /// one before. Then the phase moves on by one sample, wrapped into the
    /// cycle, and the decay amplitude falls by one step, not below zero.
    pub open spec fn tick(self, frequency: Option<u32>) -> SawState {
        let current: nat = match frequency {
            Some(f) => f as nat,
            None => self.frequency,
        };
        let restored: int = if frequency is Some { DECAY_FULL as int } else { self.amplitude };
        SawState {
            sample_rate: self.sample_rate,
            frequency: current,
            phase: wrapped(self.phase + current, cycle(self.sample_rate)),
            amplitude: clamped(restored - 1, 0, DECAY_FULL as int),
        }
    }

    /// The sample that the oscillator puts out in this state: the ramp at the
    /// phase, times the decay amplitude.
    pub open spec fn sample(self) -> int {
        scale(ramp(self.phase, cycle(self.sample_rate)), self.amplitude, DECAY_FULL as int)
    }
}

/// Each tick leaves the plain oscillator well formed and puts out a sample
/// within full scale.
pub proof fn lemma_saw_tick(state: SawState, frequency: Option<u32>)
    requires
        state.wf(),
    ensures
        state.tick(frequency).wf(),
        within_full_scale(state.tick(frequency).sample()),
{
    let next = state.tick(frequency);
    lemma_ramp_bounded(next.phase, cycle(next.sample_rate));
    lemma_scale_bounded(
        ramp(next.phase, cycle(next.sample_rate)),
        next.amplitude,
        DECAY_FULL as int,
    );
}

/// The plain sawtooth oscillator, fed by a channel of frequencies.
pub struct SawWaveOscilator {
    sample_rate: u32,
    receiver: Receiver<u32>,
    amplitude: i32,
    current_frequency: u32,
    phase: u64,
}

impl View for SawWaveOscilator {
    type V = SawState;

    closed spec fn view(&self) -> SawState {
        SawState {
            sample_rate: self.sample_rate as nat,
            frequency: self.current_frequency as nat,
            phase: self.phase as nat,
            amplitude: self.amplitude as int,
        }
    }
}

impl SawWaveOscilator {
    #[verifier::type_invariant]
    spec fn well_formed(self) -> bool {
        self@.wf()
    }

    /// A silent oscillator at `sample_rate` samples per second that takes its
    /// frequencies from `receiver`.
    pub fn new(sample_rate: u32, receiver: Receiver<u32>) -> (oscillator: SawWaveOscilator)
        requires
            sample_rate > 0,
        ensures
            oscillator@ == SawState::silent(sample_rate as nat),
            oscillator@.wf(),
    {
        SawWaveOscilator { sample_rate, receiver, amplitude: 0, current_frequency: 0, phase: 0 }
    }

    fn set_frequency(&mut self, frequency: u32)
        ensures
            final(self)@ == (SawState { frequency: frequency as nat, ..old(self)@ }),
    {
        proof {
            use_type_invariant(&*self);
        }
        if frequency != self.current_frequency {
            self.current_frequency = frequency;
        }
    }

    /// One tick in which `frequency` was taken off the channel, and its
    /// sample.
    pub fn tick(&mut self, frequency: Option<u32>) -> (sample: i64)
        ensures
            final(self)@ == old(self)@.tick(frequency),
            final(self)@.wf(),
            sample == final(self)@.sample(),
            within_full_scale(sample as int),
    {
        proof {
            use_type_invariant(&*self);
            lemma_saw_tick(self@, frequency);
        }
        let mut restored: i32 = self.amplitude;
        match frequency {
            Some(f) => {
                restored = DECAY_FULL;
                self.set_frequency(f);
            },
            None => {},
        }
        let cycle: u64 = 1000 * (self.sample_rate as u64);
        let moved: u64 = self.phase + self.current_frequency as u64;
        let phase: u64 = if moved > cycle {
            (moved - 1) % cycle + 1
        } else {
            moved
        };
        self.phase = phase;
        self.amplitude = clamp(restored - 1, 0, DECAY_FULL);
        proof {
            lemma_ramp_bounded(phase as nat, cycle as nat);
            assert(-0x400_0000_0000 * FULL_SCALE <= (2 * phase - cycle) * FULL_SCALE
                <= 0x400_0000_0000 * FULL_SCALE) by (nonlinear_arith)
                requires
                    -0x400_0000_0000 <= 2 * phase - cycle <= 0x400_0000_0000,
            ;
        }
        let span: i128 = 2 * (phase as i128) - (cycle as i128);
        let height: i64 = ((span * (FULL_SCALE as i128)) / (cycle as i128)) as i64;
        scale_amplitude(height, self.amplitude as u32, DECAY_FULL as u32)
    }

    /// One tick, with the frequency that waits on the channel, if one does,
    /// and its sample. At most one frequency is taken, however many wait.
    pub fn get_sample(&mut self) -> (sample: i64)
        ensures
            exists|frequency: Option<u32>| final(self)@ == #[trigger] old(self)@.tick(frequency),
            final(self)@.wf(),
            sample == final(self)@.sample(),
            within_full_scale(sample as int),
    {
        let frequency = try_receive(&self.receiver);
        self.tick(frequency)
    }

    /// The next sample. The stream never ends.
    pub fn next(&mut self) -> (sample: Option<i64>)
        ensures
            exists|frequency: Option<u32>| final(self)@ == #[trigger] old(self)@.tick(frequency),
            final(self)@.wf(),
            sample == Some(final(self)@.sample() as i64),
    {
        Some(self.get_sample())
    }

    /// The frequency of the note, in millihertz.
    pub fn current_frequency(&self) -> (frequency: u32)
        ensures
            frequency == self@.frequency,
    {
        self.current_frequency
    }

    /// The place in the cycle, out of a thousand times the sample rate.
    pub fn phase(&self) -> (phase: u64)
        ensures
            phase == self@.phase,
            phase <= cycle(self@.sample_rate),
    {
        proof {
            use_type_invariant(self);
        }
        self.phase
    }

    /// The decay amplitude, out of `DECAY_FULL`.
    pub fn amplitude(&self) -> (amplitude: i32)
        ensures
            amplitude == self@.amplitude,
            0 <= amplitude <= DECAY_FULL,
    {
        proof {
            use_type_invariant(self);
        }
        self.amplitude
    }

    /// The number of channels: one.
    pub fn channels(&self) -> (count: u16)
        ensures
            count == 1,
    {
        1
    }

    /// Samples per second, as given at construction.
    pub fn sample_rate(&self) -> (rate: u32)
        ensures
            rate == self@.sample_rate,
    {
        self.sample_rate
    }

    /// The length of the current frame: unknown, the stream goes on.
    pub fn current_frame_len(&self) -> (length: Option<usize>)
        ensures
            length is None,
    {
        None
    }

    /// The duration of the whole stream: unknown, the stream goes on.
    pub fn total_duration(&self) -> (duration: Option<Duration>)
        ensures
            duration is None,
    {
        None
    }
}

} // verus!
