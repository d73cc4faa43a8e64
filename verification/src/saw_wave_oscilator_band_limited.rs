//! The band-limited sawtooth oscillator.
//!
//! Each tick takes at most one note event, moves the phase on by one sample
//! and lets the decay amplitude fall by one step. The sample of a tick is the
//! sum of the harmonics that fit under the Nyquist frequency, each a sine
//! divided by its number, scaled by 2/pi and by the decay amplitude.
//!
//! Frequencies are in millihertz. A phase counts thousandths of a sample
//! period, so that one cycle is a thousand times the sample rate and one tick
//! moves the phase on by the frequency.

use std::sync::mpsc::Receiver;
use std::time::Duration;
use vstd::arithmetic::div_mod::{lemma_add_mod_noop, lemma_mod_twice};
use vstd::arithmetic::power2::{
    lemma2_to64, lemma2_to64_rest, lemma_pow2_pos, lemma_pow2_strictly_increases,
    lemma_pow2_unfold, pow2,
};
use vstd::prelude::*;
use crate::channel::try_receive;
use crate::fixed_point::{
    clamp, clamped, lemma_scale_bounded, lemma_trunc_div_bounds, lemma_trunc_div_monotone, scale,
    scale_amplitude, trunc_div, within_full_scale, FULL_SCALE,
};
use crate::music_data::MusicData;
use crate::musical_keyboard::NoteEvent;

verus! {

/// The decay amplitude that stands for 1.0. One tick takes 1 away.
pub const DECAY_FULL: i32 = 100_000;

/// Pi, in billionths.
pub const PI: i64 = 3_141_592_654;

/// Phase units in one cycle at `sample_rate`.
pub open spec fn cycle(sample_rate: nat) -> nat {
    1000 * sample_rate
}

/// The Nyquist frequency at `sample_rate`, half of it, in millihertz.
pub open spec fn nyquist(sample_rate: nat) -> nat {
    500 * sample_rate
}

/// How often a positive `frequency` is doubled until it is no longer below
/// `limit`.
pub open spec fn doublings(frequency: nat, limit: nat) -> nat
    decreases (if frequency < limit { limit - frequency } else { 0 }),
{
    if 0 < frequency < limit {
        1 + doublings(2 * frequency, limit)
    } else {
        0
    }
}

/// The harmonic count of `frequency` at `sample_rate`: the doublings that
/// take it to the Nyquist frequency or beyond, and none for no frequency.
pub open spec fn harmonic_count(frequency: nat, sample_rate: nat) -> nat {
    doublings(frequency, nyquist(sample_rate))
}

/// The count of doublings is the least power of two that lifts a positive
/// frequency to the limit: that many doublings reach it and one fewer do not.
pub proof fn lemma_doublings_least(frequency: nat, limit: nat)
    requires
        frequency > 0,
    ensures
        frequency * pow2(doublings(frequency, limit)) >= limit,
        doublings(frequency, limit) > 0 ==> frequency * pow2(
            (doublings(frequency, limit) - 1) as nat,
        ) < limit,
    decreases (if frequency < limit { limit - frequency } else { 0 }),
{
    lemma2_to64();
    let count: nat = doublings(frequency, limit);
    if frequency < limit {
        let rest: nat = doublings(2 * frequency, limit);
        assert(count == rest + 1);
        lemma_doublings_least(2 * frequency, limit);
        lemma_pow2_unfold(count);
        assert(pow2(count) == 2 * pow2(rest));
        assert(frequency * (2 * pow2(rest)) == (2 * frequency) * pow2(rest)) by (nonlinear_arith);
        if rest > 0 {
            let below: nat = (rest - 1) as nat;
            lemma_pow2_unfold(rest);
            assert(pow2(rest) == 2 * pow2(below));
            assert(frequency * (2 * pow2(below)) == (2 * frequency) * pow2(below))
                by (nonlinear_arith);
        } else {
            assert(frequency * 1 == frequency) by (nonlinear_arith);
        }
    } else {
        assert(count == 0);
        assert(frequency * 1 == frequency) by (nonlinear_arith);
    }
}

/// No frequency has more than 41 harmonics at a sample rate of 32 bits.
pub proof fn lemma_harmonic_count_small(frequency: nat, sample_rate: nat)
    requires
        sample_rate <= u32::MAX,
    ensures
        harmonic_count(frequency, sample_rate) <= 41,
{
    let limit: nat = nyquist(sample_rate);
    let count: nat = doublings(frequency, limit);
    if count > 0 {
        lemma_doublings_least(frequency, limit);
        let below: nat = (count - 1) as nat;
        lemma_pow2_pos(below);
        assert(pow2(below) <= frequency * pow2(below)) by (nonlinear_arith)
            requires
                frequency >= 1,
                pow2(below) > 0,
        ;
        lemma2_to64();
        lemma2_to64_rest();
        if below >= 41 {
            if below > 41 {
                lemma_pow2_strictly_increases(41, below);
            }
            assert(false);
        }
    }
}

/// A higher frequency has no more harmonics, and a higher limit no fewer.
pub proof fn lemma_doublings_monotone(low: nat, high: nat, limit: nat, wider: nat)
    requires
        0 < low <= high,
        limit <= wider,
    ensures
        doublings(high, limit) <= doublings(low, limit),
        doublings(low, limit) <= doublings(low, wider),
    decreases (if low < wider { wider - low } else { 0 }),
{
    if low < limit {
        lemma_doublings_monotone(2 * low, 2 * high, limit, wider);
    }
}

/// Counts the harmonics of `frequency` at `sample_rate` by doubling: none for
/// no frequency, else the least count of doublings that lifts the frequency
/// to the Nyquist frequency.
pub fn number_of_harmonics(frequency: u32, sample_rate: u32) -> (count: u32)
    ensures
        count == harmonic_count(frequency as nat, sample_rate as nat),
        count <= 41,
        frequency == 0 ==> count == 0,
        frequency > 0 ==> frequency * pow2(count as nat) >= nyquist(sample_rate as nat),
        frequency > 0 && count > 0 ==> frequency * pow2((count - 1) as nat) < nyquist(
            sample_rate as nat,
        ),
{
    let limit: u64 = 500 * (sample_rate as u64);
    let mut count: u32 = 0;
    proof {
        lemma_harmonic_count_small(frequency as nat, sample_rate as nat);
        if frequency > 0 {
            lemma_doublings_least(frequency as nat, nyquist(sample_rate as nat));
        }
    }
    if frequency != 0 {
        let mut temporary_frequency: u64 = frequency as u64;
        while temporary_frequency < limit
            invariant
                0 < temporary_frequency,
                limit == nyquist(sample_rate as nat),
                limit < 0x200_0000_0000,
                count + doublings(temporary_frequency as nat, limit as nat) == doublings(
                    frequency as nat,
                    limit as nat,
                ),
                doublings(frequency as nat, limit as nat) <= 41,
            decreases (if temporary_frequency < limit { limit - temporary_frequency } else { 0 }),
        {
            count = count + 1;
            temporary_frequency = temporary_frequency * 2;
        }
    }
    count
}

/// What the oscillator remembers from tick to tick.
pub struct OscillatorState {
    /// Samples per second.
    pub sample_rate: nat,
    /// The frequency of the note, in millihertz.
    pub frequency: nat,
    /// The place in the cycle, out of `cycle(sample_rate)`.
    pub phase: nat,
    /// The decay amplitude, out of `DECAY_FULL`.
    pub amplitude: int,
    /// The event taken in the latest tick, if one was.
    pub current_event: Option<NoteEvent>,
}

/// The sum of the harmonics whose sines are `sines`, the first harmonic first:
/// each sine divided by the number of its harmonic.
pub open spec fn harmonic_sum(sines: Seq<i64>) -> int
    decreases sines.len(),
{
    if sines.len() == 0 {
        0
    } else {
        harmonic_sum(sines.drop_last()) + trunc_div(sines.last() as int, sines.len() as int)
    }
}

/// `sum` times 2/pi, the scale of the Fourier series of a sawtooth.
pub open spec fn normalized(sum: int) -> int {
    scale(sum, 2 * FULL_SCALE, PI as int)
}

/// Whether every sine in `sines` lies within full scale.
pub open spec fn sines_within_full_scale(sines: Seq<i64>) -> bool {
    forall|i: int| 0 <= i < sines.len() ==> within_full_scale(#[trigger] sines[i] as int)
}

/// A sum of harmonics is at most full scale for each of them.
pub proof fn lemma_harmonic_sum_bounded(sines: Seq<i64>)
    requires
        sines_within_full_scale(sines),
    ensures
        -sines.len() * FULL_SCALE <= harmonic_sum(sines) <= sines.len() * FULL_SCALE,
    decreases sines.len(),
{
    if sines.len() > 0 {
        let front: Seq<i64> = sines.drop_last();
        assert forall|i: int| 0 <= i < front.len() implies within_full_scale(
            #[trigger] front[i] as int,
        ) by {
            assert(front[i] == sines[i]);
        }
        lemma_harmonic_sum_bounded(front);
        lemma_trunc_div_bounds(sines.last() as int, sines.len() as int);
        assert(within_full_scale(sines[sines.len() - 1] as int));
    }
}

/// The sawtooth before the decay is at most 2/pi for each harmonic summed,
/// which are fewer than the harmonic count.
pub proof fn lemma_sawtooth_bounded(sines: Seq<i64>)
    requires
        sines_within_full_scale(sines),
    ensures
        normalized(-sines.len() * FULL_SCALE) <= normalized(harmonic_sum(sines)) <= normalized(
            sines.len() * FULL_SCALE,
        ),
{
    lemma_harmonic_sum_bounded(sines);
    let sum: int = harmonic_sum(sines);
    let most: int = sines.len() * FULL_SCALE;
    assert((-most) * (2 * FULL_SCALE) <= sum * (2 * FULL_SCALE) <= most * (2 * FULL_SCALE))
        by (nonlinear_arith)
        requires
            -most <= sum <= most,
    ;
    assert(-sines.len() * FULL_SCALE == -most) by (nonlinear_arith)
        requires
            most == sines.len() * FULL_SCALE,
    ;
    lemma_trunc_div_monotone(sum * (2 * FULL_SCALE), most * (2 * FULL_SCALE), PI as int);
    lemma_trunc_div_monotone((-most) * (2 * FULL_SCALE), sum * (2 * FULL_SCALE), PI as int);
}

impl OscillatorState {
    /// An oscillator that has not sounded yet.
    pub open spec fn silent(sample_rate: nat) -> OscillatorState {
        OscillatorState { sample_rate, frequency: 0, phase: 0, amplitude: 0, current_event: None }
    }

    /// The sample rate is positive, the phase lies within one cycle and the
    /// decay amplitude between nothing and full.
    pub open spec fn wf(self) -> bool {
        &&& self.sample_rate > 0
        &&& self.phase < cycle(self.sample_rate)
        &&& 0 <= self.amplitude <= DECAY_FULL
    }

    /// The frequency after `event`: that of a press, else the one before.
    pub open spec fn frequency_after(self, event: Option<NoteEvent>) -> nat {
        match event {
            Some(NoteEvent::Press(frequency)) => frequency as nat,
            _ => self.frequency,
        }
    }

    /// The state after one tick in which `event` was taken off the channel.
    /// Any event restores the decay amplitude, and a press sets the frequency.
    /// Then the phase moves on by one sample of the frequency, wrapped into
    /// the cycle, and the decay amplitude falls by one step, not below zero.
    pub open spec fn tick(self, event: Option<NoteEvent>) -> OscillatorState {
        let frequency = self.frequency_after(event);
        let restored: int = if event is Some { DECAY_FULL as int } else { self.amplitude };
        OscillatorState {
            sample_rate: self.sample_rate,
            frequency,
            phase: (self.phase + frequency) % cycle(self.sample_rate),
            amplitude: clamped(restored - 1, 0, DECAY_FULL as int),
            current_event: event,
        }
    }

    /// The state after one tick for each entry of `events`, in order: the
    /// entry is what the tick found on the channel.
    pub open spec fn run(self, events: Seq<Option<NoteEvent>>) -> OscillatorState
        decreases events.len(),
    {
        if events.len() == 0 {
            self
        } else {
            self.run(events.drop_last()).tick(events.last())
        }
    }

    /// The harmonic count of the current frequency.
    pub open spec fn harmonics(self) -> nat {
        harmonic_count(self.frequency, self.sample_rate)
    }

    /// How many harmonics are summed: all below the harmonic count, from the
    /// first on. The harmonic whose number is the count stays out.
    pub open spec fn partials(self) -> nat {
        if self.harmonics() == 0 {
            0
        } else {
            (self.harmonics() - 1) as nat
        }
    }

    /// The phase of harmonic `harmonic`, wrapped into the cycle.
    pub open spec fn harmonic_phase(self, harmonic: nat) -> nat {
        (self.phase * harmonic) % cycle(self.sample_rate)
    }

    /// Whether `sines` can be the sines of the harmonics of the current tick:
    /// one for each harmonic that is summed, each within full scale.
    pub open spec fn accepts(self, sines: Seq<i64>) -> bool {
        &&& sines.len() == self.partials()
        &&& sines_within_full_scale(sines)
    }

    /// The sample of the current tick, from the sines of its harmonics.
    pub open spec fn sample(self, sines: Seq<i64>) -> int {
        scale(normalized(harmonic_sum(sines)), self.amplitude, DECAY_FULL as int)
    }
}

/// The band-limited sawtooth oscillator, fed by a channel of note events.
pub struct SawWaveOscilatorBandLimited {
    sample_rate: u32,
    receiver: Receiver<NoteEvent>,
    amplitude: i32,
    current_frequency: u32,
    phase: u64,
    current_event: Option<NoteEvent>,
}

impl View for SawWaveOscilatorBandLimited {
    type V = OscillatorState;

    closed spec fn view(&self) -> OscillatorState {
        OscillatorState {
            sample_rate: self.sample_rate as nat,
            frequency: self.current_frequency as nat,
            phase: self.phase as nat,
            amplitude: self.amplitude as int,
            current_event: self.current_event,
        }
    }
}

impl SawWaveOscilatorBandLimited {
    #[verifier::type_invariant]
    spec fn well_formed(self) -> bool {
        self@.wf()
    }

    /// A silent oscillator at `sample_rate` samples per second that takes its
    /// note events from `receiver`.
    pub fn new(sample_rate: u32, receiver: Receiver<NoteEvent>) -> (oscillator:
        SawWaveOscilatorBandLimited)
        requires
            sample_rate > 0,
        ensures
            oscillator@ == OscillatorState::silent(sample_rate as nat),
            oscillator@.wf(),
    {
        SawWaveOscilatorBandLimited {
            sample_rate,
            receiver,
            amplitude: 0,
            current_frequency: 0,
            phase: 0,
            current_event: None,
        }
    }

    fn set_frequency(&mut self, frequency: u32)
        ensures
            final(self)@ == (OscillatorState { frequency: frequency as nat, ..old(self)@ }),
    {
        proof {
            use_type_invariant(&*self);
        }
        if frequency != self.current_frequency {
            self.current_frequency = frequency;
        }
    }

    /// One tick in which `event` was taken off the channel.
    pub fn tick(&mut self, event: Option<NoteEvent>)
        ensures
            final(self)@ == old(self)@.tick(event),
            final(self)@.wf(),
    {
        proof {
            use_type_invariant(&*self);
        }
        let mut restored: i32 = self.amplitude;
        match event {
            Some(f) => {
                restored = DECAY_FULL;
                match f {
                    NoteEvent::Press(frequency) => self.set_frequency(frequency),
                    NoteEvent::Hold => {},
                    NoteEvent::Up => {},
                }
            },
            None => {},
        }
        self.current_event = event;
        let cycle: u64 = 1000 * (self.sample_rate as u64);
        self.phase = (self.phase + self.current_frequency as u64) % cycle;
        self.amplitude = clamp(restored - 1, 0, DECAY_FULL);
    }

    /// One tick, with the event that waits on the channel, if one does. At
    /// most one event is taken, however many wait.
    pub fn advance(&mut self)
        ensures
            exists|event: Option<NoteEvent>| final(self)@ == #[trigger] old(self)@.tick(event),
            final(self)@.wf(),
    {
        let event = try_receive(&self.receiver);
        self.tick(event);
    }

    /// The harmonic count of the current frequency, found anew at each call.
    pub fn harmonics(&self) -> (count: u32)
        ensures
            count == self@.harmonics(),
            count <= 41,
    {
        number_of_harmonics(self.current_frequency, self.sample_rate)
    }

    /// How many harmonics the current tick sums.
    pub fn partials(&self) -> (count: u32)
        ensures
            count == self@.partials(),
            count <= 40,
    {
        let number_of_harmonics: u32 = self.harmonics();
        if number_of_harmonics == 0 {
            0
        } else {
            number_of_harmonics - 1
        }
    }

    /// The phase of harmonic `harmonic` in the current tick, out of `cycle()`.
    pub fn harmonic_phase(&self, harmonic: u32) -> (phase: u64)
        ensures
            phase == self@.harmonic_phase(harmonic as nat),
            phase < cycle(self@.sample_rate),
    {
        proof {
            use_type_invariant(self);
            assert(0 <= (self.phase as int) * (harmonic as int) <= 0x1_0000_0000_0000_0000
                * 0x1_0000_0000) by (nonlinear_arith)
                requires
                    0 <= self.phase as int <= 0x1_0000_0000_0000_0000,
                    0 <= harmonic as int <= 0x1_0000_0000,
            ;
        }
        let cycle: u64 = 1000 * (self.sample_rate as u64);
        let turned: u128 = (self.phase as u128) * (harmonic as u128);
        (turned % (cycle as u128)) as u64
    }

    /// Phase units in one cycle.
    pub fn cycle(&self) -> (units: u64)
        ensures
            units == cycle(self@.sample_rate),
            units > 0,
    {
        proof {
            use_type_invariant(self);
        }
        1000 * (self.sample_rate as u64)
    }

    /// The amplitude of the current tick. `sines` holds the sine of each
    /// harmonic that is summed, at `harmonic_phase` of its number, the first
    /// harmonic first.
    pub fn get_sample(&self, sines: &Vec<i64>) -> (sample: i64)
        requires
            self@.accepts(sines@),
        ensures
            sample == self@.sample(sines@),
    {
        proof {
            use_type_invariant(self);
            lemma_harmonic_count_small(self@.frequency, self@.sample_rate);
        }
        let mut result: i64 = 0;
        let mut index: usize = 0;
        while index < sines.len()
            invariant
                index <= sines.len() <= 40,
                sines_within_full_scale(sines@),
                result == harmonic_sum(sines@.take(index as int)),
                -index * FULL_SCALE <= result <= index * FULL_SCALE,
            decreases sines.len() - index,
        {
            let current_harmonic: i64 = index as i64 + 1;
            proof {
                let front: Seq<i64> = sines@.take(index as int + 1);
                assert(front.drop_last() =~= sines@.take(index as int));
                assert(front.last() == sines@[index as int]);
                assert(within_full_scale(sines@[index as int] as int));
                lemma_trunc_div_bounds(sines@[index as int] as int, current_harmonic as int);
            }
            result = result + sines[index] / current_harmonic;
            index = index + 1;
        }
        proof {
            assert(sines@.take(index as int) =~= sines@);
            lemma_scale_bounded(result as int, 2 * FULL_SCALE, PI as int);
        }
        let doubled: i128 = (result as i128) * (2 * FULL_SCALE as i128);
        let normalized: i64 = (doubled / (PI as i128)) as i64;
        scale_amplitude(normalized, self.amplitude as u32, DECAY_FULL as u32)
    }

    /// The sample of the current tick, tagged with the event that the tick
    /// took. The stream never ends.
    pub fn next(&self, sines: &Vec<i64>) -> (data: Option<MusicData>)
        requires
            self@.accepts(sines@),
        ensures
            data matches Some(sample) && sample.current_event == self@.current_event
                && sample.wave_data == self@.sample(sines@),
    {
        Some(MusicData { current_event: self.current_event, wave_data: self.get_sample(sines) })
    }

    /// The frequency of the note, in millihertz.
    pub fn current_frequency(&self) -> (frequency: u32)
        ensures
            frequency == self@.frequency,
    {
        self.current_frequency
    }

    /// The place in the cycle, out of `cycle()`.
    pub fn phase(&self) -> (phase: u64)
        ensures
            phase == self@.phase,
            phase < cycle(self@.sample_rate),
    {
        proof {
            use_type_invariant(self);
        }
        self.phase
    }

    /// The decay amplitude, out of `DECAY_FULL`.
    pub fn amplitude(&self) -> (amplitude: i32)
        ensures
            amplitude == self@.amplitude,
            0 <= amplitude <= DECAY_FULL,
    {
        proof {
            use_type_invariant(self);
        }
        self.amplitude
    }

    /// The event that the latest tick took off the channel, if it took one.
    pub fn current_event(&self) -> (event: Option<NoteEvent>)
        ensures
            event == self@.current_event,
    {
        self.current_event
    }

    /// The number of channels: one.
    pub fn channels(&self) -> (count: u16)
        ensures
            count == 1,
    {
        1
    }

    /// Samples per second, as given at construction.
    pub fn sample_rate(&self) -> (rate: u32)
        ensures
            rate == self@.sample_rate,
    {
        self.sample_rate
    }

    /// The length of the current frame: unknown, the stream goes on.
    pub fn current_frame_len(&self) -> (length: Option<usize>)
        ensures
            length is None,
    {
        None
    }

    /// The duration of the whole stream: unknown, the stream goes on.
    pub fn total_duration(&self) -> (duration: Option<Duration>)
        ensures
            duration is None,
    {
        None
    }
}

/// Every tick leaves the oscillator well formed, whatever it found on the
/// channel: the phase within the cycle and the decay amplitude in range.
pub proof fn lemma_tick_wf(state: OscillatorState, event: Option<NoteEvent>)
    requires
        state.wf(),
    ensures
        state.tick(event).wf(),
        state.tick(event).sample_rate == state.sample_rate,
{
}

/// At all times the oscillator is well formed: after any ticks, whatever
/// they found on the channel.
pub proof fn lemma_oscillator_run_wf(state: OscillatorState, events: Seq<Option<NoteEvent>>)
    requires
        state.wf(),
    ensures
        state.run(events).wf(),
        state.run(events).sample_rate == state.sample_rate,
    decreases events.len(),
{
    if events.len() > 0 {
        lemma_oscillator_run_wf(state, events.drop_last());
        lemma_tick_wf(state.run(events.drop_last()), events.last());
    }
}

/// The frequency sticks: through ticks that find a hold, a release or
/// nothing on the channel, in any number and order, it stays what it was.
pub proof fn lemma_frequency_sticky(state: OscillatorState, events: Seq<Option<NoteEvent>>)
    requires
        forall|i: int|
            0 <= i < events.len() ==> !(#[trigger] events[i] matches Some(NoteEvent::Press(_))),
    ensures
        state.run(events).frequency == state.frequency,
        state.run(events).sample_rate == state.sample_rate,
    decreases events.len(),
{
    if events.len() > 0 {
        lemma_frequency_sticky(state, events.drop_last());
        assert(!(events[events.len() - 1] matches Some(NoteEvent::Press(_))));
    }
}

/// The decay amplitude never rises in a tick that finds nothing on the
/// channel, and a tick that finds an event leaves it one step below full.
pub proof fn lemma_decay(state: OscillatorState, event: Option<NoteEvent>)
    requires
        state.wf(),
    ensures
        event is None ==> state.tick(event).amplitude <= state.amplitude,
        event is None && state.amplitude > 0 ==> state.tick(event).amplitude == state.amplitude
            - 1,
        event is Some ==> state.tick(event).amplitude == DECAY_FULL - 1,
{
}

/// Through `ticks` ticks that find nothing on the channel, the phase moves on
/// by the frequency each time, taken as one step and wrapped once, and the
/// decay amplitude falls by one step each time until it has run out.
pub proof fn lemma_silent_ticks(state: OscillatorState, ticks: nat)
    requires
        state.wf(),
    ensures
        state.run(Seq::new(ticks, |i: int| None::<NoteEvent>)) == (OscillatorState {
            phase: (state.phase + ticks * state.frequency) % cycle(state.sample_rate),
            amplitude: if state.amplitude >= ticks {
                state.amplitude - ticks
            } else {
                0
            },
            current_event: if ticks == 0 {
                state.current_event
            } else {
                None
            },
            ..state
        }),
    decreases ticks,
{
    let events = Seq::new(ticks, |i: int| None::<NoteEvent>);
    let width: nat = cycle(state.sample_rate);
    if ticks == 0 {
        assert(0 * state.frequency == 0) by (nonlinear_arith);
        assert(state.phase % width == state.phase) by (nonlinear_arith)
            requires
                0 <= state.phase < width,
        ;
    } else {
        let fewer: nat = (ticks - 1) as nat;
        let before: nat = state.phase + fewer * state.frequency;
        assert(events.drop_last() =~= Seq::new(fewer, |i: int| None::<NoteEvent>));
        lemma_silent_ticks(state, fewer);
        assert(ticks * state.frequency == fewer * state.frequency + state.frequency)
            by (nonlinear_arith)
            requires
                ticks == fewer + 1,
        ;
        lemma_add_mod_noop(before as int, state.frequency as int, width as int);
        lemma_add_mod_noop((before % width) as int, state.frequency as int, width as int);
        lemma_mod_twice(before as int, width as int);
    }
}

/// The harmonic count is the least number of doublings that lifts the
/// frequency to the Nyquist frequency, and it falls, or stays, as the
/// frequency rises.
pub proof fn lemma_harmonic_count(low: nat, high: nat, sample_rate: nat)
    requires
        0 < low <= high,
    ensures
        low * pow2(harmonic_count(low, sample_rate)) >= nyquist(sample_rate),
        harmonic_count(low, sample_rate) > 0 ==> low * pow2(
            (harmonic_count(low, sample_rate) - 1) as nat,
        ) < nyquist(sample_rate),
        harmonic_count(high, sample_rate) <= harmonic_count(low, sample_rate),
        harmonic_count(0, sample_rate) == 0,
{
    lemma_doublings_least(low, nyquist(sample_rate));
    lemma_doublings_monotone(low, high, nyquist(sample_rate), nyquist(sample_rate));
}

} // verus!
