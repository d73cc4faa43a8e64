//! The last stage of the pipeline: it strips the tag off each sample and
//! hands the bare amplitude on to the output.

use vstd::prelude::*;
use crate::envvelope::{
    lemma_envelope_run_wf, lemma_shaped_is_scaled, lemma_step_wf, EnvelopeModel,
};
use crate::fixed_point::{lemma_scale_bounded, within_full_scale};
use crate::music_data::MusicData;
use crate::musical_keyboard::NoteEvent;
use crate::saw_wave_oscilator_band_limited::{
    harmonic_sum, lemma_oscillator_run_wf, normalized, OscillatorState,
    DECAY_FULL,
};

verus! {

/// The converter from tagged samples to amplitudes. It keeps no state.
pub struct DataConverter {}

impl DataConverter {
    /// A converter.
    pub fn new() -> (converter: DataConverter) {
        DataConverter {  }
    }

    /// The amplitude of the next sample of the stream above, or its end.
    pub fn next(&mut self, value: Option<MusicData>) -> (amplitude: Option<i64>)
        ensures
            value matches Some(music_data) ==> amplitude == Some(music_data.wave_data),
            value is None ==> amplitude is None,
    {
        if value.is_some() {
            return Some(value.unwrap().wave_data);
        }
        None
    }
}

/// What leaves the pipeline in one tick: the sum of the harmonics at 2/pi,
/// times the decay amplitude of the oscillator, times the multiplier of the
/// envelope, with the tag taken off.
pub open spec fn pipeline_output(
    oscillator: OscillatorState,
    envelope: EnvelopeModel,
    sines: Seq<i64>,
) -> int {
    envelope.shaped(oscillator.current_event, oscillator.sample(sines))
}

/// Neither gain of the pipeline is above one, so together they never raise
/// the sawtooth and never flip its sign. Where the sawtooth lies within full
/// scale, so does the output.
pub proof fn lemma_output_bounded(
    oscillator: OscillatorState,
    envelope: EnvelopeModel,
    sines: Seq<i64>,
)
    requires
        oscillator.wf(),
        envelope.wf(),
    ensures
        ({
            let sawtooth = normalized(harmonic_sum(sines));
            let output = pipeline_output(oscillator, envelope, sines);
            &&& sawtooth >= 0 ==> 0 <= output <= sawtooth
            &&& sawtooth <= 0 ==> sawtooth <= output <= 0
            &&& within_full_scale(sawtooth) ==> within_full_scale(output)
        }),
{
    let sawtooth = normalized(harmonic_sum(sines));
    let decayed = oscillator.sample(sines);
    let tag = oscillator.current_event;
    lemma_scale_bounded(sawtooth, oscillator.amplitude, DECAY_FULL as int);
    lemma_step_wf(envelope, tag);
    lemma_shaped_is_scaled(envelope, tag, decayed);
    lemma_scale_bounded(decayed, envelope.step(tag).multiplier, envelope.unity);
}

/// The same at all times: after any ticks from the start, whatever they found
/// on the channel, with the oscillator one tick ahead of the envelope that is
/// about to shape its sample.
pub proof fn lemma_output_bounded_at_all_times(
    sample_rate: nat,
    events: Seq<Option<NoteEvent>>,
    sines: Seq<i64>,
)
    requires
        sample_rate > 0,
        events.len() > 0,
    ensures
        ({
            let oscillator = OscillatorState::silent(sample_rate).run(events);
            let envelope = EnvelopeModel::initial(sample_rate as int).run(events.drop_last());
            let sawtooth = normalized(harmonic_sum(sines));
            let output = pipeline_output(oscillator, envelope, sines);
            &&& oscillator.current_event == events.last()
            &&& sawtooth >= 0 ==> 0 <= output <= sawtooth
            &&& sawtooth <= 0 ==> sawtooth <= output <= 0
            &&& within_full_scale(sawtooth) ==> within_full_scale(output)
        }),
{
    let oscillator = OscillatorState::silent(sample_rate).run(events);
    let envelope = EnvelopeModel::initial(sample_rate as int).run(events.drop_last());
    lemma_oscillator_run_wf(OscillatorState::silent(sample_rate), events);
    lemma_envelope_run_wf(EnvelopeModel::initial(sample_rate as int), events.drop_last());
    lemma_output_bounded(oscillator, envelope, sines);
}

} // verus!
