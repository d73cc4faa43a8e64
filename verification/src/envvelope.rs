//! The envelope shaper: an attack, hold and release gain driven by the note
//! events that tag the samples.
//!
//! The multiplier counts steps out of `unity`, the sample rate: the attack
//! rate is one step up per tick and the release rate one step down, so that a
//! full attack and a full release last one second each.

use vstd::prelude::*;
use crate::fixed_point::{lemma_scale_ends, scale};
use crate::music_data::MusicData;
use crate::musical_keyboard::NoteEvent;

verus! {

/// Where the envelope stands.
#[derive(Clone, Copy, Debug, PartialEq, Eq, Structural)]
pub enum EnvelopeState {
    /// Silent: the output is forced to zero.
    Flat,
    /// The multiplier rises by the attack rate.
    Attack,
    /// The input passes unchanged.
    Hold,
    /// The multiplier falls by the release rate.
    Release,
}

/// The envelope as a value: its state and its multiplier out of `unity`.
pub struct EnvelopeModel {
    pub state: EnvelopeState,
    pub multiplier: int,
    pub unity: int,
}

/// Whether `tag` leaves the state alone: no tag, or a hold.
pub open spec fn quiet(tag: Option<NoteEvent>) -> bool {
    tag is None || tag == Some(NoteEvent::Hold)
}

impl EnvelopeModel {
    /// The envelope before any note: flat, with no gain.
    pub open spec fn initial(unity: int) -> EnvelopeModel {
        EnvelopeModel { state: EnvelopeState::Flat, multiplier: 0, unity }
    }

    /// What holds between ticks. The multiplier is zero exactly when the
    /// envelope is flat, at unity exactly when it holds, and strictly between
    /// the two while it attacks or releases.
    pub open spec fn wf(self) -> bool {
        &&& self.unity > 0
        &&& match self.state {
            EnvelopeState::Flat => self.multiplier == 0,
            EnvelopeState::Hold => self.multiplier == self.unity,
            _ => 0 < self.multiplier < self.unity,
        }
    }

    /// The transition that `tag` triggers. A press starts an attack from
    /// zero, whatever went before. A release starts from any state, at the
    /// multiplier reached. A hold and a missing tag trigger nothing.
    pub open spec fn triggered(self, tag: Option<NoteEvent>) -> EnvelopeModel {
        match tag {
            Some(NoteEvent::Press(_)) => EnvelopeModel {
                state: EnvelopeState::Attack,
                multiplier: 0,
                unity: self.unity,
            },
            Some(NoteEvent::Up) => EnvelopeModel { state: EnvelopeState::Release, ..self },
            _ => self,
        }
    }

    /// The update of one tick in the current state. An attack gains a step
    /// and turns into a hold at unity. A release loses a step and turns flat
    /// at zero. Flat and hold stay as they are.
    pub open spec fn ramped(self) -> EnvelopeModel {
        match self.state {
            EnvelopeState::Attack => if self.multiplier + 1 >= self.unity {
                EnvelopeModel { state: EnvelopeState::Hold, multiplier: self.unity, ..self }
            } else {
                EnvelopeModel { multiplier: self.multiplier + 1, ..self }
            },
            EnvelopeState::Release => if self.multiplier - 1 <= 0 {
                EnvelopeModel { state: EnvelopeState::Flat, multiplier: 0, ..self }
            } else {
                EnvelopeModel { multiplier: self.multiplier - 1, ..self }
            },
            _ => self,
        }
    }

    /// The envelope after the tick of a sample tagged `tag`.
    pub open spec fn step(self, tag: Option<NoteEvent>) -> EnvelopeModel {
        self.triggered(tag).ramped()
    }

    /// The amplitude that leaves the envelope in the tick of a sample tagged
    /// `tag` that came in with `amplitude`: zero when flat, the input when
    /// holding, and the input times the new multiplier in attack and release.
    pub open spec fn shaped(self, tag: Option<NoteEvent>, amplitude: int) -> int {
        match self.triggered(tag).state {
            EnvelopeState::Flat => 0,
            EnvelopeState::Hold => amplitude,
            _ => scale(amplitude, self.step(tag).multiplier, self.unity),
        }
    }

    /// The envelope after `count` ticks of untagged samples.
    pub open spec fn idle(self, count: nat) -> EnvelopeModel
        decreases count,
    {
        if count == 0 {
            self
        } else {
            self.idle((count - 1) as nat).step(None)
        }
    }

    /// The envelope after the ticks of samples tagged `tags`, in order.
    pub open spec fn run(self, tags: Seq<Option<NoteEvent>>) -> EnvelopeModel
        decreases tags.len(),
    {
        if tags.len() == 0 {
            self
        } else {
            self.run(tags.drop_last()).step(tags.last())
        }
    }
}

/// The envelope shaper.
pub struct Envelope {
    current_multiplier: u32,
    state: EnvelopeState,
    unity: u32,
}

impl View for Envelope {
    type V = EnvelopeModel;

    closed spec fn view(&self) -> EnvelopeModel {
        EnvelopeModel {
            state: self.state,
            multiplier: self.current_multiplier as int,
            unity: self.unity as int,
        }
    }
}

impl Envelope {
    #[verifier::type_invariant]
    spec fn well_formed(self) -> bool {
        self@.wf()
    }

    /// A flat envelope for a stream of `sample_rate` samples per second.
    pub fn new(sample_rate: u32) -> (envelope: Envelope)
        requires
            sample_rate > 0,
        ensures
            envelope@ == EnvelopeModel::initial(sample_rate as int),
            envelope@.wf(),
    {
        Envelope { current_multiplier: 0, state: EnvelopeState::Flat, unity: sample_rate }
    }

    /// The state of the envelope.
    pub fn state(&self) -> (state: EnvelopeState)
        ensures
            state == self@.state,
    {
        self.state
    }

    /// The multiplier, in steps out of `unity()`.
    pub fn current_multiplier(&self) -> (multiplier: u32)
        ensures
            multiplier == self@.multiplier,
            multiplier <= self@.unity,
    {
        proof {
            use_type_invariant(self);
        }
        self.current_multiplier
    }

    /// The multiplier that stands for 1.0.
    pub fn unity(&self) -> (unity: u32)
        ensures
            unity == self@.unity,
            unity > 0,
    {
        proof {
            use_type_invariant(self);
        }
        self.unity
    }

    /// Shapes the next sample of the stream above, or passes on that the
    /// stream has ended. The tag of the sample drives the state and passes
    /// through unchanged.
    pub fn next(&mut self, value: Option<MusicData>) -> (shaped: Option<MusicData>)
        ensures
            final(self)@.wf(),
            value is None ==> shaped is None && final(self)@ == old(self)@,
            value matches Some(music_data) ==> {
                &&& final(self)@ == old(self)@.step(music_data.current_event)
                &&& shaped matches Some(result)
                &&& result.current_event == music_data.current_event
                &&& result.wave_data == old(self)@.shaped(
                    music_data.current_event,
                    music_data.wave_data as int,
                )
            },
    {
        proof {
            use_type_invariant(&*self);
        }
        if let Some(music_data) = value {
            let mut result = MusicData {
                current_event: music_data.current_event,
                wave_data: music_data.wave_data,
            };
            let mut state = self.state;
            let mut current_multiplier: u32 = self.current_multiplier;
            if let Some(event) = music_data.current_event {
                match event {
                    NoteEvent::Press(_) => {
                        current_multiplier = 0;
                        state = EnvelopeState::Attack;
                    },
                    NoteEvent::Hold => {},
                    NoteEvent::Up => {
                        state = EnvelopeState::Release;
                    },
                }
            }
            match state {
                EnvelopeState::Flat => {
                    result.wave_data = 0;
                },
                EnvelopeState::Attack => {
                    if current_multiplier >= self.unity - 1 {
                        current_multiplier = self.unity;
                        state = EnvelopeState::Hold;
                    } else {
                        current_multiplier = current_multiplier + 1;
                    }
                    result = result.amplify(current_multiplier, self.unity);
                },
                EnvelopeState::Hold => {},
                EnvelopeState::Release => {
                    if current_multiplier <= 1 {
                        current_multiplier = 0;
                        state = EnvelopeState::Flat;
                    } else {
                        current_multiplier = current_multiplier - 1;
                    }
                    result = result.amplify(current_multiplier, self.unity);
                },
            }
            *self = Envelope { current_multiplier, state, unity: self.unity };
            Some(result)
        } else {
            None
        }
    }
}

/// Every tick leaves the envelope well formed, whatever the tag.
pub proof fn lemma_step_wf(envelope: EnvelopeModel, tag: Option<NoteEvent>)
    requires
        envelope.wf(),
    ensures
        envelope.step(tag).wf(),
        envelope.step(tag).unity == envelope.unity,
        0 <= envelope.step(tag).multiplier <= envelope.unity,
{
}

/// At all times the envelope is well formed: after any ticks, whatever their
/// tags, the multiplier lies between zero and unity.
pub proof fn lemma_envelope_run_wf(envelope: EnvelopeModel, tags: Seq<Option<NoteEvent>>)
    requires
        envelope.wf(),
    ensures
        envelope.run(tags).wf(),
        envelope.run(tags).unity == envelope.unity,
        0 <= envelope.run(tags).multiplier <= envelope.unity,
    decreases tags.len(),
{
    if tags.len() > 0 {
        lemma_envelope_run_wf(envelope, tags.drop_last());
        lemma_step_wf(envelope.run(tags.drop_last()), tags.last());
    }
}

/// The output of a tick is the input times the multiplier that the tick
/// arrives at, in every state: a flat envelope has a multiplier of zero and a
/// holding one a multiplier of unity.
pub proof fn lemma_shaped_is_scaled(envelope: EnvelopeModel, tag: Option<NoteEvent>, amplitude: int)
    requires
        envelope.wf(),
    ensures
        envelope.shaped(tag, amplitude) == scale(
            amplitude,
            envelope.step(tag).multiplier,
            envelope.unity,
        ),
{
    lemma_scale_ends(amplitude, envelope.unity);
}

/// A flat envelope puts out exactly zero for every input, until a press.
pub proof fn lemma_flat_is_silent(envelope: EnvelopeModel, tag: Option<NoteEvent>, amplitude: int)
    requires
        envelope.wf(),
        envelope.state == EnvelopeState::Flat,
        !(tag matches Some(NoteEvent::Press(_))),
    ensures
        envelope.shaped(tag, amplitude) == 0,
        envelope.step(tag) == envelope,
{
    lemma_scale_ends(amplitude, envelope.unity);
}

/// A hold tag does what a missing tag does: neither triggers a transition,
/// and the tick only carries on the ramp in progress.
pub proof fn lemma_hold_tag_is_no_tag(
    envelope: EnvelopeModel,
    tag: Option<NoteEvent>,
    amplitude: int,
)
    requires
        quiet(tag),
    ensures
        envelope.step(tag) == envelope.ramped(),
        envelope.step(tag) == envelope.step(None),
        envelope.shaped(tag, amplitude) == envelope.shaped(None, amplitude),
{
}

/// Ticks with hold tags or without tags amount to as many untagged ticks.
pub proof fn lemma_quiet_run_is_idle(envelope: EnvelopeModel, tags: Seq<Option<NoteEvent>>)
    requires
        forall|i: int| 0 <= i < tags.len() ==> quiet(#[trigger] tags[i]),
    ensures
        envelope.run(tags) == envelope.idle(tags.len()),
    decreases tags.len(),
{
    if tags.len() > 0 {
        lemma_quiet_run_is_idle(envelope, tags.drop_last());
        assert(quiet(tags[tags.len() - 1]));
    }
}

/// A flat envelope and a holding one stay exactly as they are through any
/// number of ticks with hold tags or without tags.
pub proof fn lemma_quiet_run_rests(envelope: EnvelopeModel, tags: Seq<Option<NoteEvent>>)
    requires
        envelope.state == EnvelopeState::Flat || envelope.state == EnvelopeState::Hold,
        forall|i: int| 0 <= i < tags.len() ==> quiet(#[trigger] tags[i]),
    ensures
        envelope.run(tags) == envelope,
    decreases tags.len(),
{
    if tags.len() > 0 {
        lemma_quiet_run_rests(envelope, tags.drop_last());
        assert(quiet(tags[tags.len() - 1]));
    }
}

/// A press starts the attack from any state. The tick of the press and each
/// untagged tick after it gain one step, and the envelope holds from the tick
/// in which the multiplier arrives at unity.
pub proof fn lemma_attack_reaches_hold(envelope: EnvelopeModel, frequency: u32, ticks: nat)
    requires
        envelope.unity > 0,
        ticks < envelope.unity,
    ensures
        envelope.step(Some(NoteEvent::Press(frequency))).idle(ticks).unity == envelope.unity,
        envelope.step(Some(NoteEvent::Press(frequency))).idle(ticks).multiplier == ticks + 1,
        envelope.step(Some(NoteEvent::Press(frequency))).idle(ticks).state == (if ticks + 1
            == envelope.unity {
            EnvelopeState::Hold
        } else {
            EnvelopeState::Attack
        }),
    decreases ticks,
{
    if ticks > 0 {
        lemma_attack_reaches_hold(envelope, frequency, (ticks - 1) as nat);
    }
}

/// A release starts from any state. The tick of the release and each
/// untagged tick after it lose one step, and the envelope is flat from the
/// tick in which the multiplier arrives at zero.
pub proof fn lemma_release_reaches_flat(envelope: EnvelopeModel, ticks: nat)
    requires
        envelope.wf(),
        ticks < envelope.multiplier,
    ensures
        envelope.step(Some(NoteEvent::Up)).idle(ticks).unity == envelope.unity,
        envelope.step(Some(NoteEvent::Up)).idle(ticks).multiplier == envelope.multiplier - 1
            - ticks,
        envelope.step(Some(NoteEvent::Up)).idle(ticks).state == (if ticks + 1
            == envelope.multiplier {
            EnvelopeState::Flat
        } else {
            EnvelopeState::Release
        }),
    decreases ticks,
{
    if ticks > 0 {
        lemma_release_reaches_flat(envelope, (ticks - 1) as nat);
    }
}

/// The round trip of a note. From flat, a press and the untagged ticks that
/// bring the multiplier to unity end in a hold. From there, a release and the
/// untagged ticks that bring the multiplier to zero end flat again, in the
/// state that the trip began in, and what is flat puts out zero.
pub proof fn lemma_round_trip(envelope: EnvelopeModel, frequency: u32, amplitude: int)
    requires
        envelope.wf(),
        envelope.state == EnvelopeState::Flat,
    ensures
        ({
            let held = envelope.step(Some(NoteEvent::Press(frequency))).idle(
                (envelope.unity - 1) as nat,
            );
            let back = held.step(Some(NoteEvent::Up)).idle((envelope.unity - 1) as nat);
            &&& held.state == EnvelopeState::Hold
            &&& held.multiplier == envelope.unity
            &&& back == envelope
            &&& back.shaped(None, amplitude) == 0
        }),
{
    let ticks: nat = (envelope.unity - 1) as nat;
    lemma_attack_reaches_hold(envelope, frequency, ticks);
    let held = envelope.step(Some(NoteEvent::Press(frequency))).idle(ticks);
    lemma_release_reaches_flat(held, ticks);
}

} // verus!
