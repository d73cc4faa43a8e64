//! The sample that travels down the pipeline: an amplitude, tagged with the
//! note event of its tick.

use vstd::prelude::*;
use crate::fixed_point::{scale, scale_amplitude, trunc_div};
use crate::musical_keyboard::NoteEvent;

verus! {

/// One sample on its way from the oscillator to the output.
#[derive(Clone, Copy, Debug, PartialEq, Eq)]
pub struct MusicData {
    /// The note event that arrived in the tick of this sample, if one did.
    pub current_event: Option<NoteEvent>,
    /// The amplitude, in billionths of full scale.
    pub wave_data: i64,
}

/// `value` held to the range of a 64-bit amplitude.
pub open spec fn saturate(value: int) -> int {
    if value < i64::MIN {
        i64::MIN as int
    } else if value > i64::MAX {
        i64::MAX as int
    } else {
        value
    }
}

/// The point `numerator / denominator` of the way from `first` to `second`.
pub open spec fn interpolate(first: int, second: int, numerator: int, denominator: int) -> int
    recommends
        denominator > 0,
{
    first + trunc_div((second - first) * numerator, denominator)
}

impl MusicData {
    /// Silence, with no tag.
    pub fn zero_value() -> (silence: MusicData)
        ensures
            silence.current_event is None,
            silence.wave_data == 0,
    {
        MusicData { current_event: None, wave_data: 0 }
    }

    /// This sample with the gain `gain / unity` applied. The tag stays.
    pub fn amplify(self, gain: u32, unity: u32) -> (amplified: MusicData)
        requires
            unity > 0,
            gain <= unity,
        ensures
            amplified.current_event == self.current_event,
            amplified.wave_data == scale(self.wave_data as int, gain as int, unity as int),
    {
        MusicData {
            current_event: self.current_event,
            wave_data: scale_amplitude(self.wave_data, gain, unity),
        }
    }

    /// The sum of two samples, held to the range of an amplitude. The tag is
    /// that of `self`.
    pub fn saturating_add(self, other: MusicData) -> (sum: MusicData)
        ensures
            sum.current_event == self.current_event,
            sum.wave_data == saturate(self.wave_data + other.wave_data),
    {
        let total: i128 = self.wave_data as i128 + other.wave_data as i128;
        MusicData { current_event: self.current_event, wave_data: saturate_amplitude(total) }
    }

    /// The sample `numerator / denominator` of the way from `first` to
    /// `second`, held to the range of an amplitude. The tag is that of `first`.
    pub fn lerp(first: MusicData, second: MusicData, numerator: u32, denominator: u32) -> (mid:
        MusicData)
        requires
            denominator > 0,
        ensures
            mid.current_event == first.current_event,
            mid.wave_data == saturate(
                interpolate(
                    first.wave_data as int,
                    second.wave_data as int,
                    numerator as int,
                    denominator as int,
                ),
            ),
    {
        let span: i128 = second.wave_data as i128 - first.wave_data as i128;
        proof {
            assert(-0x2_0000_0000_0000_0000_0000_0000 <= (span as int) * (numerator as int)
                <= 0x2_0000_0000_0000_0000_0000_0000) by (nonlinear_arith)
                requires
                    -0x2_0000_0000_0000_0000 <= span as int <= 0x2_0000_0000_0000_0000,
                    0 <= numerator as int <= 0x1_0000_0000,
            ;
            crate::fixed_point::lemma_trunc_div_bounds(
                (span as int) * (numerator as int),
                denominator as int,
            );
        }
        let step: i128 = (span * (numerator as i128)) / (denominator as i128);
        let total: i128 = first.wave_data as i128 + step;
        MusicData { current_event: first.current_event, wave_data: saturate_amplitude(total) }
    }
}

/// `value` held to the range of a 64-bit amplitude.
pub fn saturate_amplitude(value: i128) -> (held: i64)
    ensures
        held == saturate(value as int),
{
    if value < i64::MIN as i128 {
        i64::MIN
    } else if value > i64::MAX as i128 {
        i64::MAX
    } else {
        value as i64
    }
}

} // verus!
