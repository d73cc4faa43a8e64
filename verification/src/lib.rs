//! A single-voice synthesizer core in fixed-point arithmetic.
//!
//! Note events drive a band-limited sawtooth oscillator whose samples pass
//! through an attack/hold/release envelope and a tag-stripping converter.
//! Every quantity is an integer in a fixed unit: frequencies in millihertz,
//! phases in fractions of a cycle, gains as a numerator over a fixed unity and
//! amplitudes in billionths of full scale.

pub mod channel;
pub mod fixed_point;
pub mod musical_keyboard;
pub mod music_data;
pub mod saw_wave_oscilator_band_limited;
pub mod envvelope;
pub mod dataconverter;
pub mod saw_wave_oscilator;
pub mod wave_table_oscilator;
