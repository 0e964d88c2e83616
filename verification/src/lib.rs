//! Sound-generation core of a polyphonic synthesiser driven by MIDI notes.
//!
//! Everything here is integer arithmetic: amplitudes are exact fractions,
//! frequencies are 32.32 fixed point, and a tick of an oscillator yields the
//! set of partials to be summed rather than the sum itself.

pub mod node;
pub mod pitch;
pub mod gate;
pub mod adsr;
pub mod oscillator;
pub mod voice;
pub mod synth;
pub mod midi;
