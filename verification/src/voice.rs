//! A voice: one oscillator shaped by one envelope.

use vstd::prelude::*;
use crate::adsr::{Adsr, AdsrState, Envelope, Level};
use crate::node::Node;
use crate::oscillator::{Oscillator, Tone, Wave, Waveform};
use crate::pitch::{Frequency, Gain, HERTZ};

verus! {

/// Attack time of a voice, in milliseconds.
pub const ATTACK_MS: u16 = 1100;

/// Decay time of a voice, in milliseconds.
pub const DECAY_MS: u16 = 100;

/// Sustain level of a voice, in thousandths.
pub const SUSTAIN: u16 = 700;

/// Release time of a voice, in milliseconds.
pub const RELEASE_MS: u16 = 2100;

/// A voice as a mathematical value.
pub struct Sound {
    pub wave: Wave,
    pub envelope: Envelope,
}

impl Sound {
    pub open spec fn wf(self) -> bool {
        self.wave.wf() && self.envelope.wf()
    }

    /// The voice sounds: its envelope is not idle.
    pub open spec fn active(self) -> bool {
        self.envelope.state != AdsrState::Idle
    }

    /// The voice after its key went down at this frequency and gain.
    pub open spec fn note_on(self, frequency: nat, gain: nat) -> Sound {
        Sound {
            wave: Wave { frequency, gain, ..self.wave },
            envelope: self.envelope.note_on(),
        }
    }

    /// The voice after its key went up: the envelope is released, the
    /// oscillator runs on as it is.
    pub open spec fn note_off(self) -> Sound {
        Sound { envelope: self.envelope.note_off(), ..self }
    }

    /// The voice after one tick.
    pub open spec fn tick(self) -> Sound {
        Sound { wave: self.wave.advance(), envelope: self.envelope.tick() }
    }
}

/// What a voice hands out at a tick. Its sample is the sum of the partials
/// of `tone` multiplied by the amplitude `level`.
#[derive(Clone, Copy, Debug, PartialEq, Eq, Structural)]
pub struct Frame {
    pub tone: Tone,
    pub level: Level,
}

impl Frame {
    /// The frame is the one that a voice in this state hands out.
    pub open spec fn renders(self, sound: Sound) -> bool {
        &&& self.tone.renders(sound.wave)
        &&& self.level.parts == sound.envelope.level
        &&& self.level.unit == sound.envelope.unit()
    }
}

/// One oscillator and the envelope that shapes it.
#[derive(Debug)]
pub struct Voice {
    oscillator: Oscillator,
    adsr: Adsr,
}

impl View for Voice {
    type V = Sound;

    closed spec fn view(&self) -> Sound {
        Sound { wave: self.oscillator@, envelope: self.adsr@ }
    }
}

impl Voice {
    pub closed spec fn wf(&self) -> bool {
        self.oscillator.wf() && self.adsr.wf()
    }

    /// A well-formed voice has a well-formed value.
    pub proof fn wf_view(&self)
        requires
            self.wf(),
        ensures
            self@.wf(),
    {
        self.oscillator.wf_view();
        self.adsr.wf_view();
    }

    /// The value of a new voice: silent, at phase 0, tuned to 440 Hz.
    pub open spec fn new_spec(sample_rate: u32, waveform: Waveform) -> Sound {
        Sound {
            wave: Wave {
                sample_rate: sample_rate as nat,
                waveform,
                phase: 0,
                frequency: 440 * HERTZ as nat,
                gain: 0,
            },
            envelope: Envelope {
                attack_ms: ATTACK_MS as nat,
                decay_ms: DECAY_MS as nat,
                sustain: SUSTAIN as nat,
                release_ms: RELEASE_MS as nat,
                sample_rate: sample_rate as nat,
                state: AdsrState::Idle,
                level: 0,
                elapsed: 0,
            },
        }
    }

    /// A silent voice of the given shape, tuned to 440 Hz.
    pub fn new(sample_rate: u32, waveform: Waveform) -> (voice: Voice)
        requires
            sample_rate > 0,
        ensures
            voice.wf(),
            voice@ == Voice::new_spec(sample_rate, waveform),
    {
        Voice {
            oscillator: Oscillator::new(sample_rate, waveform),
            adsr: Adsr::new(sample_rate, ATTACK_MS, DECAY_MS, SUSTAIN, RELEASE_MS),
        }
    }

    /// The key went down: the oscillator is tuned and the envelope starts
    /// its attack.
    pub fn note_on(&mut self, freq: Frequency, gain: Gain)
        requires
            old(self).wf(),
        ensures
            final(self).wf(),
            final(self)@ == old(self)@.note_on(freq@ as nat, gain@ as nat),
    {
        self.oscillator.note_on(freq, gain);
        self.adsr.note_on();
    }

    /// The key went up: the envelope starts its release.
    pub fn note_off(&mut self)
        requires
            old(self).wf(),
        ensures
            final(self).wf(),
            final(self)@ == old(self)@.note_off(),
    {
        self.adsr.note_off();
    }

    /// Whether the voice sounds.
    pub fn is_active(&self) -> (active: bool)
        ensures
            active == self@.active(),
    {
        match self.adsr.state() {
            AdsrState::Idle => false,
            _ => true,
        }
    }

    /// The current amplitude of the envelope.
    pub fn level(&self) -> (level: Level)
        requires
            self.wf(),
        ensures
            level.parts == self@.envelope.level,
            level.unit == self@.envelope.unit(),
            level.parts <= level.unit,
    {
        self.adsr.level()
    }

    /// The segment that the envelope is in.
    pub fn state(&self) -> (state: AdsrState)
        ensures
            state == self@.envelope.state,
    {
        self.adsr.state()
    }

    /// The frequency that the oscillator is tuned to.
    pub fn frequency(&self) -> (frequency: Frequency)
        ensures
            frequency@ == self@.wave.frequency,
    {
        self.oscillator.frequency()
    }
}

impl Node for Voice {
    type Output = Frame;

    open spec fn ready(&self) -> bool {
        self.wf()
    }

    /// One tick of the oscillator and of the envelope.
    fn tick(&mut self) -> (frame: Frame)
        ensures
            final(self)@ == old(self)@.tick(),
            frame.renders(final(self)@),
    {
        let tone: Tone = self.oscillator.tick();
        let level: Level = self.adsr.tick();
        Frame { tone, level }
    }
}

} // verus!
