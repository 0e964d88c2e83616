//! The band-limited oscillator.
//!
//! A tick advances the phase and yields a `Tone`: the partials whose sum is
//! the sample. A partial of harmonic `i` is a sine of frequency `i` times the
//! oscillator's, weighted by `1 / i^rolloff`; the partials of a tone are those
//! at or below half the sample rate, and always the fundamental.

use vstd::prelude::*;
use vstd::arithmetic::div_mod::{
    lemma_add_mod_noop, lemma_fundamental_div_mod, lemma_mod_multiples_basic,
    lemma_mod_multiples_vanish, lemma_mul_mod_noop_left, lemma_small_mod,
};
use crate::node::Node;
use crate::pitch::{Frequency, Gain, HERTZ};

verus! {

/// The shape of the wave.
#[derive(Clone, Copy, Debug, PartialEq, Eq, Structural)]
pub enum Waveform {
    Sine,
    Square,
    Saw,
    Triangle,
}

impl Waveform {
    /// The distance between the harmonics of the shape: every harmonic for a
    /// saw, every other one for a square and a triangle.
    pub open spec fn stride(self) -> nat {
        match self {
            Waveform::Sine => 1,
            Waveform::Saw => 1,
            Waveform::Square => 2,
            Waveform::Triangle => 2,
        }
    }

    /// The exponent `g` in the weight `1 / i^g` of harmonic `i`.
    pub open spec fn rolloff(self) -> nat {
        match self {
            Waveform::Triangle => 2,
            _ => 1,
        }
    }
}

/// Harmonic `i` of `frequency` (in units of 2^-32 Hz) does not exceed half
/// the sample rate.
pub open spec fn in_band(frequency: nat, sample_rate: nat, i: nat) -> bool {
    2 * (i * frequency) <= sample_rate * HERTZ
}

/// Harmonic `i` is one that a sum in steps of `step` takes in: the
/// fundamental always, and of the harmonics `1 + step`, `1 + 2 * step` and so
/// on, those that are in band.
pub open spec fn in_reach(step: nat, frequency: nat, sample_rate: nat, i: nat) -> bool {
    i == 1 || (i >= 1 && (i - 1) % (step as int) == 0 && in_band(frequency, sample_rate, i))
}

/// Where harmonic `i` stands within its cycle at sample `phase`: the
/// fractional part of `i * frequency * phase / sample_rate` turns, in parts of
/// `sample_rate * HERTZ`.
pub open spec fn turn_of(frequency: nat, sample_rate: nat, phase: nat, i: nat) -> nat {
    ((i * frequency * phase) as int % (sample_rate * HERTZ) as int) as nat
}

/// What an oscillator hands out at a tick: the partials to be summed. The
/// partial of harmonic `i` is the sine of its turn, weighted by
/// `1 / i^exponent`; the sample is `gain` times the sum of the partials.
#[derive(Clone, Copy, Debug, PartialEq, Eq, Structural)]
pub struct Tone {
    pub sample_rate: u32,
    /// The sample index within the current second.
    pub phase: u32,
    pub frequency: Frequency,
    /// The distance between the harmonics.
    pub step: u32,
    /// The exponent in the weight of a harmonic.
    pub exponent: u32,
    /// The highest harmonic among the partials.
    pub last_harmonic: u64,
    pub gain: Gain,
}

impl Tone {
    /// Harmonic `i` is among the partials: from 1 to the last, in steps of
    /// `step`.
    pub open spec fn has(self, i: nat) -> bool {
        1 <= i <= self.last_harmonic && (i - 1) % (self.step as int) == 0
    }

    /// Where the given harmonic stands within its cycle, in parts of
    /// `sample_rate * HERTZ` of a turn.
    pub fn turn(&self, harmonic: u64) -> (turn: u64)
        requires
            self.sample_rate > 0,
        ensures
            turn == turn_of(
                self.frequency@ as nat,
                self.sample_rate as nat,
                self.phase as nat,
                harmonic as nat,
            ),
            turn < self.sample_rate * HERTZ,
    {
        let units: u64 = self.frequency.units();
        assert(self.sample_rate * HERTZ <= 0xffff_ffff * 0x1_0000_0000 && self.sample_rate * HERTZ
            > 0) by (nonlinear_arith)
            requires
                0 < self.sample_rate <= 0xffff_ffff,
                HERTZ == 0x1_0000_0000,
        ;
        let full: u128 = self.sample_rate as u128 * HERTZ as u128;
        assert(units * self.phase <= 0xffff_ffff_ffff_ffff * 0xffff_ffff) by (nonlinear_arith)
            requires
                units <= 0xffff_ffff_ffff_ffff,
                self.phase <= 0xffff_ffff,
        ;
        let base: u128 = (units as u128 * self.phase as u128) % full;
        assert(base * harmonic <= 0xffff_ffff_ffff_ffff * 0xffff_ffff_ffff_ffff)
            by (nonlinear_arith)
            requires
                base <= 0xffff_ffff_ffff_ffff,
                harmonic <= 0xffff_ffff_ffff_ffff,
        ;
        let turn: u128 = (base * harmonic as u128) % full;
        proof {
            lemma_mul_mod_noop_left(units * self.phase, harmonic as int, full as int);
            assert(units * self.phase * harmonic == harmonic * units * self.phase)
                by (nonlinear_arith);
        }
        turn as u64
    }
}

/// Where a positive `f` goes into `budget` `reach` times, `i * f` fits in the
/// budget exactly for `i` up to `reach`.
proof fn fits_up_to_reach(budget: nat, f: nat, i: nat)
    requires
        f > 0,
    ensures
        i * f <= budget <==> i <= budget / f,
{
    let reach: nat = budget / f;
    lemma_fundamental_div_mod(budget as int, f as int);
    assert(budget == f * reach + budget % f);
    assert(0 <= budget % f < f);
    if i <= reach {
        assert(i * f <= reach * f) by (nonlinear_arith)
            requires
                i <= reach,
        ;
        assert(reach * f == f * reach) by (nonlinear_arith);
    } else {
        assert(i * f >= (reach + 1) * f) by (nonlinear_arith)
            requires
                i >= reach + 1,
        ;
        assert((reach + 1) * f == f * reach + f) by (nonlinear_arith);
    }
}

/// Of the numbers `1`, `1 + step`, `1 + 2 * step` and so on, those up to
/// `reach` are those up to `reach - (reach - 1) % step`.
proof fn last_in_stride(reach: nat, step: nat, i: nat)
    requires
        step >= 1,
        reach >= 1,
        i >= 1,
        (i - 1) % (step as int) == 0,
    ensures
        i <= reach <==> i <= reach - (reach - 1) % (step as int),
        (reach - 1) % (step as int) <= reach - 1,
{
    let m: int = reach - 1;
    let d: int = step as int;
    let q: int = m / d;
    let r: int = m % d;
    let k: int = (i - 1) / d;
    lemma_fundamental_div_mod(m, d);
    lemma_fundamental_div_mod(i - 1, d);
    assert(0 <= r < d);
    assert(q >= 0) by (nonlinear_arith)
        requires
            m == d * q + r,
            m >= 0,
            0 <= r < d,
    ;
    if i <= reach && i > reach - r {
        assert(k > q) by (nonlinear_arith)
            requires
                d * k > d * q,
                d >= 1,
        ;
        assert(d * k >= d * q + d) by (nonlinear_arith)
            requires
                k >= q + 1,
                d >= 1,
        ;
    }
}

/// The highest harmonic that a sum in steps of `step` takes in.
pub fn last_harmonic(step: u32, frequency: Frequency, sample_rate: u32) -> (last: u64)
    requires
        step >= 1,
    ensures
        last >= 1,
        (last - 1) % (step as int) == 0,
        forall|i: nat| #[trigger]
            in_reach(step as nat, frequency@ as nat, sample_rate as nat, i) <==> 1 <= i <= last
                && (i - 1) % (step as int) == 0,
{
    let units: u64 = frequency.units();
    let budget: u64 = sample_rate as u64 * 0x8000_0000;
    let reach: u64 = budget / units;
    proof {
        lemma_small_mod(0, step as nat);
    }
    if reach <= 1 {
        assert forall|i: nat| #[trigger]
            in_reach(step as nat, frequency@ as nat, sample_rate as nat, i) <==> 1 <= i <= 1 && (i
                - 1) % (step as int) == 0 by {
            fits_up_to_reach(budget as nat, units as nat, i);
            assert(in_band(units as nat, sample_rate as nat, i) <==> i * units <= budget);
        }
        return 1;
    }
    proof {
        last_in_stride(reach as nat, step as nat, 1);
    }
    let over: u64 = (reach - 1) % step as u64;
    let last: u64 = reach - over;
    assert forall|i: nat| #[trigger]
        in_reach(step as nat, frequency@ as nat, sample_rate as nat, i) <==> 1 <= i <= last && (i
            - 1) % (step as int) == 0 by {
        fits_up_to_reach(budget as nat, units as nat, i);
        assert(in_band(units as nat, sample_rate as nat, i) <==> i * units <= budget);
        if i >= 1 && (i - 1) % (step as int) == 0 {
            last_in_stride(reach as nat, step as nat, i);
        }
    }
    assert((last - 1) % (step as int) == 0) by {
        lemma_fundamental_div_mod(reach - 1, step as int);
        lemma_mod_multiples_basic((reach - 1) / (step as int), step as int);
        assert(last - 1 == (step as int) * ((reach - 1) / (step as int)));
        assert((step as int) * ((reach - 1) / (step as int)) == ((reach - 1) / (step as int)) * (
        step as int)) by (nonlinear_arith);
    }
    last
}

/// An oscillator as a mathematical value.
pub struct Wave {
    /// Ticks per second.
    pub sample_rate: nat,
    pub waveform: Waveform,
    /// The sample index within the current second.
    pub phase: nat,
    /// The frequency in units of 2^-32 Hz.
    pub frequency: nat,
    /// The gain in 127ths.
    pub gain: nat,
}

impl Wave {
    /// The sample rate and the frequency are positive, the phase is below
    /// the sample rate, the gain is at most 1.
    pub open spec fn wf(self) -> bool {
        &&& self.sample_rate > 0
        &&& self.phase < self.sample_rate
        &&& self.frequency > 0
        &&& self.gain <= 127
    }

    /// Harmonic `i` is one of the partials: of a sine the fundamental alone,
    /// of the other shapes the harmonics in the shape's stride that are in
    /// band, and always the fundamental.
    pub open spec fn sounds(self, i: nat) -> bool {
        match self.waveform {
            Waveform::Sine => i == 1,
            _ => in_reach(self.waveform.stride(), self.frequency, self.sample_rate, i),
        }
    }

    /// Where harmonic `i` stands within its cycle, in parts of
    /// `sample_rate * HERTZ` of a turn. The partial of harmonic `i` is the
    /// sine of this share of a full turn.
    pub open spec fn turn(self, i: nat) -> nat {
        turn_of(self.frequency, self.sample_rate, self.phase, i)
    }

    /// The oscillator one sample later: the phase moves on by one and wraps
    /// at the sample rate.
    pub open spec fn advance(self) -> Wave {
        Wave { phase: (self.phase + 1) % self.sample_rate, ..self }
    }

    /// The oscillator `n` samples later.
    pub open spec fn advances(self, n: nat) -> Wave
        decreases n,
    {
        if n == 0 {
            self
        } else {
            self.advances((n - 1) as nat).advance()
        }
    }
}

impl Tone {
    /// The tone carries the sample rate, phase, frequency and gain of an
    /// oscillator in this state.
    pub open spec fn carries(self, wave: Wave) -> bool {
        &&& self.sample_rate == wave.sample_rate
        &&& self.phase == wave.phase
        &&& self.frequency@ == wave.frequency
        &&& self.gain@ == wave.gain
    }

    /// The tone is the one that an oscillator in this state hands out: it
    /// carries the state, steps and weighs as the shape does, and its
    /// partials are those that sound.
    pub open spec fn renders(self, wave: Wave) -> bool {
        &&& self.carries(wave)
        &&& self.step == wave.waveform.stride()
        &&& self.exponent == wave.waveform.rolloff()
        &&& self.has(self.last_harmonic as nat)
        &&& forall|i: nat| #[trigger] self.has(i) <==> wave.sounds(i)
    }
}

/// A band-limited oscillator.
#[derive(Debug)]
pub struct Oscillator {
    sample_rate: u32,
    waveform: Waveform,
    current_sample_index: u32,
    frequency: Frequency,
    gain: Gain,
}

impl View for Oscillator {
    type V = Wave;

    closed spec fn view(&self) -> Wave {
        Wave {
            sample_rate: self.sample_rate as nat,
            waveform: self.waveform,
            phase: self.current_sample_index as nat,
            frequency: self.frequency@ as nat,
            gain: self.gain@ as nat,
        }
    }
}

impl Oscillator {
    pub closed spec fn wf(&self) -> bool {
        self@.wf()
    }

    /// A well-formed oscillator has a well-formed value.
    pub proof fn wf_view(&self)
        requires
            self.wf(),
        ensures
            self@.wf(),
    {
    }

    /// An oscillator at phase 0, tuned to 440 Hz, with gain 0.
    pub fn new(sample_rate: u32, waveform: Waveform) -> (oscillator: Oscillator)
        requires
            sample_rate > 0,
        ensures
            oscillator.wf(),
            oscillator@ == (Wave {
                sample_rate: sample_rate as nat,
                waveform,
                phase: 0,
                frequency: 440 * HERTZ as nat,
                gain: 0,
            }),
    {
        let concert: Option<Frequency> = Frequency::from_hz(440);
        Oscillator {
            sample_rate,
            waveform,
            current_sample_index: 0,
            frequency: concert.unwrap(),
            gain: Gain::silent(),
        }
    }

    /// The frequency that the oscillator is tuned to.
    pub fn frequency(&self) -> (frequency: Frequency)
        ensures
            frequency@ == self@.frequency,
    {
        self.frequency
    }

    /// The current gain.
    pub fn gain(&self) -> (gain: Gain)
        ensures
            gain@ == self@.gain,
    {
        self.gain
    }

    /// The sample index within the current second.
    pub fn phase(&self) -> (phase: u32)
        ensures
            phase == self@.phase,
    {
        self.current_sample_index
    }

    /// The shape of the wave.
    pub fn waveform(&self) -> (waveform: Waveform)
        ensures
            waveform == self@.waveform,
    {
        self.waveform
    }

    /// Tunes the oscillator and sets its gain. The phase runs on.
    pub fn note_on(&mut self, freq: Frequency, gain: Gain)
        requires
            old(self).wf(),
        ensures
            final(self).wf(),
            final(self)@ == (Wave { frequency: freq@ as nat, gain: gain@ as nat, ..old(self)@ }),
    {
        proof {
            use_type_invariant(&freq);
            use_type_invariant(&gain);
        }
        self.frequency = freq;
        self.gain = gain;
    }

    /// Sets the gain to 0.
    pub fn note_off(&mut self)
        requires
            old(self).wf(),
        ensures
            final(self).wf(),
            final(self)@ == (Wave { gain: 0, ..old(self)@ }),
    {
        self.gain = Gain::silent();
    }

    /// Tunes the oscillator. The phase runs on.
    pub fn set_frequency(&mut self, frequency_hz: Frequency)
        requires
            old(self).wf(),
        ensures
            final(self).wf(),
            final(self)@ == (Wave { frequency: frequency_hz@ as nat, ..old(self)@ }),
    {
        proof {
            use_type_invariant(&frequency_hz);
        }
        self.frequency = frequency_hz;
    }

    /// Changes the shape, from the next tick on.
    pub fn set_waveform(&mut self, waveform: Waveform)
        requires
            old(self).wf(),
        ensures
            final(self).wf(),
            final(self)@ == (Wave { waveform, ..old(self)@ }),
    {
        self.waveform = waveform;
    }

    fn advance_sample(&mut self)
        requires
            old(self).wf(),
        ensures
            final(self).wf(),
            final(self)@ == old(self)@.advance(),
    {
        let next: u64 = self.current_sample_index as u64 + 1;
        self.current_sample_index = (next % self.sample_rate as u64) as u32;
    }

    /// Whether the given multiple of the oscillator's frequency exceeds half
    /// the sample rate.
    pub fn is_multiple_of_freq_above_nyquist(&self, multiple: u32) -> (above: bool)
        ensures
            above == !in_band(self@.frequency, self@.sample_rate, multiple as nat),
    {
        let units: u64 = self.frequency.units();
        assert(multiple * units <= 0xffff_ffff * 0xffff_ffff_ffff_ffff) by (nonlinear_arith)
            requires
                multiple <= 0xffff_ffff,
                units <= 0xffff_ffff_ffff_ffff,
        ;
        let doubled: u128 = 2 * (multiple as u128 * units as u128);
        assert(self.sample_rate * HERTZ <= 0xffff_ffff * 0x1_0000_0000) by (nonlinear_arith)
            requires
                self.sample_rate <= 0xffff_ffff,
                HERTZ == 0x1_0000_0000,
        ;
        doubled > self.sample_rate as u128 * HERTZ as u128
    }

    /// The phase moves on; the tone is the fundamental alone.
    fn sine_wave(&mut self) -> (tone: Tone)
        requires
            old(self).wf(),
        ensures
            final(self).wf(),
            final(self)@ == old(self)@.advance(),
            tone.carries(final(self)@),
            tone.step == 1,
            tone.exponent == 1,
            tone.last_harmonic == 1,
    {
        self.advance_sample();
        Tone {
            sample_rate: self.sample_rate,
            phase: self.current_sample_index,
            frequency: self.frequency,
            step: 1,
            exponent: 1,
            last_harmonic: 1,
            gain: self.gain,
        }
    }

    /// The phase moves on; the tone is the sum, in steps of the increment,
    /// of the harmonics that are in band, each weighted by
    /// `1 / i^gain_exponent`, and in any case of the fundamental.
    fn generative_waveform(&mut self, harmonic_index_increment: u32, gain_exponent: u32) -> (tone:
        Tone)
        requires
            old(self).wf(),
            harmonic_index_increment >= 1,
        ensures
            final(self).wf(),
            final(self)@ == old(self)@.advance(),
            tone.carries(final(self)@),
            tone.step == harmonic_index_increment,
            tone.exponent == gain_exponent,
            tone.has(tone.last_harmonic as nat),
            forall|i: nat| #[trigger]
                tone.has(i) <==> in_reach(
                    harmonic_index_increment as nat,
                    final(self)@.frequency,
                    final(self)@.sample_rate,
                    i,
                ),
    {
        self.advance_sample();
        let last: u64 = last_harmonic(harmonic_index_increment, self.frequency, self.sample_rate);
        let tone = Tone {
            sample_rate: self.sample_rate,
            phase: self.current_sample_index,
            frequency: self.frequency,
            step: harmonic_index_increment,
            exponent: gain_exponent,
            last_harmonic: last,
            gain: self.gain,
        };
        assert forall|i: nat| #[trigger]
            tone.has(i) <==> in_reach(
                harmonic_index_increment as nat,
                self@.frequency,
                self@.sample_rate,
                i,
            ) by {
            assert(in_reach(
                harmonic_index_increment as nat,
                self.frequency@ as nat,
                self.sample_rate as nat,
                i,
            ) <==> 1 <= i <= last && (i - 1) % (harmonic_index_increment as int) == 0);
        }
        tone
    }

    fn square_wave(&mut self) -> (tone: Tone)
        requires
            old(self).wf(),
        ensures
            final(self).wf(),
            final(self)@ == old(self)@.advance(),
            tone.carries(final(self)@),
            tone.step == 2,
            tone.exponent == 1,
            tone.has(tone.last_harmonic as nat),
            forall|i: nat| #[trigger]
                tone.has(i) <==> in_reach(2, final(self)@.frequency, final(self)@.sample_rate, i),
    {
        self.generative_waveform(2, 1)
    }

    fn saw_wave(&mut self) -> (tone: Tone)
        requires
            old(self).wf(),
        ensures
            final(self).wf(),
            final(self)@ == old(self)@.advance(),
            tone.carries(final(self)@),
            tone.step == 1,
            tone.exponent == 1,
            tone.has(tone.last_harmonic as nat),
            forall|i: nat| #[trigger]
                tone.has(i) <==> in_reach(1, final(self)@.frequency, final(self)@.sample_rate, i),
    {
        self.generative_waveform(1, 1)
    }

    fn triangle_wave(&mut self) -> (tone: Tone)
        requires
            old(self).wf(),
        ensures
            final(self).wf(),
            final(self)@ == old(self)@.advance(),
            tone.carries(final(self)@),
            tone.step == 2,
            tone.exponent == 2,
            tone.has(tone.last_harmonic as nat),
            forall|i: nat| #[trigger]
                tone.has(i) <==> in_reach(2, final(self)@.frequency, final(self)@.sample_rate, i),
    {
        self.generative_waveform(2, 2)
    }
}

impl Node for Oscillator {
    type Output = Tone;

    open spec fn ready(&self) -> bool {
        self.wf()
    }

    /// One tick: the phase moves on, and the partials of the shape at the
    /// new phase are handed out.
    fn tick(&mut self) -> (tone: Tone)
        ensures
            final(self)@ == old(self)@.advance(),
            tone.renders(final(self)@),
    {
        let tone: Tone = match self.waveform {
            Waveform::Sine => self.sine_wave(),
            Waveform::Square => self.square_wave(),
            Waveform::Saw => self.saw_wave(),
            Waveform::Triangle => self.triangle_wave(),
        };
        assert forall|i: nat| #[trigger] tone.has(i) <==> self@.sounds(i) by {
            if self.waveform != Waveform::Sine {
                assert(tone.has(i) <==> in_reach(
                    self@.waveform.stride(),
                    self@.frequency,
                    self@.sample_rate,
                    i,
                ));
            }
        }
        tone
    }
}

/// `n` ticks move the phase on by `n`, around the sample rate, and leave the
/// rest of the oscillator alone.
pub proof fn phase_after(wave: Wave, n: nat)
    requires
        wave.wf(),
    ensures
        wave.advances(n) == (Wave { phase: (wave.phase + n) % wave.sample_rate, ..wave }),
        wave.advances(n).wf(),
    decreases n,
{
    let rate = wave.sample_rate as int;
    if n == 0 {
        lemma_small_mod(wave.phase, wave.sample_rate);
    } else {
        phase_after(wave, (n - 1) as nat);
        lemma_add_mod_noop(wave.phase + n - 1, 1, rate);
        if rate == 1 {
            assert(1int % rate == 0);
        } else {
            lemma_small_mod(1, wave.sample_rate);
        }
        lemma_add_mod_noop(((wave.phase + n - 1) % rate), 1, rate);
    }
}

/// A second of ticks brings the phase back to where it was.
pub proof fn phase_repeats_each_second(wave: Wave)
    requires
        wave.wf(),
    ensures
        wave.advances(wave.sample_rate) == wave,
{
    phase_after(wave, wave.sample_rate);
    lemma_mod_multiples_vanish(1, wave.phase as int, wave.sample_rate as int);
    lemma_small_mod(wave.phase, wave.sample_rate);
}

/// An oscillator tuned to a whole number of hertz that goes into the sample
/// rate repeats itself after `sample_rate / hertz` ticks: every harmonic
/// stands where it stood within its cycle.
pub proof fn whole_cycles_repeat(wave: Wave, hertz: nat, period: nat, i: nat)
    requires
        wave.wf(),
        wave.frequency == hertz * HERTZ,
        hertz * period == wave.sample_rate,
    ensures
        wave.advances(period).turn(i) == wave.turn(i),
{
    phase_after(wave, period);
    let rate = wave.sample_rate as int;
    let full = rate * HERTZ;
    let later = (wave.phase + period) as int;
    let wrapped = later % rate;
    let laps = later / rate;
    lemma_fundamental_div_mod(later, rate);
    assert(later == rate * laps + wrapped);
    assert(full > 0) by (nonlinear_arith)
        requires
            full == rate * HERTZ,
            rate > 0,
            HERTZ > 0,
    ;
    let f = wave.frequency as int;
    // The wrapped phase differs from the unwrapped one by whole turns.
    assert(i * f * later == full * (i * hertz * laps) + i * f * wrapped) by (nonlinear_arith)
        requires
            later == rate * laps + wrapped,
            f == hertz * HERTZ,
            full == rate * HERTZ,
    ;
    lemma_mod_multiples_vanish(i * hertz * laps, i * f * wrapped, full);
    // The period itself is a whole number of turns.
    assert(i * f * later == full * i + i * f * wave.phase) by (nonlinear_arith)
        requires
            later == wave.phase + period,
            f == hertz * HERTZ,
            hertz * period == rate,
            full == rate * HERTZ,
    ;
    lemma_mod_multiples_vanish(i as int, i * f * wave.phase, full);
}

} // verus!
