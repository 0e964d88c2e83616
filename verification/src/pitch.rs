//! Notes, velocities, gains and frequencies.

use vstd::prelude::*;
use vstd::arithmetic::power2::{
    lemma2_to64, lemma2_to64_rest, lemma_pow2_pos, lemma_pow2_strictly_increases, pow2,
};
use vstd::bits::lemma_u64_shl_is_mul;

verus! {

/// Number of frequency units in one hertz: frequencies are 32.32 fixed point.
pub const HERTZ: u64 = 0x1_0000_0000;

/// A MIDI note number, 0 to 127.
#[derive(Clone, Copy, Debug, PartialEq, Eq, Structural)]
pub struct Note {
    number: u8,
}

impl View for Note {
    type V = u8;

    closed spec fn view(&self) -> u8 {
        self.number
    }
}

impl Note {
    /// Every note number is below 128.
    #[verifier::type_invariant]
    pub open spec fn in_range(self) -> bool {
        self@ < 128
    }

    /// The note with this number, if the number is a note's.
    pub fn new(number: u8) -> (note: Option<Note>)
        ensures
            note.is_some() == (number < 128),
            note matches Some(n) ==> n@ == number,
    {
        if number < 128 {
            Some(Note { number })
        } else {
            None
        }
    }

    pub fn number(&self) -> (number: u8)
        ensures
            number == self@,
            number < 128,
    {
        proof {
            use_type_invariant(self);
        }
        self.number
    }
}

/// A MIDI key velocity, 0 to 127.
#[derive(Clone, Copy, Debug, PartialEq, Eq, Structural)]
pub struct Velocity {
    value: u8,
}

impl View for Velocity {
    type V = u8;

    closed spec fn view(&self) -> u8 {
        self.value
    }
}

impl Velocity {
    /// Every velocity is below 128.
    #[verifier::type_invariant]
    pub open spec fn in_range(self) -> bool {
        self@ < 128
    }

    /// The velocity with this value, if the value is a velocity's.
    pub fn new(value: u8) -> (velocity: Option<Velocity>)
        ensures
            velocity.is_some() == (value < 128),
            velocity matches Some(v) ==> v@ == value,
    {
        if value < 128 {
            Some(Velocity { value })
        } else {
            None
        }
    }

    pub fn value(&self) -> (value: u8)
        ensures
            value == self@,
            value < 128,
    {
        proof {
            use_type_invariant(self);
        }
        self.value
    }
}

/// A linear gain between 0 and 1, held as a count of 127ths.
#[derive(Clone, Copy, Debug, PartialEq, Eq, Structural)]
pub struct Gain {
    parts: u8,
}

impl View for Gain {
    type V = u8;

    /// The numerator: the gain is `self@ / 127`.
    closed spec fn view(&self) -> u8 {
        self.parts
    }
}

impl Gain {
    /// Every gain is at most 127 parts of 127.
    #[verifier::type_invariant]
    pub open spec fn in_range(self) -> bool {
        self@ <= 127
    }

    /// Gain 0.
    pub fn silent() -> (gain: Gain)
        ensures
            gain@ == 0,
    {
        Gain { parts: 0 }
    }

    /// The gain `velocity / 127`.
    pub fn from_velocity(velocity: Velocity) -> (gain: Gain)
        ensures
            gain@ == velocity@,
    {
        Gain { parts: velocity.value() }
    }

    /// The numerator over 127.
    pub fn parts(&self) -> (parts: u8)
        ensures
            parts == self@,
            parts <= 127,
    {
        proof {
            use_type_invariant(self);
        }
        self.parts
    }
}

/// Exponent field of a single-precision bit pattern.
pub open spec fn single_exponent(bits: u32) -> nat {
    (bits as nat / 0x80_0000) % 0x100
}

/// Fraction field of a single-precision bit pattern.
pub open spec fn single_fraction(bits: u32) -> nat {
    bits as nat % 0x80_0000
}

/// The bit pattern is that of a single-precision number `x` with
/// `2^-9 <= x < 2^32`: positive, and a whole number of frequency units.
pub open spec fn single_in_range(bits: u32) -> bool {
    bits < 0x8000_0000 && 118 <= single_exponent(bits) <= 158
}

/// The value of a bit pattern that is `single_in_range`, in frequency units:
/// `(2^23 + fraction) * 2^(exponent - 150)` hertz, times 2^32.
pub open spec fn single_units(bits: u32) -> nat {
    (0x80_0000 + single_fraction(bits)) * pow2((single_exponent(bits) - 118) as nat)
}

/// A positive frequency below 2^32 Hz, in units of 2^-32 Hz.
#[derive(Clone, Copy, Debug, PartialEq, Eq, Structural)]
pub struct Frequency {
    units: u64,
}

impl View for Frequency {
    type V = u64;

    /// The frequency in units of 2^-32 Hz.
    closed spec fn view(&self) -> u64 {
        self.units
    }
}

impl Frequency {
    /// Every frequency is positive.
    #[verifier::type_invariant]
    pub open spec fn positive(self) -> bool {
        self@ > 0
    }

    /// The frequency of so many units of 2^-32 Hz, if there is at least one.
    pub fn new(units: u64) -> (frequency: Option<Frequency>)
        ensures
            frequency.is_some() == (units > 0),
            frequency matches Some(f) ==> f@ == units,
    {
        if units > 0 {
            Some(Frequency { units })
        } else {
            None
        }
    }

    /// A whole number of hertz, if it is not zero.
    pub fn from_hz(hz: u32) -> (frequency: Option<Frequency>)
        ensures
            frequency.is_some() == (hz > 0),
            frequency matches Some(f) ==> f@ == hz * HERTZ,
    {
        if hz > 0 {
            assert(hz * HERTZ <= 0xffff_ffff * 0x1_0000_0000) by (nonlinear_arith)
                requires
                    hz <= 0xffff_ffff,
                    HERTZ == 0x1_0000_0000,
            ;
            Some(Frequency { units: hz as u64 * HERTZ })
        } else {
            None
        }
    }

    /// The frequency that a single-precision bit pattern stands for, where it
    /// is one: the pattern of a number from 2^-9 up to, not including, 2^32.
    pub fn from_single_bits(bits: u32) -> (frequency: Option<Frequency>)
        ensures
            frequency.is_some() == single_in_range(bits),
            frequency matches Some(f) ==> f@ == single_units(bits),
    {
        if bits >= 0x8000_0000 {
            return None;
        }
        let exponent: u32 = bits / 0x80_0000;
        let fraction: u32 = bits % 0x80_0000;
        assert(exponent == single_exponent(bits));
        if exponent < 118 || exponent > 158 {
            return None;
        }
        let significand: u64 = 0x80_0000 + fraction as u64;
        let shift: u64 = (exponent - 118) as u64;
        proof {
            lemma2_to64();
            lemma2_to64_rest();
            if shift < 40 {
                lemma_pow2_strictly_increases(shift as nat, 40);
            }
            assert(significand * pow2(shift as nat) <= 0xff_ffff * 0x100_0000_0000) by (nonlinear_arith)
                requires
                    significand <= 0xff_ffff,
                    pow2(shift as nat) <= 0x100_0000_0000,
            ;
            lemma_u64_shl_is_mul(significand, shift);
            assert(significand * pow2(shift as nat) > 0) by (nonlinear_arith)
                requires
                    significand > 0,
                    pow2(shift as nat) > 0,
            ;
        }
        Some(Frequency { units: significand << shift })
    }

    /// The frequency in units of 2^-32 Hz.
    pub fn units(&self) -> (units: u64)
        ensures
            units == self@,
            units > 0,
    {
        proof {
            use_type_invariant(self);
        }
        self.units
    }
}

/// Bit pattern of the single-precision frequency, in hertz, that `wmidi`
/// tabulates for the note of this number under A440 tuning.
pub uninterp spec fn tabulated_pitch(note: u8) -> u32;

/// `wmidi::Note::to_freq_f32`, on the note with the given number, its result
/// taken as bits. The contract names the table entry and claims of it only
/// that it lies between 8 Hz and 16384 Hz, as every entry of the table does.
#[verifier::external_body]
fn tabulated_pitch_bits(note: u8) -> (bits: u32)
    requires
        note < 128,
    ensures
        bits == tabulated_pitch(note),
        0x4100_0000 <= bits < 0x4680_0000,
{
    wmidi::Note::from_u8_lossy(note).to_freq_f32().to_bits()
}

/// The frequency of the note of this number, in units of 2^-32 Hz.
pub open spec fn note_units(note: u8) -> nat {
    single_units(tabulated_pitch(note))
}

impl Frequency {
    /// The equal-tempered frequency of a note, as `wmidi` tabulates it.
    pub fn of_note(note: Note) -> (frequency: Frequency)
        ensures
            frequency@ == note_units(note@),
            8 * HERTZ <= frequency@ < 16384 * HERTZ,
    {
        let bits: u32 = tabulated_pitch_bits(note.number());
        let decoded: Option<Frequency> = Frequency::from_single_bits(bits);
        proof {
            lemma_pitch_units(bits);
        }
        decoded.unwrap()
    }
}

/// The value of a bit pattern is positive, whatever the pattern.
pub proof fn single_units_are_positive(bits: u32)
    ensures
        single_units(bits) > 0,
{
    let p: nat = pow2((single_exponent(bits) - 118) as nat);
    lemma_pow2_pos((single_exponent(bits) - 118) as nat);
    assert((0x80_0000 + single_fraction(bits)) * p > 0) by (nonlinear_arith)
        requires
            p > 0,
    ;
}

/// A pattern between those of 8.0 and 16384.0 stands for a frequency between
/// 8 Hz and 16384 Hz.
proof fn lemma_pitch_units(bits: u32)
    requires
        0x4100_0000 <= bits < 0x4680_0000,
    ensures
        single_in_range(bits),
        8 * HERTZ <= single_units(bits) < 16384 * HERTZ,
{
    let e: nat = single_exponent(bits);
    let f: nat = single_fraction(bits);
    assert(130 <= e <= 140);
    assert(f < 0x80_0000);
    lemma2_to64();
    let k: nat = (e - 118) as nat;
    assert(12 <= k <= 22);
    if k > 12 {
        lemma_pow2_strictly_increases(12, k);
    }
    if k < 22 {
        lemma_pow2_strictly_increases(k, 22);
    }
    assert(pow2(12) == 0x1000);
    assert(pow2(22) == 0x40_0000);
    let p: nat = pow2(k);
    assert((0x80_0000 + f) * p >= 0x80_0000 * 0x1000) by (nonlinear_arith)
        requires
            p >= 0x1000,
    ;
    assert((0x80_0000 + f) * p < 0x100_0000 * 0x40_0000) by (nonlinear_arith)
        requires
            p <= 0x40_0000,
            f < 0x80_0000,
    ;
}

} // verus!
