use polysynth::pitch::{Frequency, Gain, Note, Velocity, HERTZ};

#[test]
fn note_numbers_end_at_127() {
    assert_eq!(Note::new(0).unwrap().number(), 0);
    assert_eq!(Note::new(127).unwrap().number(), 127);
    assert!(Note::new(128).is_none());
    assert!(Note::new(255).is_none());
}

#[test]
fn velocities_end_at_127() {
    assert_eq!(Velocity::new(127).unwrap().value(), 127);
    assert!(Velocity::new(128).is_none());
}

#[test]
fn gain_is_velocity_over_127() {
    assert_eq!(Gain::silent().parts(), 0);
    assert_eq!(Gain::from_velocity(Velocity::new(127).unwrap()).parts(), 127);
    assert_eq!(Gain::from_velocity(Velocity::new(64).unwrap()).parts(), 64);
}

#[test]
fn frequency_is_positive() {
    assert!(Frequency::new(0).is_none());
    assert!(Frequency::from_hz(0).is_none());
    assert_eq!(Frequency::new(1).unwrap().units(), 1);
    assert_eq!(Frequency::from_hz(440).unwrap().units(), 440 * HERTZ);
    assert_eq!(Frequency::from_hz(u32::MAX).unwrap().units(), 0xffff_ffff_0000_0000);
}

#[test]
fn single_bits_decode_exactly() {
    // 440.0
    assert_eq!(Frequency::from_single_bits(0x43DC_0000).unwrap().units(), 440 * HERTZ);
    // 1.0
    assert_eq!(Frequency::from_single_bits(0x3F80_0000).unwrap().units(), HERTZ);
    // 0.5
    assert_eq!(Frequency::from_single_bits(0x3F00_0000).unwrap().units(), HERTZ / 2);
    // 261.62558 (middle C in single precision): 0x4382D012
    assert_eq!(
        Frequency::from_single_bits(261.62558_f32.to_bits()).unwrap().units(),
        (261.62558_f32 as f64 * 4294967296.0) as u64
    );
}

#[test]
fn single_bits_out_of_range_are_refused() {
    // 0.0, -440.0, infinity, NaN
    assert!(Frequency::from_single_bits(0).is_none());
    assert!(Frequency::from_single_bits(0xC3DC_0000).is_none());
    assert!(Frequency::from_single_bits(0x7F80_0000).is_none());
    assert!(Frequency::from_single_bits(0x7FC0_0000).is_none());
    // 2^32 is too large, the number just below it is not
    assert!(Frequency::from_single_bits(0x4F80_0000).is_none());
    assert_eq!(
        Frequency::from_single_bits(0x4F7F_FFFF).unwrap().units(),
        0xffff_ff00_0000_0000
    );
    // 2^-9 is the smallest, the number just below it is refused
    assert_eq!(Frequency::from_single_bits(0x3B00_0000).unwrap().units(), 1 << 23);
    assert!(Frequency::from_single_bits(0x3AFF_FFFF).is_none());
}

#[test]
fn concert_pitch_is_440_hertz() {
    let a4 = Note::new(69).unwrap();
    assert_eq!(Frequency::of_note(a4).units(), 440 * HERTZ);
}

#[test]
fn notes_follow_the_equal_tempered_scale() {
    let mut previous: u64 = 0;
    for number in 0..128u8 {
        let units = Frequency::of_note(Note::new(number).unwrap()).units();
        let expected = 440.0_f64 * 2.0_f64.powf((number as f64 - 69.0) / 12.0);
        let got = units as f64 / 4294967296.0;
        assert!((got - expected).abs() / expected < 1e-6, "note {}: {} != {}", number, got, expected);
        assert!(units > previous);
        assert!(units >= 8 * HERTZ && units < 16384 * HERTZ);
        previous = units;
    }
}

#[test]
fn an_octave_doubles_the_frequency() {
    for number in 0..116u8 {
        let low = Frequency::of_note(Note::new(number).unwrap()).units() as f64;
        let high = Frequency::of_note(Note::new(number + 12).unwrap()).units() as f64;
        assert!((high / low - 2.0).abs() < 1e-6, "note {}", number);
    }
}
