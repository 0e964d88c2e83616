use polysynth::node::Node;
use polysynth::adsr::AdsrState;
use polysynth::oscillator::Waveform;
use polysynth::pitch::{Frequency, Gain, Velocity, HERTZ};
use polysynth::voice::{Voice, ATTACK_MS, DECAY_MS, RELEASE_MS, SUSTAIN};

fn gain(velocity: u8) -> Gain {
    Gain::from_velocity(Velocity::new(velocity).unwrap())
}

#[test]
fn new_voice_is_silent() {
    let voice = Voice::new(44100, Waveform::Saw);
    assert!(!voice.is_active());
    assert_eq!(voice.state(), AdsrState::Idle);
    assert_eq!(voice.level().parts, 0);
    assert_eq!(voice.frequency().units(), 440 * HERTZ);
}

#[test]
fn voice_envelope_has_the_fixed_times() {
    assert_eq!((ATTACK_MS, DECAY_MS, SUSTAIN, RELEASE_MS), (1100, 100, 700, 2100));
    let voice = Voice::new(1000, Waveform::Saw);
    assert_eq!(voice.level().unit, 1000 * 1100 * 100 * 2100 * 1000);
}

#[test]
fn note_on_tunes_and_starts_the_attack() {
    let mut voice = Voice::new(1000, Waveform::Square);
    voice.note_on(Frequency::from_hz(100).unwrap(), gain(64));
    assert!(voice.is_active());
    assert_eq!(voice.state(), AdsrState::Attack);
    assert_eq!(voice.frequency().units(), 100 * HERTZ);
    let frame = voice.tick();
    assert_eq!(frame.tone.phase, 1);
    assert_eq!((frame.tone.step, frame.tone.exponent), (2, 1));
    assert_eq!(frame.tone.frequency.units(), 100 * HERTZ);
    assert_eq!(frame.tone.gain.parts(), 64);
    assert_eq!(frame.tone.last_harmonic, 5);
    // one tick of 1100 at 1000 Hz
    assert_eq!(frame.level.parts * 1100, frame.level.unit);
}

#[test]
fn note_off_releases_the_envelope_and_leaves_the_oscillator() {
    let mut voice = Voice::new(1000, Waveform::Saw);
    voice.note_on(Frequency::from_hz(100).unwrap(), gain(64));
    for _ in 0..1300 {
        voice.tick();
    }
    assert_eq!(voice.state(), AdsrState::Sustain);
    voice.note_off();
    assert_eq!(voice.state(), AdsrState::Release);
    assert!(voice.is_active());
    let frame = voice.tick();
    assert_eq!(frame.tone.gain.parts(), 64);
    assert_eq!(frame.tone.frequency.units(), 100 * HERTZ);
    assert_eq!(frame.tone.phase, 301);
    // the sustain level less one release step: 0.7 - 0.7 / 2100
    assert_eq!(frame.level.parts * 1000 * 2100, frame.level.unit * 700 * 2099);
    for _ in 0..2099 {
        voice.tick();
    }
    assert_eq!(voice.state(), AdsrState::Idle);
    assert!(!voice.is_active());
    assert_eq!(voice.tick().level.parts, 0);
}

#[test]
fn oscillator_runs_while_the_voice_is_silent() {
    let mut voice = Voice::new(4, Waveform::Sine);
    let phases: Vec<u32> = (0..6).map(|_| voice.tick().tone.phase).collect();
    assert_eq!(phases, vec![1, 2, 3, 0, 1, 2]);
    assert!(!voice.is_active());
}
