use polysynth::adsr::AdsrState;
use polysynth::midi::{AppMessage, MidiMessage};
use polysynth::pitch::{Frequency, Note, Velocity, HERTZ};
use polysynth::synth::{Synth, VOICES};
use polysynth::voice::Frame;

fn note(number: u8) -> Note {
    Note::new(number).unwrap()
}

fn velocity(value: u8) -> Velocity {
    Velocity::new(value).unwrap()
}

fn slots(synth: &Synth) -> Vec<Option<(u8, u8)>> {
    (0..VOICES).map(|i| synth.assignment(i).map(|(n, v)| (n.number(), v.value()))).collect()
}

fn states(synth: &Synth) -> Vec<AdsrState> {
    synth.voices.iter().map(|voice| voice.state()).collect()
}

fn levels(synth: &Synth) -> Vec<u128> {
    synth.voices.iter().map(|voice| voice.level().parts).collect()
}

fn frequencies(synth: &Synth) -> Vec<u64> {
    synth.voices.iter().map(|voice| voice.frequency().units()).collect()
}

/// The sample of one frame as a real number.
fn sample(frame: &Frame) -> f64 {
    let tone = &frame.tone;
    let whole = tone.sample_rate as f64 * HERTZ as f64;
    let step = tone.step as usize;
    let exponent = tone.exponent as i32;
    let mut sum = 0.0;
    for harmonic in (1..=tone.last_harmonic).step_by(step) {
        let angle = 2.0 * std::f64::consts::PI * tone.turn(harmonic) as f64 / whole;
        sum += angle.sin() / (harmonic as f64).powi(exponent);
    }
    sum * (tone.gain.parts() as f64 / 127.0) * (frame.level.parts as f64 / frame.level.unit as f64)
}

#[test]
fn new_synth_has_four_free_silent_voices() {
    let mut synth = Synth::new(44100);
    assert_eq!(VOICES, 4);
    assert_eq!(slots(&synth), vec![None, None, None, None]);
    assert_eq!(states(&synth), vec![AdsrState::Idle; 4]);
    assert_eq!(synth.get_first_available_voice_map_index(), Some(0));
    let frames = synth.tick().frames;
    let shapes: Vec<(u32, u32)> =
        frames.iter().map(|frame| (frame.tone.step, frame.tone.exponent)).collect();
    assert_eq!(shapes, vec![(1, 1), (2, 1), (2, 2), (1, 1)]);
    let last: Vec<u64> = frames.iter().map(|frame| frame.tone.last_harmonic).collect();
    assert_eq!(last, vec![50, 49, 49, 1]);
    for frame in frames.iter() {
        assert_eq!(frame.level.parts, 0);
        assert_eq!(frame.tone.phase, 1);
        assert_eq!(sample(frame), 0.0);
    }
    assert_eq!(synth.tick().divisor, 4);
}

#[test]
fn notes_take_the_first_free_slot() {
    let mut synth = Synth::new(44100);
    synth.note_on(note(60), velocity(100));
    assert_eq!(slots(&synth), vec![Some((60, 100)), None, None, None]);
    assert_eq!(
        states(&synth),
        vec![AdsrState::Attack, AdsrState::Idle, AdsrState::Idle, AdsrState::Idle]
    );
    synth.note_on(note(64), velocity(90));
    synth.note_on(note(67), velocity(80));
    assert_eq!(slots(&synth), vec![Some((60, 100)), Some((64, 90)), Some((67, 80)), None]);
    assert_eq!(synth.get_first_available_voice_map_index(), Some(3));
    assert_eq!(synth.get_active_voice_map_index(note(64)), Some(1));
    assert_eq!(synth.get_active_voice_map_index(note(65)), None);
    assert_eq!(synth.voices[1].frequency().units(), Frequency::of_note(note(64)).units());
    let frames = synth.tick().frames;
    assert_eq!(frames[0].tone.gain.parts(), 100);
    assert_eq!(frames[1].tone.gain.parts(), 90);
    assert_eq!(frames[2].tone.gain.parts(), 80);
    assert_eq!(frames[3].tone.gain.parts(), 0);
}

#[test]
fn fifth_note_is_dropped() {
    let mut synth = Synth::new(44100);
    for (i, number) in [60u8, 62, 64, 65].iter().enumerate() {
        synth.note_on(note(*number), velocity(100 + i as u8));
    }
    let full = vec![Some((60, 100)), Some((62, 101)), Some((64, 102)), Some((65, 103))];
    assert_eq!(slots(&synth), full);
    assert_eq!(synth.get_first_available_voice_map_index(), None);
    for _ in 0..10 {
        synth.tick();
    }
    let before = (states(&synth), levels(&synth), frequencies(&synth));
    synth.note_on(note(67), velocity(127));
    assert_eq!(slots(&synth), full);
    assert_eq!(synth.get_active_voice_map_index(note(67)), None);
    assert_eq!((states(&synth), levels(&synth), frequencies(&synth)), before);
    let active = synth.voices.iter().filter(|voice| voice.is_active()).count();
    assert_eq!(active, 4);
}

#[test]
fn held_a4_settles_at_the_sustain_level() {
    let mut synth = Synth::new(44100);
    synth.note_on(note(69), velocity(127));
    let attack: u32 = 48510;
    let decay: u32 = 4410;
    for n in 1..=(attack + decay + 1000) {
        let frames = synth.tick().frames;
        assert_eq!(frames[0].tone.frequency.units(), 440 * HERTZ);
        assert_eq!(frames[0].tone.gain.parts(), 127);
        let state = synth.voices[0].state();
        if n < attack {
            assert_eq!(state, AdsrState::Attack);
        } else if n == attack {
            assert_eq!(state, AdsrState::Decay);
            assert_eq!(frames[0].level.parts, frames[0].level.unit);
        } else if n < attack + decay {
            assert_eq!(state, AdsrState::Decay);
        } else {
            assert_eq!(state, AdsrState::Sustain);
            assert_eq!(frames[0].level.parts * 1000, frames[0].level.unit * 700);
        }
    }
    assert_eq!(slots(&synth), vec![Some((69, 127)), None, None, None]);
}

#[test]
fn note_off_of_an_unassigned_note_changes_nothing() {
    let mut synth = Synth::new(44100);
    synth.note_on(note(60), velocity(100));
    synth.note_on(note(64), velocity(100));
    for _ in 0..100 {
        synth.tick();
    }
    let before = (slots(&synth), states(&synth), levels(&synth), frequencies(&synth));
    synth.note_off(note(61), velocity(0));
    synth.note_off(note(0), velocity(127));
    synth.note_off(note(127), velocity(64));
    assert_eq!((slots(&synth), states(&synth), levels(&synth), frequencies(&synth)), before);
    let mut fresh = Synth::new(44100);
    fresh.note_off(note(60), velocity(0));
    assert_eq!(slots(&fresh), vec![None, None, None, None]);
    assert_eq!(states(&fresh), vec![AdsrState::Idle; 4]);
}

#[test]
fn note_off_frees_the_slot_and_releases_the_voice() {
    let mut synth = Synth::new(44100);
    synth.note_on(note(60), velocity(100));
    synth.note_on(note(64), velocity(101));
    synth.note_on(note(67), velocity(102));
    for _ in 0..100 {
        synth.tick();
    }
    synth.note_off(note(64), velocity(0));
    assert_eq!(slots(&synth), vec![Some((60, 100)), None, Some((67, 102)), None]);
    assert_eq!(
        states(&synth),
        vec![AdsrState::Attack, AdsrState::Release, AdsrState::Attack, AdsrState::Idle]
    );
    assert!(synth.voices[1].is_active());
    // the oscillator of the released voice keeps its tuning and gain
    let frames = synth.tick().frames;
    assert_eq!(frames[1].tone.frequency.units(), Frequency::of_note(note(64)).units());
    assert_eq!(frames[1].tone.gain.parts(), 101);
}

#[test]
fn freed_slot_is_taken_again_first() {
    let mut synth = Synth::new(44100);
    for number in [60u8, 62, 64, 65] {
        synth.note_on(note(number), velocity(100));
    }
    for _ in 0..100 {
        synth.tick();
    }
    synth.note_off(note(62), velocity(0));
    synth.tick();
    assert_eq!(synth.voices[1].state(), AdsrState::Release);
    synth.note_on(note(72), velocity(50));
    assert_eq!(slots(&synth), vec![Some((60, 100)), Some((72, 50)), Some((64, 100)), Some((65, 100))]);
    assert_eq!(synth.voices[1].state(), AdsrState::Attack);
    assert_eq!(synth.voices[1].level().parts, 0);
    assert_eq!(synth.voices[1].frequency().units(), Frequency::of_note(note(72)).units());
}

#[test]
fn same_note_twice_takes_two_slots_and_frees_them_in_order() {
    let mut synth = Synth::new(44100);
    synth.note_on(note(60), velocity(10));
    synth.note_on(note(60), velocity(20));
    assert_eq!(slots(&synth), vec![Some((60, 10)), Some((60, 20)), None, None]);
    synth.note_off(note(60), velocity(0));
    assert_eq!(slots(&synth), vec![None, Some((60, 20)), None, None]);
    assert_eq!(synth.voices[0].state(), AdsrState::Release);
    assert_eq!(synth.voices[1].state(), AdsrState::Attack);
    synth.note_off(note(60), velocity(0));
    assert_eq!(slots(&synth), vec![None, None, None, None]);
    assert_eq!(synth.voices[1].state(), AdsrState::Release);
}

#[test]
fn notes_match_by_number_and_by_frequency_alike() {
    // No two notes share a frequency, so a slot holds a note's number
    // exactly if it holds the note's frequency.
    for held in 0..128u8 {
        let mut synth = Synth::new(44100);
        synth.note_on(note(held), velocity(100));
        let tuned = synth.voices[0].frequency().units();
        for other in 0..128u8 {
            let same_frequency = Frequency::of_note(note(other)).units() == tuned;
            assert_eq!(synth.get_active_voice_map_index(note(other)).is_some(), same_frequency);
            assert_eq!(same_frequency, other == held);
        }
    }
}

#[test]
fn messages_are_applied_as_note_events() {
    let mut synth = Synth::new(44100);
    synth.handle(AppMessage::MidiMessage(MidiMessage::NoteOn(note(60), velocity(100))));
    synth.handle(AppMessage::MidiMessage(MidiMessage::NoteOn(note(62), velocity(90))));
    assert_eq!(slots(&synth), vec![Some((60, 100)), Some((62, 90)), None, None]);
    synth.handle(AppMessage::MidiMessage(MidiMessage::NoteOff(note(60), velocity(0))));
    assert_eq!(slots(&synth), vec![None, Some((62, 90)), None, None]);
    assert_eq!(synth.voices[0].state(), AdsrState::Release);
}

#[test]
fn tick_advances_every_voice() {
    let mut synth = Synth::new(8);
    synth.note_on(note(69), velocity(127));
    for n in 1..=20u32 {
        let frames = synth.tick().frames;
        for frame in frames.iter() {
            assert_eq!(frame.tone.phase, n % 8);
            assert_eq!(frame.tone.sample_rate, 8);
        }
        assert_eq!(frames[0].level.parts, synth.voices[0].level().parts);
        assert_eq!(frames[1].level.parts, 0);
    }
}

#[test]
fn mix_stays_within_one_voice_of_silence() {
    // One voice of four sounds: the mix is a quarter of its sample.
    let mut synth = Synth::new(44100);
    synth.note_on(note(69), velocity(127));
    let mut loudest: f64 = 0.0;
    for _ in 0..2000 {
        let mixed = synth.tick();
        assert_eq!(mixed.divisor, 4);
        let frames = mixed.frames;
        let mix: f64 = frames.iter().map(sample).sum::<f64>() / mixed.divisor as f64;
        assert_eq!(mix, sample(&frames[0]) / 4.0);
        loudest = loudest.max(mix.abs());
    }
    assert!(loudest > 0.0);
    assert!(loudest < 1.0);
}
