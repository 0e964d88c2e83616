use polysynth::node::Node;
use polysynth::adsr::{Adsr, AdsrState, Level};
use polysynth::gate::Gate;

fn as_real(level: Level) -> f64 {
    level.parts as f64 / level.unit as f64
}

#[test]
fn new_envelope_is_idle_and_silent() {
    let adsr = Adsr::new(1000, 10, 20, 500, 40);
    assert_eq!(adsr.state(), AdsrState::Idle);
    assert_eq!(adsr.level(), Level { parts: 0, unit: 8_000_000_000 });
    assert_eq!(adsr.elapsed(), 0);
    assert_eq!(adsr.gate(), Gate::Low);
}

#[test]
fn idle_ticks_return_zero() {
    let mut adsr = Adsr::new(1000, 10, 20, 500, 40);
    for _ in 0..5 {
        assert_eq!(adsr.tick().parts, 0);
        assert_eq!(adsr.state(), AdsrState::Idle);
    }
    assert_eq!(adsr.elapsed(), 5);
}

#[test]
fn attack_adds_one_step_per_tick() {
    let mut adsr = Adsr::new(1000, 10, 20, 500, 40);
    adsr.note_on();
    assert_eq!(adsr.state(), AdsrState::Attack);
    assert_eq!(adsr.gate(), Gate::High);
    for k in 1..10u128 {
        let level = adsr.tick();
        assert_eq!(level.parts, k * 800_000_000);
        assert_eq!(level.unit, 8_000_000_000);
        assert_eq!(adsr.state(), AdsrState::Attack);
    }
    let level = adsr.tick();
    assert_eq!(level.parts, level.unit);
    assert_eq!(adsr.state(), AdsrState::Decay);
}

#[test]
fn decay_falls_to_the_sustain_level() {
    let mut adsr = Adsr::new(1000, 10, 20, 500, 40);
    adsr.note_on();
    for _ in 0..10 {
        adsr.tick();
    }
    assert_eq!(adsr.state(), AdsrState::Decay);
    for k in 1..20u128 {
        let level = adsr.tick();
        assert_eq!(level.parts, 8_000_000_000 - k * 200_000_000);
        assert_eq!(adsr.state(), AdsrState::Decay);
    }
    let level = adsr.tick();
    assert_eq!(level.parts, 4_000_000_000);
    assert_eq!(adsr.state(), AdsrState::Sustain);
    assert_eq!(as_real(level), 0.5);
}

#[test]
fn sustain_holds_until_note_off() {
    let mut adsr = Adsr::new(1000, 10, 20, 500, 40);
    adsr.note_on();
    for _ in 0..30 {
        adsr.tick();
    }
    for _ in 0..1000 {
        assert_eq!(adsr.tick().parts, 4_000_000_000);
        assert_eq!(adsr.state(), AdsrState::Sustain);
        assert_eq!(adsr.gate(), Gate::High);
    }
}

#[test]
fn release_falls_to_zero_and_idles() {
    let mut adsr = Adsr::new(1000, 10, 20, 500, 40);
    adsr.note_on();
    for _ in 0..30 {
        adsr.tick();
    }
    adsr.note_off();
    assert_eq!(adsr.state(), AdsrState::Release);
    assert_eq!(adsr.gate(), Gate::Low);
    assert_eq!(adsr.elapsed(), 0);
    for k in 1..40u128 {
        let level = adsr.tick();
        assert_eq!(level.parts, 4_000_000_000 - k * 100_000_000);
        assert_eq!(adsr.state(), AdsrState::Release);
    }
    assert_eq!(adsr.tick().parts, 0);
    assert_eq!(adsr.state(), AdsrState::Idle);
    assert_eq!(adsr.tick().parts, 0);
    assert_eq!(adsr.state(), AdsrState::Idle);
}

#[test]
fn attack_takes_time_times_rate_ticks() {
    // 1.1 s at 44100 Hz: 48510 ticks.
    let mut adsr = Adsr::new(44100, 1100, 100, 700, 2100);
    adsr.note_on();
    let mut ticks: u32 = 0;
    while adsr.state() == AdsrState::Attack {
        adsr.tick();
        ticks += 1;
    }
    assert_eq!(ticks, 48510);
    assert_eq!(adsr.state(), AdsrState::Decay);
    let level = adsr.level();
    assert_eq!(level.parts, level.unit);
}

#[test]
fn attack_of_a_fraction_of_a_tick_rounds_up() {
    // 1 ms at 44100 Hz is 44.1 ticks: the 45th reaches the top.
    let mut adsr = Adsr::new(44100, 1, 1, 700, 1);
    adsr.note_on();
    let mut ticks: u32 = 0;
    while adsr.state() == AdsrState::Attack {
        adsr.tick();
        ticks += 1;
    }
    assert_eq!(ticks, 45);
    assert_eq!(adsr.level().parts, adsr.level().unit);
}

#[test]
fn decay_takes_time_times_rate_ticks() {
    let mut adsr = Adsr::new(44100, 1100, 100, 700, 2100);
    adsr.note_on();
    while adsr.state() == AdsrState::Attack {
        adsr.tick();
    }
    let mut ticks: u32 = 0;
    while adsr.state() == AdsrState::Decay {
        adsr.tick();
        ticks += 1;
    }
    assert_eq!(ticks, 4410);
    assert_eq!(adsr.state(), AdsrState::Sustain);
    let level = adsr.level();
    assert_eq!(level.parts * 1000, level.unit * 700);
}

#[test]
fn amplitude_moves_one_way_in_each_segment() {
    let mut adsr = Adsr::new(8000, 7, 13, 333, 29);
    adsr.note_on();
    let mut previous = adsr.level();
    let mut released = false;
    for n in 0..2000u32 {
        if n == 600 {
            adsr.note_off();
            released = true;
        }
        let before = adsr.state();
        let level = adsr.tick();
        assert!(level.parts <= level.unit);
        match before {
            AdsrState::Attack => assert!(level.parts >= previous.parts),
            AdsrState::Decay | AdsrState::Release => assert!(level.parts <= previous.parts),
            AdsrState::Sustain => assert_eq!(level.parts, previous.parts),
            AdsrState::Idle => assert_eq!(level.parts, 0),
        }
        if before == AdsrState::Attack && adsr.state() == AdsrState::Decay {
            assert_eq!(level.parts, level.unit);
        }
        if before == AdsrState::Decay && adsr.state() == AdsrState::Sustain {
            assert_eq!(level.parts * 1000, level.unit * 333);
        }
        previous = level;
    }
    assert!(released);
    assert_eq!(adsr.state(), AdsrState::Idle);
}

#[test]
fn note_off_during_attack_releases_from_where_it_is() {
    let mut adsr = Adsr::new(1000, 10, 20, 500, 40);
    adsr.note_on();
    adsr.tick();
    adsr.tick();
    adsr.tick();
    adsr.note_off();
    assert_eq!(adsr.state(), AdsrState::Release);
    assert_eq!(adsr.level().parts, 2_400_000_000);
    assert_eq!(adsr.tick().parts, 2_300_000_000);
    let mut ticks: u32 = 1;
    while adsr.state() == AdsrState::Release {
        adsr.tick();
        ticks += 1;
    }
    assert_eq!(ticks, 24);
    assert_eq!(adsr.level().parts, 0);
}

#[test]
fn note_off_leaves_an_idle_envelope_idle() {
    let mut adsr = Adsr::new(1000, 10, 20, 500, 40);
    adsr.tick();
    adsr.tick();
    adsr.note_off();
    assert_eq!(adsr.state(), AdsrState::Idle);
    assert_eq!(adsr.elapsed(), 0);
    assert_eq!(adsr.tick().parts, 0);
    assert_eq!(adsr.state(), AdsrState::Idle);
}

#[test]
fn note_on_starts_again_from_silence() {
    let mut adsr = Adsr::new(1000, 10, 20, 500, 40);
    adsr.note_on();
    for _ in 0..30 {
        adsr.tick();
    }
    assert_eq!(adsr.level().parts, 4_000_000_000);
    adsr.note_on();
    assert_eq!(adsr.state(), AdsrState::Attack);
    assert_eq!(adsr.level().parts, 0);
    assert_eq!(adsr.elapsed(), 0);
    assert_eq!(adsr.tick().parts, 800_000_000);
}

#[test]
fn full_sustain_decays_in_one_tick() {
    let mut adsr = Adsr::new(1000, 2, 20, 1000, 40);
    adsr.note_on();
    adsr.tick();
    adsr.tick();
    assert_eq!(adsr.state(), AdsrState::Decay);
    let level = adsr.tick();
    assert_eq!(adsr.state(), AdsrState::Sustain);
    assert_eq!(level.parts, level.unit);
}

#[test]
fn zero_sustain_releases_in_one_tick() {
    let mut adsr = Adsr::new(1000, 2, 3, 0, 40);
    adsr.note_on();
    for _ in 0..5 {
        adsr.tick();
    }
    assert_eq!(adsr.state(), AdsrState::Sustain);
    assert_eq!(adsr.level().parts, 0);
    adsr.note_off();
    assert_eq!(adsr.tick().parts, 0);
    assert_eq!(adsr.state(), AdsrState::Idle);
}

#[test]
fn elapsed_counts_ticks_since_the_key_moved() {
    let mut adsr = Adsr::new(1000, 10, 20, 500, 40);
    adsr.note_on();
    for _ in 0..7 {
        adsr.tick();
    }
    assert_eq!(adsr.elapsed(), 7);
    adsr.note_off();
    assert_eq!(adsr.elapsed(), 0);
    adsr.tick();
    assert_eq!(adsr.elapsed(), 1);
}

#[test]
fn largest_parameters_do_not_overflow() {
    let mut adsr = Adsr::new(u32::MAX, u16::MAX, u16::MAX, 1000, u16::MAX);
    let unit: u128 = 1000 * 65535 * 65535 * 65535 * 4294967295;
    assert_eq!(adsr.level().unit, unit);
    adsr.note_on();
    let level = adsr.tick();
    assert_eq!(level.parts, 1_000_000 * 65535 * 65535);
    adsr.note_off();
    let level = adsr.tick();
    assert_eq!(level.parts, 1_000_000 * 65535 * 65535 - 1000 * 1000 * 65535 * 65535);
}
