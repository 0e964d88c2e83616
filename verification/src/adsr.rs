//! The attack-decay-sustain-release envelope.
//!
//! Amplitudes are exact fractions. An envelope with attack, decay and release
//! times `a`, `d`, `r` (milliseconds) at `n` samples per second counts its
//! amplitude in parts of `1000 * a * d * r * n`, in which every per-tick step
//! and the sustain level are whole numbers.

use vstd::prelude::*;
use crate::gate::Gate;
use crate::node::Node;

verus! {

/// The segment that an envelope is in.
#[derive(Clone, Copy, Debug, PartialEq, Eq, Structural)]
pub enum AdsrState {
    Idle,
    Attack,
    Decay,
    Sustain,
    Release,
}

/// The largest tick count that an envelope keeps; the count stays there.
pub const ELAPSED_MAX: u64 = 0xffff_ffff_ffff_ffff;

/// An envelope as a mathematical value.
pub struct Envelope {
    /// Attack time in milliseconds.
    pub attack_ms: nat,
    /// Decay time in milliseconds.
    pub decay_ms: nat,
    /// Sustain level in thousandths.
    pub sustain: nat,
    /// Release time in milliseconds.
    pub release_ms: nat,
    /// Ticks per second.
    pub sample_rate: nat,
    pub state: AdsrState,
    /// The amplitude, in parts of `unit()`.
    pub level: nat,
    /// Ticks since the key last went down or up, up to `ELAPSED_MAX`.
    pub elapsed: nat,
}

impl Envelope {
    /// The level that stands for amplitude 1.
    pub open spec fn unit(self) -> nat {
        1000 * self.attack_ms * self.decay_ms * self.release_ms * self.sample_rate
    }

    /// What a tick adds during attack: `1 / (attack time * sample rate)`.
    pub open spec fn attack_step(self) -> nat {
        1_000_000 * self.decay_ms * self.release_ms
    }

    /// What a tick takes during decay:
    /// `(1 - sustain level) / (decay time * sample rate)`.
    pub open spec fn decay_step(self) -> nat {
        1000 * (1000 - self.sustain) as nat * self.attack_ms * self.release_ms
    }

    /// What a tick takes during release:
    /// `sustain level / (release time * sample rate)`.
    pub open spec fn release_step(self) -> nat {
        1000 * self.sustain * self.attack_ms * self.decay_ms
    }

    /// The level that stands for the sustain level.
    pub open spec fn sustain_level(self) -> nat {
        self.sustain * self.attack_ms * self.decay_ms * self.release_ms * self.sample_rate
    }

    /// The times and the sample rate are positive and the sustain level is at
    /// most 1.
    pub open spec fn configured(self) -> bool {
        &&& self.attack_ms > 0
        &&& self.decay_ms > 0
        &&& self.release_ms > 0
        &&& self.sample_rate > 0
        &&& self.sustain <= 1000
    }

    /// The amplitude is in the range of the segment: 0 when idle, at most 1
    /// always, at least the sustain level during decay, the sustain level
    /// during sustain.
    pub open spec fn wf(self) -> bool {
        &&& self.configured()
        &&& self.level <= self.unit()
        &&& self.elapsed <= ELAPSED_MAX
        &&& self.state == AdsrState::Idle ==> self.level == 0
        &&& self.state == AdsrState::Decay ==> self.level >= self.sustain_level()
        &&& self.state == AdsrState::Sustain ==> self.level == self.sustain_level()
    }

    /// The tick count after one more tick.
    pub open spec fn elapsed_next(self) -> nat {
        if self.elapsed < ELAPSED_MAX {
            self.elapsed + 1
        } else {
            self.elapsed
        }
    }

    /// The envelope after one tick.
    pub open spec fn tick(self) -> Envelope {
        let elapsed = self.elapsed_next();
        match self.state {
            AdsrState::Idle => Envelope { level: 0, elapsed, ..self },
            AdsrState::Attack => if self.level + self.attack_step() >= self.unit() {
                Envelope { level: self.unit(), state: AdsrState::Decay, elapsed, ..self }
            } else {
                Envelope { level: self.level + self.attack_step(), elapsed, ..self }
            },
            AdsrState::Decay => if self.level <= self.sustain_level() + self.decay_step() {
                Envelope { level: self.sustain_level(), state: AdsrState::Sustain, elapsed, ..self }
            } else {
                Envelope { level: (self.level - self.decay_step()) as nat, elapsed, ..self }
            },
            AdsrState::Sustain => Envelope { level: self.sustain_level(), elapsed, ..self },
            AdsrState::Release => if self.level <= self.release_step() {
                Envelope { level: 0, state: AdsrState::Idle, elapsed, ..self }
            } else {
                Envelope { level: (self.level - self.release_step()) as nat, elapsed, ..self }
            },
        }
    }

    /// The envelope after `n` ticks.
    pub open spec fn ticks(self, n: nat) -> Envelope
        decreases n,
    {
        if n == 0 {
            self
        } else {
            self.ticks((n - 1) as nat).tick()
        }
    }

    /// The envelope after its key went down: attack starts from silence.
    pub open spec fn note_on(self) -> Envelope {
        Envelope { state: AdsrState::Attack, level: 0, elapsed: 0, ..self }
    }

    /// The envelope after its key went up: release starts at once, unless the
    /// envelope is idle.
    pub open spec fn note_off(self) -> Envelope {
        if self.state == AdsrState::Idle {
            Envelope { elapsed: 0, ..self }
        } else {
            Envelope { state: AdsrState::Release, elapsed: 0, ..self }
        }
    }

    /// The ticks that a whole attack takes: attack time times sample rate,
    /// rounded up.
    pub open spec fn attack_ticks(self) -> nat {
        (self.attack_ms * self.sample_rate + 999) / 1000
    }

    /// The ticks that a whole decay takes: decay time times sample rate,
    /// rounded up; one tick where the sustain level is 1.
    pub open spec fn decay_ticks(self) -> nat {
        if self.sustain == 1000 {
            1
        } else {
            (self.decay_ms * self.sample_rate + 999) / 1000
        }
    }

    /// The key is held: the envelope is in attack, decay or sustain.
    pub open spec fn held(self) -> bool {
        self.state == AdsrState::Attack || self.state == AdsrState::Decay || self.state
            == AdsrState::Sustain
    }
}

/// An amplitude between 0 and 1 as the fraction `parts / unit`.
#[derive(Clone, Copy, Debug, PartialEq, Eq, Structural)]
pub struct Level {
    pub parts: u128,
    pub unit: u128,
}

/// An attack-decay-sustain-release envelope, clocked by its ticks.
#[derive(Debug)]
pub struct Adsr {
    attack_ms: u16,
    decay_ms: u16,
    sustain: u16,
    release_ms: u16,
    sample_rate: u32,
    state: AdsrState,
    level: u128,
    elapsed: u64,
    unit: u128,
    attack_step: u128,
    decay_step: u128,
    release_step: u128,
    sustain_level: u128,
}

impl View for Adsr {
    type V = Envelope;

    closed spec fn view(&self) -> Envelope {
        Envelope {
            attack_ms: self.attack_ms as nat,
            decay_ms: self.decay_ms as nat,
            sustain: self.sustain as nat,
            release_ms: self.release_ms as nat,
            sample_rate: self.sample_rate as nat,
            state: self.state,
            level: self.level as nat,
            elapsed: self.elapsed as nat,
        }
    }
}

/// The largest level that an envelope can count: 2^90.
pub const LEVEL_MAX: u128 = 0x400_0000_0000_0000_0000_0000;

/// The product of four factors, three of them below 2^16 and one below 2^32.
fn product(a: u16, b: u16, c: u16, n: u32) -> (p: u128)
    ensures
        p == a * b * c * n,
        p < 0x1_0000_0000_0000_0000_0000,
{
    assert(a * b < 0x1_0000_0000) by (nonlinear_arith)
        requires
            a < 0x1_0000,
            b < 0x1_0000,
    ;
    let ab: u128 = a as u128 * b as u128;
    assert(ab * c < 0x1_0000_0000_0000) by (nonlinear_arith)
        requires
            ab < 0x1_0000_0000,
            c < 0x1_0000,
    ;
    let abc: u128 = ab * c as u128;
    assert(abc * n < 0x1_0000_0000_0000_0000_0000) by (nonlinear_arith)
        requires
            abc < 0x1_0000_0000_0000,
            n < 0x1_0000_0000,
    ;
    abc * n as u128
}

/// The product of two factors below 2^16.
fn pair_product(a: u16, b: u16) -> (p: u128)
    ensures
        p == a * b,
        p < 0x1_0000_0000,
{
    assert(a * b < 0x1_0000_0000) by (nonlinear_arith)
        requires
            a < 0x1_0000,
            b < 0x1_0000,
    ;
    a as u128 * b as u128
}

impl Adsr {
    /// The model is well formed and the cached steps are those of the model.
    pub closed spec fn wf(&self) -> bool {
        &&& self@.wf()
        &&& self.unit == self@.unit()
        &&& self.attack_step == self@.attack_step()
        &&& self.decay_step == self@.decay_step()
        &&& self.release_step == self@.release_step()
        &&& self.sustain_level == self@.sustain_level()
        &&& self.unit < LEVEL_MAX
        &&& self.attack_step < LEVEL_MAX
        &&& self.decay_step < LEVEL_MAX
    }

    /// A well-formed envelope has a well-formed value.
    pub proof fn wf_view(&self)
        requires
            self.wf(),
        ensures
            self@.wf(),
    {
    }

    /// An idle envelope. Times are in milliseconds, the sustain level in
    /// thousandths, the sample rate in ticks per second.
    pub fn new(
        sample_rate: u32,
        attack_time: u16,
        decay_time: u16,
        sustain_level: u16,
        release_time: u16,
    ) -> (adsr: Adsr)
        requires
            sample_rate > 0,
            attack_time > 0,
            decay_time > 0,
            release_time > 0,
            sustain_level <= 1000,
        ensures
            adsr.wf(),
            adsr@ == (Envelope {
                attack_ms: attack_time as nat,
                decay_ms: decay_time as nat,
                sustain: sustain_level as nat,
                release_ms: release_time as nat,
                sample_rate: sample_rate as nat,
                state: AdsrState::Idle,
                level: 0,
                elapsed: 0,
            }),
    {
        let adr: u128 = product(attack_time, decay_time, release_time, sample_rate);
        let dr: u128 = pair_product(decay_time, release_time);
        let ar: u128 = pair_product(attack_time, release_time);
        let ad: u128 = pair_product(attack_time, decay_time);
        let rest: u16 = 1000 - sustain_level;
        assert(1000 * rest * ar < 0x400_0000_0000_0000_0000_0000) by (nonlinear_arith)
            requires
                rest <= 1000,
                ar < 0x1_0000_0000,
        ;
        assert(1000 * sustain_level * ad < 0x400_0000_0000_0000_0000_0000) by (nonlinear_arith)
            requires
                sustain_level <= 1000,
                ad < 0x1_0000_0000,
        ;
        assert(sustain_level * adr < 0x400_0000_0000_0000_0000_0000) by (nonlinear_arith)
            requires
                sustain_level <= 1000,
                adr < 0x1_0000_0000_0000_0000_0000,
        ;
        let adsr = Adsr {
            attack_ms: attack_time,
            decay_ms: decay_time,
            sustain: sustain_level,
            release_ms: release_time,
            sample_rate,
            state: AdsrState::Idle,
            level: 0,
            elapsed: 0,
            unit: 1000 * adr,
            attack_step: 1_000_000 * dr,
            decay_step: 1000 * rest as u128 * ar,
            release_step: 1000 * sustain_level as u128 * ad,
            sustain_level: sustain_level as u128 * adr,
        };
        proof {
            let e = adsr@;
            assert(e.unit() == 1000 * adr) by (nonlinear_arith)
                requires
                    e.unit() == 1000 * e.attack_ms * e.decay_ms * e.release_ms * e.sample_rate,
                    adr == e.attack_ms * e.decay_ms * e.release_ms * e.sample_rate,
            ;
            assert(e.attack_step() == 1_000_000 * dr) by (nonlinear_arith)
                requires
                    e.attack_step() == 1_000_000 * e.decay_ms * e.release_ms,
                    dr == e.decay_ms * e.release_ms,
            ;
            assert(e.decay_step() == 1000 * rest * ar) by (nonlinear_arith)
                requires
                    e.decay_step() == 1000 * rest * e.attack_ms * e.release_ms,
                    ar == e.attack_ms * e.release_ms,
            ;
            assert(e.release_step() == 1000 * sustain_level * ad) by (nonlinear_arith)
                requires
                    e.release_step() == 1000 * e.sustain * e.attack_ms * e.decay_ms,
                    e.sustain == sustain_level,
                    ad == e.attack_ms * e.decay_ms,
            ;
            assert(e.sustain_level() == sustain_level * adr) by (nonlinear_arith)
                requires
                    e.sustain_level() == e.sustain * e.attack_ms * e.decay_ms * e.release_ms
                        * e.sample_rate,
                    e.sustain == sustain_level,
                    adr == e.attack_ms * e.decay_ms * e.release_ms * e.sample_rate,
            ;
        }
        adsr
    }
}

impl Adsr {
    /// The key went down: attack starts from silence.
    pub fn note_on(&mut self)
        requires
            old(self).wf(),
        ensures
            final(self).wf(),
            final(self)@ == old(self)@.note_on(),
    {
        self.state = AdsrState::Attack;
        self.level = 0;
        self.elapsed = 0;
    }

    /// The key went up: release starts at once, unless the envelope is idle.
    pub fn note_off(&mut self)
        requires
            old(self).wf(),
        ensures
            final(self).wf(),
            final(self)@ == old(self)@.note_off(),
    {
        match self.state {
            AdsrState::Idle => {},
            _ => {
                self.state = AdsrState::Release;
            },
        }
        self.elapsed = 0;
    }

    /// The segment that the envelope is in.
    pub fn state(&self) -> (state: AdsrState)
        ensures
            state == self@.state,
    {
        self.state
    }

    /// The current amplitude.
    pub fn level(&self) -> (level: Level)
        requires
            self.wf(),
        ensures
            level.parts == self@.level,
            level.unit == self@.unit(),
            level.parts <= level.unit,
    {
        Level { parts: self.level, unit: self.unit }
    }

    /// Ticks since the key last went down or up.
    pub fn elapsed(&self) -> (elapsed: u64)
        ensures
            elapsed == self@.elapsed,
    {
        self.elapsed
    }

    /// `High` while the key is held.
    pub fn gate(&self) -> (gate: Gate)
        ensures
            gate == Gate::High <==> self@.held(),
    {
        match self.state {
            AdsrState::Attack | AdsrState::Decay | AdsrState::Sustain => Gate::High,
            _ => Gate::Low,
        }
    }
}

impl Node for Adsr {
    type Output = Level;

    open spec fn ready(&self) -> bool {
        self.wf()
    }

    /// One tick: the update of the current segment, then the amplitude.
    fn tick(&mut self) -> (level: Level)
        ensures
            final(self)@ == old(self)@.tick(),
            level.parts == final(self)@.level,
            level.unit == final(self)@.unit(),
    {
        proof {
            tick_keeps_range(self@);
        }
        match self.state {
            AdsrState::Idle => {
                self.level = 0;
            },
            AdsrState::Attack => {
                let raised: u128 = self.level + self.attack_step;
                if raised >= self.unit {
                    self.level = self.unit;
                    self.state = AdsrState::Decay;
                } else {
                    self.level = raised;
                }
            },
            AdsrState::Decay => {
                if self.level <= self.sustain_level + self.decay_step {
                    self.level = self.sustain_level;
                    self.state = AdsrState::Sustain;
                } else {
                    self.level = self.level - self.decay_step;
                }
            },
            AdsrState::Sustain => {
                self.level = self.sustain_level;
            },
            AdsrState::Release => {
                if self.level <= self.release_step {
                    self.level = 0;
                    self.state = AdsrState::Idle;
                } else {
                    self.level = self.level - self.release_step;
                }
            },
        }
        if self.elapsed < ELAPSED_MAX {
            self.elapsed = self.elapsed + 1;
        }
        Level { parts: self.level, unit: self.unit }
    }
}

/// The sustain level is at most 1.
pub proof fn sustain_within_unit(e: Envelope)
    requires
        e.configured(),
    ensures
        e.sustain_level() <= e.unit(),
{
    let adr = e.attack_ms * e.decay_ms * e.release_ms * e.sample_rate;
    assert(e.sustain * adr <= 1000 * adr) by (nonlinear_arith)
        requires
            e.sustain <= 1000,
            adr >= 0,
    ;
    assert(e.sustain_level() == e.sustain * adr) by (nonlinear_arith)
        requires
            e.sustain_level() == e.sustain * e.attack_ms * e.decay_ms * e.release_ms
                * e.sample_rate,
            adr == e.attack_ms * e.decay_ms * e.release_ms * e.sample_rate,
    ;
    assert(e.unit() == 1000 * adr) by (nonlinear_arith)
        requires
            e.unit() == 1000 * e.attack_ms * e.decay_ms * e.release_ms * e.sample_rate,
            adr == e.attack_ms * e.decay_ms * e.release_ms * e.sample_rate,
    ;
}

/// A tick keeps the amplitude in the range of its segment, and so between 0
/// and 1; so do a key going down and a key going up.
pub proof fn tick_keeps_range(e: Envelope)
    requires
        e.wf(),
    ensures
        e.tick().wf(),
        e.note_on().wf(),
        e.note_off().wf(),
        e.tick().level <= e.tick().unit(),
{
    sustain_within_unit(e);
}

/// However many ticks pass, the amplitude stays in the range of its
/// segment, and so between 0 and 1.
pub proof fn ticks_keep_range(e: Envelope, n: nat)
    requires
        e.wf(),
    ensures
        e.ticks(n).wf(),
        e.ticks(n).level <= e.ticks(n).unit(),
    decreases n,
{
    if n > 0 {
        ticks_keep_range(e, (n - 1) as nat);
        tick_keeps_range(e.ticks((n - 1) as nat));
    }
}

/// During attack a tick never lowers the amplitude, during decay and release
/// it never raises it, during sustain it leaves it at the sustain level; and
/// the amplitude after a tick lies between 0 and 1.
pub proof fn tick_is_monotone(e: Envelope)
    requires
        e.wf(),
    ensures
        e.state == AdsrState::Attack ==> e.tick().level >= e.level,
        e.state == AdsrState::Decay ==> e.tick().level <= e.level,
        e.state == AdsrState::Release ==> e.tick().level <= e.level,
        e.state == AdsrState::Sustain ==> e.tick().level == e.level == e.sustain_level(),
        0 <= e.tick().level <= e.tick().unit(),
{
    tick_keeps_range(e);
}

/// A tick leaves attack only for decay, and then the amplitude is exactly 1;
/// it leaves decay only for sustain, and then the amplitude is exactly the
/// sustain level; it leaves release only for idle, at amplitude 0.
pub proof fn boundaries_are_exact(e: Envelope)
    requires
        e.wf(),
    ensures
        e.state == AdsrState::Attack ==> e.tick().state == AdsrState::Attack || (e.tick().state
            == AdsrState::Decay && e.tick().level == e.unit()),
        e.state == AdsrState::Decay ==> e.tick().state == AdsrState::Decay || (e.tick().state
            == AdsrState::Sustain && e.tick().level == e.sustain_level()),
        e.state == AdsrState::Sustain ==> e.tick().state == AdsrState::Sustain,
        e.state == AdsrState::Release ==> e.tick().state == AdsrState::Release || (e.tick().state
            == AdsrState::Idle && e.tick().level == 0),
        e.state == AdsrState::Idle ==> e.tick().state == AdsrState::Idle,
{
}

/// Ticks leave the times, the sustain level and the sample rate alone.
pub proof fn ticks_keep_configuration(e: Envelope, n: nat)
    ensures
        e.ticks(n).attack_ms == e.attack_ms,
        e.ticks(n).decay_ms == e.decay_ms,
        e.ticks(n).sustain == e.sustain,
        e.ticks(n).release_ms == e.release_ms,
        e.ticks(n).sample_rate == e.sample_rate,
    decreases n,
{
    if n > 0 {
        ticks_keep_configuration(e, (n - 1) as nat);
    }
}

/// `m` ticks and then `n` ticks are `m + n` ticks.
pub proof fn ticks_add(e: Envelope, m: nat, n: nat)
    ensures
        e.ticks(m).ticks(n) == e.ticks(m + n),
    decreases n,
{
    if n > 0 {
        ticks_add(e, m, (n - 1) as nat);
        assert((m + n - 1) as nat == m + (n - 1) as nat);
    }
}

/// With a positive common factor, products compare as the other factors do.
proof fn scaled_order(c: nat, x: nat, y: nat)
    requires
        c > 0,
    ensures
        c * x < c * y <==> x < y,
{
    assert(c * x < c * y <==> x < y) by (nonlinear_arith)
        requires
            c > 0,
    ;
}

/// `k` attack steps stay below 1 exactly while `k` is below the attack's
/// tick count.
proof fn attack_progress(e: Envelope, k: nat)
    requires
        e.configured(),
    ensures
        e.attack_ticks() >= 1,
        k * e.attack_step() < e.unit() <==> k < e.attack_ticks(),
{
    let q: nat = 1000 * (e.decay_ms * e.release_ms);
    let span: nat = e.attack_ms * e.sample_rate;
    assert(span > 0) by (nonlinear_arith)
        requires
            span == e.attack_ms * e.sample_rate,
            e.attack_ms > 0,
            e.sample_rate > 0,
    ;
    assert(q > 0) by (nonlinear_arith)
        requires
            q == 1000 * (e.decay_ms * e.release_ms),
            e.decay_ms > 0,
            e.release_ms > 0,
    ;
    assert(k * e.attack_step() == q * (1000 * k)) by (nonlinear_arith)
        requires
            e.attack_step() == 1_000_000 * e.decay_ms * e.release_ms,
            q == 1000 * (e.decay_ms * e.release_ms),
    ;
    assert(e.unit() == q * span) by (nonlinear_arith)
        requires
            e.unit() == 1000 * e.attack_ms * e.decay_ms * e.release_ms * e.sample_rate,
            q == 1000 * (e.decay_ms * e.release_ms),
            span == e.attack_ms * e.sample_rate,
    ;
    scaled_order(q, 1000 * k, span);
}

/// A whole attack takes `attack_ticks()` ticks: from the key going down, the
/// amplitude rises by one attack step per tick, and the tick that completes
/// the count is the one that reaches amplitude 1 and enters decay.
pub proof fn attack_takes_its_ticks(e: Envelope, k: nat)
    requires
        e.configured(),
        k <= e.attack_ticks(),
    ensures
        e.attack_ticks() >= 1,
        k < e.attack_ticks() ==> e.note_on().ticks(k).state == AdsrState::Attack
            && e.note_on().ticks(k).level == k * e.attack_step() && e.note_on().ticks(k).level
            < e.unit(),
        k == e.attack_ticks() ==> e.note_on().ticks(k).state == AdsrState::Decay
            && e.note_on().ticks(k).level == e.unit(),
    decreases k,
{
    attack_progress(e, 0);
    assert(0 * e.attack_step() == 0);
    if k > 0 {
        let j: nat = (k - 1) as nat;
        attack_takes_its_ticks(e, j);
        ticks_keep_configuration(e.note_on(), j);
        attack_progress(e, k);
        let before = e.note_on().ticks(j);
        assert(before.level + before.attack_step() == k * e.attack_step()) by (nonlinear_arith)
            requires
                before.level == j * e.attack_step(),
                before.attack_step() == e.attack_step(),
                k == j + 1,
        ;
    }
}

/// `j + 1` decay steps stay short of the way from 1 down to the sustain
/// level exactly while `j + 1` is below the decay's tick count.
proof fn decay_progress(e: Envelope, j: nat)
    requires
        e.configured(),
        e.sustain < 1000,
    ensures
        e.decay_ticks() >= 1,
        e.sustain_level() + (j + 1) * e.decay_step() < e.unit() <==> j + 1 < e.decay_ticks(),
        j < e.decay_ticks() ==> e.sustain_level() + j * e.decay_step() < e.unit(),
{
    let rest: nat = (1000 - e.sustain) as nat;
    let q: nat = rest * (e.attack_ms * e.release_ms);
    let span: nat = e.decay_ms * e.sample_rate;
    assert(span > 0) by (nonlinear_arith)
        requires
            span == e.decay_ms * e.sample_rate,
            e.decay_ms > 0,
            e.sample_rate > 0,
    ;
    assert(q > 0) by (nonlinear_arith)
        requires
            q == rest * (e.attack_ms * e.release_ms),
            rest > 0,
            e.attack_ms > 0,
            e.release_ms > 0,
    ;
    assert(e.decay_step() == q * 1000) by (nonlinear_arith)
        requires
            e.decay_step() == 1000 * rest * e.attack_ms * e.release_ms,
            q == rest * (e.attack_ms * e.release_ms),
    ;
    assert(e.unit() == e.sustain_level() + q * span) by (nonlinear_arith)
        requires
            e.unit() == 1000 * e.attack_ms * e.decay_ms * e.release_ms * e.sample_rate,
            e.sustain_level() == e.sustain * e.attack_ms * e.decay_ms * e.release_ms
                * e.sample_rate,
            q == rest * (e.attack_ms * e.release_ms),
            span == e.decay_ms * e.sample_rate,
            rest + e.sustain == 1000,
    ;
    assert((j + 1) * e.decay_step() == q * (1000 * (j + 1))) by (nonlinear_arith)
        requires
            e.decay_step() == q * 1000,
    ;
    assert(j * e.decay_step() == q * (1000 * j)) by (nonlinear_arith)
        requires
            e.decay_step() == q * 1000,
    ;
    scaled_order(q, 1000 * (j + 1), span);
    scaled_order(q, 1000 * j, span);
}

/// A whole decay takes `decay_ticks()` ticks: from amplitude 1, the amplitude
/// falls by one decay step per tick, and the tick that completes the count
/// is the one that reaches the sustain level and enters sustain.
pub proof fn decay_takes_its_ticks(e: Envelope, j: nat)
    requires
        e.configured(),
        e.state == AdsrState::Decay,
        e.level == e.unit(),
        j <= e.decay_ticks(),
    ensures
        e.decay_ticks() >= 1,
        j < e.decay_ticks() ==> e.ticks(j).state == AdsrState::Decay && e.ticks(j).level
            + j * e.decay_step() == e.unit(),
        j == e.decay_ticks() ==> e.ticks(j).state == AdsrState::Sustain && e.ticks(j).level
            == e.sustain_level(),
    decreases j,
{
    assert(0 * e.decay_step() == 0);
    if e.sustain < 1000 {
        decay_progress(e, 0);
    }
    if j > 0 {
        let i: nat = (j - 1) as nat;
        decay_takes_its_ticks(e, i);
        ticks_keep_configuration(e, i);
        let before = e.ticks(i);
        assert(e.ticks(j) == before.tick());
        assert(before.decay_step() == e.decay_step());
        assert(before.sustain_level() == e.sustain_level());
        if e.sustain == 1000 {
            assert(e.sustain_level() == e.unit()) by (nonlinear_arith)
                requires
                    e.sustain == 1000,
                    e.unit() == 1000 * e.attack_ms * e.decay_ms * e.release_ms * e.sample_rate,
                    e.sustain_level() == e.sustain * e.attack_ms * e.decay_ms * e.release_ms
                        * e.sample_rate,
            ;
        } else {
            decay_progress(e, i);
            assert((i + 1) * e.decay_step() == i * e.decay_step() + e.decay_step())
                by (nonlinear_arith);
        }
    }
}

/// A note that is held comes to rest at the sustain level: after the ticks
/// of its attack and of its decay the envelope is in sustain, at the sustain
/// level, and every further tick finds it there.
pub proof fn held_note_reaches_sustain(e: Envelope, n: nat)
    requires
        e.configured(),
        n >= e.attack_ticks() + e.decay_ticks(),
    ensures
        e.note_on().ticks(n).state == AdsrState::Sustain,
        e.note_on().ticks(n).level == e.sustain_level(),
    decreases n,
{
    let start = e.note_on();
    let rise: nat = e.attack_ticks();
    let fall: nat = e.decay_ticks();
    if n == rise + fall {
        attack_takes_its_ticks(e, rise);
        ticks_keep_configuration(start, rise);
        let top = start.ticks(rise);
        decay_takes_its_ticks(top, fall);
        ticks_add(start, rise, fall);
    } else {
        held_note_reaches_sustain(e, (n - 1) as nat);
        ticks_keep_configuration(start, (n - 1) as nat);
    }
}

} // verus!
