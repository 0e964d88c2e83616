//! The voice allocator: four voices, and which note each of them plays.
//!
//! A note that goes down takes the first free slot; with no slot free it is
//! dropped. A note that goes up frees the first slot that holds its number,
//! and the voice of that slot is released.

use vstd::prelude::*;
use crate::adsr::{held_note_reaches_sustain, tick_keeps_range, AdsrState};
use crate::midi::{AppMessage, MidiMessage};
use crate::node::Node;
use crate::pitch::{
    note_units, single_units_are_positive, tabulated_pitch, Frequency, Gain, Note, Velocity,
};
use crate::oscillator::{phase_after, Waveform};
use crate::voice::{Frame, Sound, Voice};

verus! {

/// The number of voices.
pub const VOICES: usize = 4;

/// The slots of an allocator: for each voice the note and velocity that it
/// plays, if any.
pub type Slots = Seq<Option<(u8, u8)>>;

/// The first free slot at or after `from`, if there is one.
pub open spec fn first_free_from(slots: Slots, from: int) -> Option<int>
    decreases slots.len() - from,
{
    if from < 0 || from >= slots.len() {
        None
    } else if slots[from] is None {
        Some(from)
    } else {
        first_free_from(slots, from + 1)
    }
}

/// The slot holds this note.
pub open spec fn holds(slot: Option<(u8, u8)>, note: u8) -> bool {
    slot matches Some((n, _)) && n == note
}

/// The first slot at or after `from` that holds the note, if there is one.
pub open spec fn first_holding_from(slots: Slots, note: u8, from: int) -> Option<int>
    decreases slots.len() - from,
{
    if from < 0 || from >= slots.len() {
        None
    } else if holds(slots[from], note) {
        Some(from)
    } else {
        first_holding_from(slots, note, from + 1)
    }
}

/// An allocator as a mathematical value.
pub struct Bank {
    pub voices: Seq<Sound>,
    pub slots: Slots,
}

impl Bank {
    /// Voice `i` is well formed; its key is held exactly if its slot is
    /// taken, and then the voice is tuned to the note of the slot, at the
    /// gain of its velocity.
    pub open spec fn slot_wf(self, i: int) -> bool {
        &&& self.voices[i].wf()
        &&& self.slots[i] is Some <==> self.voices[i].envelope.held()
        &&& self.slots[i] matches Some((note, velocity)) ==> {
            &&& note < 128
            &&& velocity < 128
            &&& self.voices[i].wave.frequency == note_units(note)
            &&& self.voices[i].wave.gain == velocity
        }
    }

    pub open spec fn wf(self) -> bool {
        &&& self.voices.len() == VOICES
        &&& self.slots.len() == VOICES
        &&& forall|i: int| 0 <= i < VOICES ==> #[trigger] self.slot_wf(i)
    }

    /// The slot that the next note takes.
    pub open spec fn first_free(self) -> Option<int> {
        first_free_from(self.slots, 0)
    }

    /// The slot that the note frees when it goes up.
    pub open spec fn first_holding(self, note: u8) -> Option<int> {
        first_holding_from(self.slots, note, 0)
    }

    /// Every slot is taken.
    pub open spec fn full(self) -> bool {
        forall|i: int| 0 <= i < self.slots.len() ==> (#[trigger] self.slots[i]) is Some
    }

    /// No slot holds the note.
    pub open spec fn unassigned(self, note: u8) -> bool {
        forall|i: int| 0 <= i < self.slots.len() ==> !holds(#[trigger] self.slots[i], note)
    }

    /// The number of voices that sound.
    pub open spec fn active_count(self) -> nat {
        self.voices.filter(|s: Sound| s.active()).len()
    }

    /// The allocator after a note went down: the first free slot takes the
    /// note, and its voice starts at the note's frequency with gain
    /// `velocity / 127`; with no slot free nothing changes.
    pub open spec fn note_on(self, note: u8, velocity: u8) -> Bank {
        match self.first_free() {
            Some(i) => Bank {
                voices: self.voices.update(
                    i,
                    self.voices[i].note_on(note_units(note), velocity as nat),
                ),
                slots: self.slots.update(i, Some((note, velocity))),
            },
            None => self,
        }
    }

    /// The allocator after a note went up: the first slot that holds the
    /// note is freed and its voice released; where no slot holds it nothing
    /// changes.
    pub open spec fn note_off(self, note: u8) -> Bank {
        match self.first_holding(note) {
            Some(i) => Bank {
                voices: self.voices.update(i, self.voices[i].note_off()),
                slots: self.slots.update(i, None),
            },
            None => self,
        }
    }

    /// The allocator after one tick of every voice.
    pub open spec fn tick(self) -> Bank {
        Bank { voices: self.voices.map_values(|s: Sound| s.tick()), slots: self.slots }
    }

    /// The allocator after the notes went down one after another, each a
    /// pair of note and velocity.
    pub open spec fn play(self, notes: Seq<(u8, u8)>) -> Bank
        decreases notes.len(),
    {
        if notes.len() == 0 {
            self
        } else {
            self.play(notes.drop_last()).note_on(notes.last().0, notes.last().1)
        }
    }

    /// The allocator after `n` ticks.
    pub open spec fn ticks(self, n: nat) -> Bank
        decreases n,
    {
        if n == 0 {
            self
        } else {
            self.ticks((n - 1) as nat).tick()
        }
    }

    /// No slot is taken.
    pub open spec fn vacant(self) -> bool {
        forall|i: int| 0 <= i < self.slots.len() ==> (#[trigger] self.slots[i]) is None
    }
}

/// The value of a slot.
pub open spec fn slot_view(slot: Option<(Note, Velocity)>) -> Option<(u8, u8)> {
    match slot {
        Some((note, velocity)) => Some((note@, velocity@)),
        None => None,
    }
}

/// The first free slot from `from` on is the lowest free index from there,
/// and there is none exactly if all slots from there are taken.
pub proof fn first_free_is_lowest(slots: Slots, from: int)
    requires
        0 <= from <= slots.len(),
    ensures
        match first_free_from(slots, from) {
            Some(i) => from <= i < slots.len() && slots[i] is None && forall|j: int|
                from <= j < i ==> (#[trigger] slots[j]) is Some,
            None => forall|j: int| from <= j < slots.len() ==> (#[trigger] slots[j]) is Some,
        },
    decreases slots.len() - from,
{
    if from < slots.len() && slots[from] is Some {
        first_free_is_lowest(slots, from + 1);
    }
}

/// The first slot from `from` on that holds a note is the lowest such index
/// from there, and there is none exactly if no slot from there holds it.
pub proof fn first_holding_is_lowest(slots: Slots, note: u8, from: int)
    requires
        0 <= from <= slots.len(),
    ensures
        match first_holding_from(slots, note, from) {
            Some(i) => from <= i < slots.len() && holds(slots[i], note) && forall|j: int|
                from <= j < i ==> !holds(#[trigger] slots[j], note),
            None => forall|j: int| from <= j < slots.len() ==> !holds(#[trigger] slots[j], note),
        },
    decreases slots.len() - from,
{
    if from < slots.len() && !holds(slots[from], note) {
        first_holding_is_lowest(slots, note, from + 1);
    }
}

/// What the allocator hands out at a tick. Its sample is the sum of the
/// frames' samples divided by `divisor`, which is the number of voices
/// whether they sound or not.
#[derive(Clone, Copy, Debug, PartialEq, Eq)]
pub struct Mix {
    pub frames: [Frame; 4],
    pub divisor: u32,
}

/// The voice allocator.
pub struct Synth {
    pub voices: [Voice; 4],
    voices_map: [Option<(Note, Velocity)>; 4],
}

impl View for Synth {
    type V = Bank;

    closed spec fn view(&self) -> Bank {
        Bank {
            voices: Seq::new(VOICES as nat, |i: int| self.voices[i]@),
            slots: Seq::new(VOICES as nat, |i: int| slot_view(self.voices_map[i])),
        }
    }
}

impl Synth {
    /// Every voice is well formed and the value of the allocator is.
    pub closed spec fn wf(&self) -> bool {
        &&& self@.wf()
        &&& forall|i: int| 0 <= i < VOICES ==> (#[trigger] self.voices[i]).wf()
    }

    /// A well-formed allocator has a well-formed value.
    pub proof fn wf_view(&self)
        requires
            self.wf(),
        ensures
            self@.wf(),
    {
    }

    /// Four silent voices, a saw, a square, a triangle and a sine, and four
    /// free slots.
    pub fn new(sample_rate: u32) -> (synth: Synth)
        requires
            sample_rate > 0,
        ensures
            synth.wf(),
            synth@.slots == Seq::new(VOICES as nat, |i: int| None::<(u8, u8)>),
            synth@.voices == seq![
                Voice::new_spec(sample_rate, Waveform::Saw),
                Voice::new_spec(sample_rate, Waveform::Square),
                Voice::new_spec(sample_rate, Waveform::Triangle),
                Voice::new_spec(sample_rate, Waveform::Sine),
            ],
    {
        let synth = Synth {
            voices: [
                Voice::new(sample_rate, Waveform::Saw),
                Voice::new(sample_rate, Waveform::Square),
                Voice::new(sample_rate, Waveform::Triangle),
                Voice::new(sample_rate, Waveform::Sine),
            ],
            voices_map: [None, None, None, None],
        };
        proof {
            assert(synth@.slots =~= Seq::new(VOICES as nat, |i: int| None::<(u8, u8)>));
            assert(synth@.voices =~= seq![
                Voice::new_spec(sample_rate, Waveform::Saw),
                Voice::new_spec(sample_rate, Waveform::Square),
                Voice::new_spec(sample_rate, Waveform::Triangle),
                Voice::new_spec(sample_rate, Waveform::Sine),
            ]);
            assert forall|i: int| 0 <= i < VOICES implies #[trigger] synth@.slot_wf(i) by {
                synth.voices[i].wf_view();
            }
        }
        synth
    }

    /// The note and velocity that voice `index` plays, if its slot is taken.
    pub fn assignment(&self, index: usize) -> (slot: Option<(Note, Velocity)>)
        requires
            index < VOICES,
        ensures
            slot_view(slot) == self@.slots[index as int],
    {
        self.voices_map[index]
    }

    /// The first free slot.
    pub fn get_first_available_voice_map_index(&self) -> (index: Option<usize>)
        ensures
            index matches Some(i) ==> self@.first_free() == Some(i as int) && i < VOICES,
            index is None ==> self@.first_free() is None,
    {
        let mut i: usize = 0;
        while i < 4
            invariant
                i <= 4,
                self@.slots.len() == 4,
                first_free_from(self@.slots, i as int) == self@.first_free(),
            decreases 4 - i,
        {
            if self.voices_map[i].is_none() {
                return Some(i);
            }
            i = i + 1;
        }
        None
    }

    /// The first slot that holds the note.
    pub fn get_active_voice_map_index(&self, note: Note) -> (index: Option<usize>)
        ensures
            index matches Some(i) ==> self@.first_holding(note@) == Some(i as int) && i < VOICES,
            index is None ==> self@.first_holding(note@) is None,
    {
        let mut i: usize = 0;
        while i < 4
            invariant
                i <= 4,
                self@.slots.len() == 4,
                first_holding_from(self@.slots, note@, i as int) == self@.first_holding(note@),
            decreases 4 - i,
        {
            if let Some((n, _)) = self.voices_map[i] {
                if n.number() == note.number() {
                    return Some(i);
                }
            }
            i = i + 1;
        }
        None
    }

    /// A note went down.
    pub fn note_on(&mut self, note: Note, velocity: Velocity)
        requires
            old(self).wf(),
        ensures
            final(self).wf(),
            final(self)@ == old(self)@.note_on(note@, velocity@),
    {
        if let Some(index) = self.get_first_available_voice_map_index() {
            let gain: Gain = Gain::from_velocity(velocity);
            let freq: Frequency = Frequency::of_note(note);
            proof {
                use_type_invariant(&note);
                use_type_invariant(&velocity);
                first_free_is_lowest(self@.slots, 0);
                assert(self@.slot_wf(index as int));
                tick_keeps_range(self@.voices[index as int].envelope);
            }
            self.voices[index].note_on(freq, gain);
            self.voices_map[index] = Some((note, velocity));
            proof {
                let before = old(self)@;
                let after = before.note_on(note@, velocity@);
                assert(self@.voices =~= after.voices);
                assert(self@.slots =~= after.slots);
                assert forall|i: int| 0 <= i < VOICES implies #[trigger] self@.slot_wf(i) by {
                    assert(before.slot_wf(i));
                    if i == index as int {
                        self.voices[i].wf_view();
                    }
                }
            }
        }
    }

    /// A note went up.
    pub fn note_off(&mut self, note: Note, _velocity: Velocity)
        requires
            old(self).wf(),
        ensures
            final(self).wf(),
            final(self)@ == old(self)@.note_off(note@),
    {
        if let Some(index) = self.get_active_voice_map_index(note) {
            proof {
                assert(self@.slot_wf(index as int));
                tick_keeps_range(self@.voices[index as int].envelope);
            }
            self.voices[index].note_off();
            self.voices_map[index] = None;
            proof {
                let before = old(self)@;
                let after = before.note_off(note@);
                assert(self@.voices =~= after.voices);
                assert(self@.slots =~= after.slots);
                assert forall|i: int| 0 <= i < VOICES implies #[trigger] self@.slot_wf(i) by {
                    assert(before.slot_wf(i));
                    if i == index as int {
                        self.voices[i].wf_view();
                    }
                }
            }
        }
    }

    /// Applies a message: a note goes down or up.
    pub fn handle(&mut self, message: AppMessage)
        requires
            old(self).wf(),
        ensures
            final(self).wf(),
            match message {
                AppMessage::MidiMessage(MidiMessage::NoteOn(note, velocity)) => final(self)@
                    == old(self)@.note_on(note@, velocity@),
                AppMessage::MidiMessage(MidiMessage::NoteOff(note, _)) => final(self)@
                    == old(self)@.note_off(note@),
            },
    {
        match message {
            AppMessage::MidiMessage(MidiMessage::NoteOn(note, velocity)) => {
                self.note_on(note, velocity)
            },
            AppMessage::MidiMessage(MidiMessage::NoteOff(note, velocity)) => {
                self.note_off(note, velocity)
            },
        }
    }

    /// One tick of every voice.
    pub fn tick(&mut self) -> (mix: Mix)
        requires
            old(self).wf(),
        ensures
            final(self).wf(),
            final(self)@ == old(self)@.tick(),
            mix.divisor == VOICES,
            forall|i: int|
                0 <= i < VOICES ==> (#[trigger] mix.frames[i]).renders(final(self)@.voices[i]),
    {
        proof {
            assert forall|i: int| 0 <= i < VOICES implies #[trigger] self@.tick().slot_wf(i) by {
                assert(self@.slot_wf(i));
                tick_keeps_range(self@.voices[i].envelope);
            }
        }
        let first: Frame = self.voices[0].tick();
        let second: Frame = self.voices[1].tick();
        let third: Frame = self.voices[2].tick();
        let fourth: Frame = self.voices[3].tick();
        proof {
            assert(self@.voices =~= old(self)@.tick().voices);
            assert(self@.slots =~= old(self)@.tick().slots);
        }
        Mix { frames: [first, second, third, fourth], divisor: 4 }
    }
}

/// With every slot taken, a note that goes down changes nothing.
pub proof fn full_bank_drops_note(bank: Bank, note: u8, velocity: u8)
    requires
        bank.full(),
    ensures
        bank.note_on(note, velocity) == bank,
{
    first_free_is_lowest(bank.slots, 0);
}

/// Notes that go down on a vacant allocator take the slots in order: the
/// first as many as there are slots hold the notes, one each, and the
/// notes after those are dropped.
pub proof fn notes_take_slots_in_order(bank: Bank, notes: Seq<(u8, u8)>)
    requires
        bank.vacant(),
        bank.voices.len() == bank.slots.len(),
    ensures
        bank.play(notes).slots.len() == bank.slots.len(),
        bank.play(notes).voices.len() == bank.voices.len(),
        forall|i: int|
            0 <= i < bank.slots.len() && i < notes.len() ==> #[trigger] bank.play(notes).slots[i]
                == Some(notes[i]),
        forall|i: int|
            notes.len() <= i < bank.slots.len() ==> (#[trigger] bank.play(notes).slots[i]) is None,
        notes.len() >= bank.slots.len() ==> bank.play(notes).full() && bank.play(notes)
            == bank.play(notes.take(bank.slots.len() as int)),
    decreases notes.len(),
{
    let slots = bank.slots.len();
    if notes.len() == 0 {
        assert(notes.take(0) =~= notes);
    } else {
        let earlier = notes.drop_last();
        let before = bank.play(earlier);
        notes_take_slots_in_order(bank, earlier);
        first_free_is_lowest(before.slots, 0);
        if earlier.len() >= slots {
            full_bank_drops_note(before, notes.last().0, notes.last().1);
            assert(earlier.take(slots as int) =~= notes.take(slots as int));
        } else {
            let taken = earlier.len() as int;
            assert(before.slots[taken] is None);
            assert(before.first_free() == Some(taken)) by {
                if before.first_free() != Some(taken) {
                    let i = before.first_free()->0;
                    assert(before.slots[i] is None);
                    if i < taken {
                        assert(before.slots[i] == Some(earlier[i]));
                    } else {
                        assert(before.slots[taken] is Some);
                    }
                }
            }
            if notes.len() == slots {
                assert(notes.take(slots as int) =~= notes);
            }
        }
    }
}

/// A note that no slot holds changes nothing when it goes up.
pub proof fn unassigned_note_off_changes_nothing(bank: Bank, note: u8)
    requires
        bank.unassigned(note),
    ensures
        bank.note_off(note) == bank,
{
    first_holding_is_lowest(bank.slots, note, 0);
}

/// Notes going down, notes going up and ticks keep an allocator well
/// formed.
pub proof fn bank_stays_wf(bank: Bank, note: u8, velocity: u8)
    requires
        bank.wf(),
        note < 128,
        velocity < 128,
    ensures
        bank.note_on(note, velocity).wf(),
        bank.note_off(note).wf(),
        bank.tick().wf(),
{
    first_free_is_lowest(bank.slots, 0);
    first_holding_is_lowest(bank.slots, note, 0);
    single_units_are_positive(tabulated_pitch(note));
    let on = bank.note_on(note, velocity);
    let off = bank.note_off(note);
    let next = bank.tick();
    assert forall|i: int| 0 <= i < VOICES implies #[trigger] on.slot_wf(i) by {
        assert(bank.slot_wf(i));
        tick_keeps_range(bank.voices[i].envelope);
    }
    assert forall|i: int| 0 <= i < VOICES implies #[trigger] off.slot_wf(i) by {
        assert(bank.slot_wf(i));
        tick_keeps_range(bank.voices[i].envelope);
    }
    assert forall|i: int| 0 <= i < VOICES implies #[trigger] next.slot_wf(i) by {
        assert(bank.slot_wf(i));
        tick_keeps_range(bank.voices[i].envelope);
    }
}

/// Never more voices sound than there are.
pub proof fn active_voices_are_bounded(bank: Bank)
    requires
        bank.wf(),
    ensures
        bank.active_count() <= VOICES,
{
    bank.voices.lemma_filter_len(|s: Sound| s.active());
}

/// Ticks leave the slots alone, and take each voice through as many ticks
/// of its own.
pub proof fn ticks_reach_every_voice(bank: Bank, n: nat, i: int)
    requires
        0 <= i < bank.voices.len(),
    ensures
        bank.ticks(n).slots == bank.slots,
        bank.ticks(n).voices.len() == bank.voices.len(),
        bank.ticks(n).voices[i].wave == bank.voices[i].wave.advances(n),
        bank.ticks(n).voices[i].envelope == bank.voices[i].envelope.ticks(n),
    decreases n,
{
    if n > 0 {
        ticks_reach_every_voice(bank, (n - 1) as nat, i);
    }
}

/// A note that goes down on an allocator with a free slot and is held comes
/// to rest: once the ticks of the attack and of the decay have passed, the
/// voice of its slot is in sustain at the sustain level, and all along it is
/// tuned to the note's frequency at the gain of its velocity.
pub proof fn held_note_settles(bank: Bank, note: u8, velocity: u8, i: int, n: nat)
    requires
        bank.wf(),
        velocity < 128,
        bank.first_free() == Some(i),
    ensures
        0 <= i < VOICES,
        bank.note_on(note, velocity).ticks(n).slots[i] == Some((note, velocity)),
        bank.note_on(note, velocity).ticks(n).voices[i].wave.frequency == note_units(note),
        bank.note_on(note, velocity).ticks(n).voices[i].wave.gain == velocity,
        n >= bank.voices[i].envelope.attack_ticks() + bank.voices[i].envelope.decay_ticks() ==> {
            &&& bank.note_on(note, velocity).ticks(n).voices[i].envelope.state
                == AdsrState::Sustain
            &&& bank.note_on(note, velocity).ticks(n).voices[i].envelope.level
                == bank.voices[i].envelope.sustain_level()
        },
{
    first_free_is_lowest(bank.slots, 0);
    assert(bank.slot_wf(i));
    single_units_are_positive(tabulated_pitch(note));
    let struck = bank.note_on(note, velocity);
    ticks_reach_every_voice(struck, n, i);
    phase_after(struck.voices[i].wave, n);
    let envelope = bank.voices[i].envelope;
    if n >= envelope.attack_ticks() + envelope.decay_ticks() {
        held_note_reaches_sustain(envelope, n);
    }
}

} // verus!
