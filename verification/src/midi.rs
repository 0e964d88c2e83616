//! Note events from the bytes of MIDI messages.

use vstd::prelude::*;
use crate::pitch::{Note, Velocity};

verus! {

/// A note event.
#[derive(Clone, Copy, Debug, PartialEq, Eq)]
pub enum MidiMessage {
    NoteOn(Note, Velocity),
    NoteOff(Note, Velocity),
}

/// What reaches the render thread.
#[derive(Clone, Copy, Debug, PartialEq, Eq)]
pub enum AppMessage {
    MidiMessage(MidiMessage),
}

/// What the bytes of one message say about notes: a note number and a
/// velocity, or that the message is no note event.
#[derive(Clone, Copy, Debug, PartialEq, Eq)]
pub enum Decoded {
    NoteOn(u8, u8),
    NoteOff(u8, u8),
    Other,
}

/// The note event in the bytes of one message. A note event has a status
/// byte 0x80 to 0x8F (note off) or 0x90 to 0x9F (note on) and two data bytes
/// below 128, the note number and the velocity; bytes after these are not
/// looked at. A note on with velocity 0 is a note off.
pub open spec fn note_event(bytes: Seq<u8>) -> Decoded {
    if bytes.len() >= 3 && bytes[1] < 128 && bytes[2] < 128 {
        if 0x80 <= bytes[0] < 0x90 {
            Decoded::NoteOff(bytes[1], bytes[2])
        } else if 0x90 <= bytes[0] < 0xA0 {
            if bytes[2] == 0 {
                Decoded::NoteOff(bytes[1], 0)
            } else {
                Decoded::NoteOn(bytes[1], bytes[2])
            }
        } else {
            Decoded::Other
        }
    } else {
        Decoded::Other
    }
}

/// `wmidi::MidiMessage::try_from` on a byte slice, its result reduced to
/// the note events. The contract claims that the parser yields a note on or
/// a note off exactly for the bytes that `note_event` describes, with the two
/// data bytes as note number and velocity, and anything else (another
/// message or an error) for all other bytes.
#[verifier::external_body]
fn decode(bytes: &[u8]) -> (decoded: Decoded)
    ensures
        decoded == note_event(bytes@),
{
    match wmidi::MidiMessage::try_from(bytes) {
        Ok(wmidi::MidiMessage::NoteOn(_, note, velocity)) => {
            Decoded::NoteOn(u8::from(note), u8::from(velocity))
        },
        Ok(wmidi::MidiMessage::NoteOff(_, note, velocity)) => {
            Decoded::NoteOff(u8::from(note), u8::from(velocity))
        },
        _ => Decoded::Other,
    }
}

/// The message that a decoded note event stands for.
pub fn message_of(decoded: Decoded) -> (message: Option<MidiMessage>)
    ensures
        match decoded {
            Decoded::NoteOn(n, v) => if n < 128 && v < 128 {
                message matches Some(MidiMessage::NoteOn(note, velocity)) && note@ == n
                    && velocity@ == v
            } else {
                message is None
            },
            Decoded::NoteOff(n, v) => if n < 128 && v < 128 {
                message matches Some(MidiMessage::NoteOff(note, velocity)) && note@ == n
                    && velocity@ == v
            } else {
                message is None
            },
            Decoded::Other => message is None,
        },
{
    match decoded {
        Decoded::NoteOn(n, v) => match (Note::new(n), Velocity::new(v)) {
            (Some(note), Some(velocity)) => Some(MidiMessage::NoteOn(note, velocity)),
            _ => None,
        },
        Decoded::NoteOff(n, v) => match (Note::new(n), Velocity::new(v)) {
            (Some(note), Some(velocity)) => Some(MidiMessage::NoteOff(note, velocity)),
            _ => None,
        },
        Decoded::Other => None,
    }
}

/// The note event in the bytes of one MIDI message, if they hold one.
pub fn handle_midi_message(bytes: &[u8]) -> (message: Option<MidiMessage>)
    ensures
        match note_event(bytes@) {
            Decoded::NoteOn(n, v) => message matches Some(MidiMessage::NoteOn(note, velocity))
                && note@ == n && velocity@ == v,
            Decoded::NoteOff(n, v) => message matches Some(MidiMessage::NoteOff(note, velocity))
                && note@ == n && velocity@ == v,
            Decoded::Other => message is None,
        },
{
    message_of(decode(bytes))
}

} // verus!
