use vstd::prelude::*;

verus! {

/// Upper nibble of a note-on status byte.
pub const NOTE_ON_STATUS: u8 = 0x90;

/// Upper nibble of a note-off status byte.
pub const NOTE_OFF_STATUS: u8 = 0x80;

/// Velocity used for a note-on when none is given.
pub const DEFAULT_VELOCITY: u8 = 100;

/// Largest channel for which `NOTE_ON_STATUS + channel` still fits in a byte.
pub const MAX_NOTE_ON_CHANNEL: u8 = 0x6f;

/// Largest channel for which `NOTE_OFF_STATUS + channel` still fits in a byte.
pub const MAX_NOTE_OFF_CHANNEL: u8 = 0x7f;

/// What kind of event a raw message carries, as far as this tool tells them apart.
#[derive(PartialEq, Eq, Structural, Clone, Copy, Debug)]
pub enum MidiMessageType {
    NoteOn,
    NoteOff,
    Todo,
}

/// A decoded message: the record that is rendered for each incoming event.
#[derive(PartialEq, Eq, Structural, Clone, Copy, Debug)]
pub struct MidiMessageJson {
    pub type_: MidiMessageType,
    pub channel: u8,
    pub note: u8,
    pub velocity: u8,
}

/// A raw four-byte MIDI message, as the driver sends and receives it.
#[derive(PartialEq, Eq, Structural, Clone, Copy, Debug)]
pub struct MidiMessage {
    pub status: u8,
    pub data1: u8,
    pub data2: u8,
    pub data3: u8,
}

/// The kind of message that a status byte announces: its upper nibble
/// is 9 for note-on and 8 for note-off.
pub open spec fn type_of_status(status: u8) -> MidiMessageType {
    if status / 16 == 9 {
        MidiMessageType::NoteOn
    } else if status / 16 == 8 {
        MidiMessageType::NoteOff
    } else {
        MidiMessageType::Todo
    }
}

/// The record that a raw message decodes to: the kind and channel come
/// from the two nibbles of the status byte, note and velocity from the
/// first two data bytes.
pub open spec fn decode(m: MidiMessage) -> MidiMessageJson {
    MidiMessageJson {
        type_: type_of_status(m.status),
        channel: m.status % 16,
        note: m.data1,
        velocity: m.data2,
    }
}

impl MidiMessage {
    /// A note-on for `note` on `channel`, with `velocity` or 100 when none is given.
    pub fn note_on(channel: u8, note: u8, velocity: Option<u8>) -> (r: MidiMessage)
        requires
            channel <= MAX_NOTE_ON_CHANNEL,
        ensures
            r.status == NOTE_ON_STATUS + channel,
            r.data1 == note,
            r.data2 == velocity.unwrap_or(DEFAULT_VELOCITY),
            r.data3 == 0,
    {
        MidiMessage {
            status: NOTE_ON_STATUS + channel,
            data1: note,
            data2: velocity.unwrap_or(DEFAULT_VELOCITY),
            data3: 0,
        }
    }

    /// A note-off for `note` on `channel`, with velocity 0.
    pub fn note_off(channel: u8, note: u8) -> (r: MidiMessage)
        requires
            channel <= MAX_NOTE_OFF_CHANNEL,
        ensures
            r.status == NOTE_OFF_STATUS + channel,
            r.data1 == note,
            r.data2 == 0,
            r.data3 == 0,
    {
        MidiMessage { status: NOTE_OFF_STATUS + channel, data1: note, data2: 0, data3: 0 }
    }

    /// Decodes the message into the record that describes it.
    pub fn json_record(&self) -> (r: MidiMessageJson)
        ensures
            r == decode(*self),
    {
        let high: u8 = self.status / 16;
        let type_ = if high == 9 {
            MidiMessageType::NoteOn
        } else if high == 8 {
            MidiMessageType::NoteOff
        } else {
            MidiMessageType::Todo
        };
        MidiMessageJson { type_, channel: self.status % 16, note: self.data1, velocity: self.data2 }
    }
}

/// A note-on built for one of the sixteen MIDI channels decodes back to a
/// note-on on that channel, with the note and the velocity it was built with.
pub proof fn lemma_note_on_decodes(channel: u8, note: u8, velocity: Option<u8>)
    requires
        channel < 16,
    ensures
        decode(
            MidiMessage {
                status: (NOTE_ON_STATUS + channel) as u8,
                data1: note,
                data2: velocity.unwrap_or(DEFAULT_VELOCITY),
                data3: 0,
            },
        ) == (MidiMessageJson {
            type_: MidiMessageType::NoteOn,
            channel,
            note,
            velocity: velocity.unwrap_or(DEFAULT_VELOCITY),
        }),
{
}

/// A note-off built for one of the sixteen MIDI channels decodes back to a
/// note-off on that channel, with the note and velocity 0.
pub proof fn lemma_note_off_decodes(channel: u8, note: u8)
    requires
        channel < 16,
    ensures
        decode(
            MidiMessage { status: (NOTE_OFF_STATUS + channel) as u8, data1: note, data2: 0, data3: 0 },
        ) == (MidiMessageJson { type_: MidiMessageType::NoteOff, channel, note, velocity: 0 }),
{
}

} // verus!
