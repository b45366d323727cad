//! MIDI events from a controller, decoded with `wmidi`, as the user interface
//! is told about them
use vstd::prelude::*;

verus! {

/// The MIDI messages the unit reports.
#[derive(PartialEq, Eq, Structural, Debug, Clone, Copy)]
pub enum MidiKind {
    ProgramChange { channel: u8, program: u8 },
    ControlChange { channel: u8, control: u8, value: u8 },
    /// any other message, or bytes that are not a MIDI message
    Other,
}

/// What `wmidi` reads from `b`: a program change is a status byte 0xC0..0xCF
/// (the low four bits the channel) and a data byte below 128; a control change
/// is a status byte 0xB0..0xBF and two data bytes below 128.
pub open spec fn spec_midi_kind(b: Seq<u8>) -> MidiKind {
    if b.len() >= 2 && b[0] / 16 == 12 && b[1] < 128 {
        MidiKind::ProgramChange { channel: (b[0] % 16) as u8, program: b[1] }
    } else if b.len() >= 3 && b[0] / 16 == 11 && b[1] < 128 && b[2] < 128 {
        MidiKind::ControlChange { channel: (b[0] % 16) as u8, control: b[1], value: b[2] }
    } else {
        MidiKind::Other
    }
}

/// Calls `wmidi::MidiMessage::try_from` on the bytes.  Its source reads a
/// program change from a status byte 0xC0..0xCF and one data byte, and a
/// control change from a status byte 0xB0..0xBF and two data bytes, a data
/// byte being below 128; the channel is the low four bits of the status byte.
/// Every other outcome, message or error, is reported as `Other`.
#[verifier::external_body]
fn decode_midi(bytes: &[u8]) -> (r: MidiKind)
    ensures
        r == spec_midi_kind(bytes@),
{
    match wmidi::MidiMessage::try_from(bytes) {
        Ok(wmidi::MidiMessage::ProgramChange(c, p)) => MidiKind::ProgramChange { channel: c.index(), program: p.into() },
        Ok(wmidi::MidiMessage::ControlChange(c, f, v)) => MidiKind::ControlChange { channel: c.index(), control: f.into(), value: v.into() },
        _ => MidiKind::Other,
    }
}

/// A MIDI event: its type, channel, note (or program, or controller) and
/// velocity (or value).
#[derive(PartialEq, Eq, Structural, Debug, Clone, Copy)]
pub struct MidiEvent {
    pub e_type: usize,
    pub channel: u8,
    pub note: u8,
    pub velocity: u8,
}

/// The event reported for a decoded message: a program change as type 4 with
/// its channel and program, a control change as type 4 with its controller and
/// value (channel 0), anything else as type 8.
pub open spec fn event_for(k: MidiKind) -> MidiEvent {
    match k {
        MidiKind::ProgramChange { channel, program } => MidiEvent { e_type: 4, channel: channel, note: program, velocity: 0 },
        MidiKind::ControlChange { control, value, .. } => MidiEvent { e_type: 4, channel: 0, note: control, velocity: value },
        MidiKind::Other => MidiEvent { e_type: 8, channel: 0, note: 0, velocity: 0 },
    }
}

impl MidiEvent {
    /// The event for a decoded message.
    pub fn from_kind(k: MidiKind) -> (e: MidiEvent)
        ensures
            e == event_for(k),
    {
        match k {
            MidiKind::ProgramChange { channel, program } => MidiEvent { e_type: 4, channel: channel, note: program, velocity: 0 },
            MidiKind::ControlChange { control, value, .. } => MidiEvent { e_type: 4, channel: 0, note: control, velocity: value },
            MidiKind::Other => MidiEvent { e_type: 8, channel: 0, note: 0, velocity: 0 },
        }
    }

    /// The event for the raw MIDI bytes.
    pub fn new(bytes: &[u8]) -> (e: MidiEvent)
        ensures
            e == event_for(spec_midi_kind(bytes@)),
    {
        MidiEvent::from_kind(decode_midi(bytes))
    }
}

} // verus!
