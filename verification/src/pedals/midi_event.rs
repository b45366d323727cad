//! MIDI events from a controller, as the user interface is told about them
use vstd::prelude::*;

verus! {

/// Event type of a program change.
pub const PROGRAM_CHANGE_EVENT: usize = 4;
/// Event type of a control change.
pub const CONTROL_CHANGE_EVENT: usize = 3;
/// Event type of anything else.
pub const OTHER_EVENT: usize = 8;

/// A MIDI event: its type, channel, note (or program, or controller) and
/// velocity (or value).
#[derive(PartialEq, Eq, Structural, Debug, Clone, Copy)]
pub struct MidiEvent {
    pub e_type: usize,
    pub channel: usize,
    pub note: usize,
    pub velocity: usize,
}

impl MidiEvent {
    /// The event for the raw MIDI bytes: a program change (status 192) gives
    /// its program, a control change (status 176) its controller and value;
    /// any other message is reported as type 8.
    pub fn new(bytes: &[u8]) -> (e: MidiEvent)
        requires
            bytes@.len() >= 1,
            bytes@[0] == 192 ==> bytes@.len() >= 2,
            bytes@[0] == 176 ==> bytes@.len() >= 3,
        ensures
            e == (if bytes@[0] == 192 {
                MidiEvent { e_type: PROGRAM_CHANGE_EVENT, channel: 0, note: bytes@[1] as usize, velocity: 0 }
            } else if bytes@[0] == 176 {
                MidiEvent { e_type: CONTROL_CHANGE_EVENT, channel: 0, note: bytes@[1] as usize, velocity: bytes@[2] as usize }
            } else {
                MidiEvent { e_type: OTHER_EVENT, channel: 0, note: 0, velocity: 0 }
            }),
    {
        match bytes[0] {
            192 => MidiEvent { e_type: PROGRAM_CHANGE_EVENT, channel: 0, note: bytes[1] as usize, velocity: 0 },
            176 => MidiEvent { e_type: CONTROL_CHANGE_EVENT, channel: 0, note: bytes[1] as usize, velocity: bytes[2] as usize },
            _ => MidiEvent { e_type: OTHER_EVENT, channel: 0, note: 0, velocity: 0 },
        }
    }
}

} // verus!
