//! routing of the commands that reach the sound unit from the websocket
//!
//! Most commands go to the sound engine.  A few are handled by the unit
//! itself: audio device settings are written to files, audio hardware can be
//! listed, a shell command can be run, the unit can be restarted or shut down,
//! and pedal boards can be loaded.
use vstd::prelude::*;

use super::param_message::{JamParam, ParamMessage};

verus! {

broadcast use vstd::string::group_string_axioms;

/// Number of pedal boards on the unit (one per input channel).
pub const NUM_BOARDS: usize = 2;

/// The audio devices whose names the unit keeps in files.
#[derive(PartialEq, Eq, Structural, Debug, Clone, Copy)]
pub enum AudioDevice {
    Input,
    Output,
}

impl AudioDevice {
    /// The file that holds the device's name.
    pub fn config_file(&self) -> (r: &'static str)
        ensures
            r@ == match self {
                AudioDevice::Input => "soundin.cfg"@,
                AudioDevice::Output => "soundout.cfg"@,
            },
    {
        match self {
            AudioDevice::Input => "soundin.cfg",
            AudioDevice::Output => "soundout.cfg",
        }
    }
}

/// What the unit does with a command from the websocket.
pub enum ClientRoute {
    /// write `contents` to the config file of `device`
    WriteFile { device: AudioDevice, contents: String },
    /// report the audio hardware
    ListAudioConfig,
    /// leave the program (to be restarted, or to shut down)
    Exit,
    /// run a shell command line and report its output
    RunCommand { line: String },
    /// build pedal board `board` from its JSON description and hand it to the engine
    LoadBoard { board: usize, config: String },
    /// nothing to do
    Ignore,
    /// pass the command on to the sound engine
    ToEngine,
}

/// What the unit does with `msg`.
pub open spec fn spec_route(msg: ParamMessage) -> ClientRoute {
    match msg.param {
        JamParam::SetAudioInput => ClientRoute::WriteFile { device: AudioDevice::Input, contents: msg.svalue },
        JamParam::SetAudioOutput => ClientRoute::WriteFile { device: AudioDevice::Output, contents: msg.svalue },
        JamParam::ListAudioConfig => ClientRoute::ListAudioConfig,
        JamParam::CheckForUpdate => ClientRoute::Exit,
        JamParam::RandomCommand => ClientRoute::RunCommand { line: msg.svalue },
        JamParam::ShutdownDevice => ClientRoute::Exit,
        JamParam::LoadBoard => if (msg.ivalue_1 as usize) < NUM_BOARDS {
            ClientRoute::LoadBoard { board: msg.ivalue_1 as usize, config: msg.svalue }
        } else {
            ClientRoute::Ignore
        },
        _ => ClientRoute::ToEngine,
    }
}

/// What the unit does with `msg`: device settings are written to their
/// files, an update check or a shutdown ends the program, a board load names
/// one of the unit's two boards, and everything else goes to the engine.
pub fn route(msg: &ParamMessage) -> (r: ClientRoute)
    ensures
        r == spec_route(*msg),
{
    match msg.param {
        JamParam::SetAudioInput => ClientRoute::WriteFile { device: AudioDevice::Input, contents: msg.svalue.clone() },
        JamParam::SetAudioOutput => ClientRoute::WriteFile { device: AudioDevice::Output, contents: msg.svalue.clone() },
        JamParam::ListAudioConfig => ClientRoute::ListAudioConfig,
        JamParam::CheckForUpdate => ClientRoute::Exit,
        JamParam::RandomCommand => ClientRoute::RunCommand { line: msg.svalue.clone() },
        JamParam::ShutdownDevice => ClientRoute::Exit,
        JamParam::LoadBoard => {
            let idx = msg.ivalue_1 as usize;
            if idx < NUM_BOARDS {
                ClientRoute::LoadBoard { board: idx, config: msg.svalue.clone() }
            } else {
                ClientRoute::Ignore
            }
        },
        _ => ClientRoute::ToEngine,
    }
}

/// Each device setting is written to its own device's file: a command writes
/// the output device exactly when it is `SetAudioOutput`, and the input
/// device exactly when it is `SetAudioInput`, and what is written is the
/// command's string.  A shell command runs the string, and a board load names
/// board `ivalue_1`, one of the unit's boards.
pub proof fn lemma_route_operands(msg: ParamMessage)
    ensures
        spec_route(msg) matches ClientRoute::WriteFile { device, contents } ==> {
            &&& (device == AudioDevice::Output <==> msg.param == JamParam::SetAudioOutput)
            &&& (device == AudioDevice::Input <==> msg.param == JamParam::SetAudioInput)
            &&& contents == msg.svalue
        },
        msg.param == JamParam::SetAudioOutput ==> spec_route(msg) == (ClientRoute::WriteFile { device: AudioDevice::Output, contents: msg.svalue }),
        msg.param == JamParam::SetAudioInput ==> spec_route(msg) == (ClientRoute::WriteFile { device: AudioDevice::Input, contents: msg.svalue }),
        spec_route(msg) matches ClientRoute::RunCommand { line } ==> msg.param == JamParam::RandomCommand && line == msg.svalue,
        spec_route(msg) matches ClientRoute::LoadBoard { board, config } ==> msg.param == JamParam::LoadBoard && board == msg.ivalue_1 as usize
            && board < NUM_BOARDS && config == msg.svalue,
        spec_route(msg) is Exit <==> (msg.param == JamParam::CheckForUpdate || msg.param == JamParam::ShutdownDevice),
{
}

} // verus!
