//! the decisions the sound engine takes on the commands it receives
//!
//! The engine (which owns the mixer, the socket, the pedal boards and the
//! tuners) hands every `ParamMessage` it receives to `command_for`, which says
//! what is to be done; the engine then does it.  Values that are floating
//! point numbers (gains, fades, a pedal position) are taken from the
//! message's `fvalue` by the engine.
use vstd::prelude::*;

use super::mixer::MIXER_CHANNELS;
use super::param_message::{JamParam, ParamMessage};
use crate::pedals::pedal::{json_setting, read_setting, Setting};

verus! {

/// How long a connection holds up without a keepalive from the web client
pub const IDLE_DISCONNECT: u128 = 15 * 60 * 1000 * 1000;

/// The default (and slowest) interval between status updates
pub const IDLE_REFRESH: u128 = 2 * 1000 * 1000;

/// The fastest interval between status updates
pub const MIN_REFRESH: u128 = 150_000;

/// What the engine does for a command.
#[allow(inconsistent_fields)]
pub enum EngineCommand {
    /// set the gain of a mixer channel to the message's float value (dB)
    SetChannelGain { channel: usize },
    /// set the fade of a mixer channel to the message's float value
    SetChannelFade { channel: usize },
    /// connect to the room at `host:port` as member `id`
    Connect { host: String, port: i64, id: i64 },
    /// leave the room
    Disconnect,
    /// insert a pedal of type `name` at `index` on a board (none when the
    /// board does not exist), then report the boards
    InsertPedal { board: Option<usize>, name: String, index: usize },
    /// delete the pedal at `index` on a board, then report the boards
    DeletePedal { board: Option<usize>, index: usize },
    /// move the pedal at `from` on a board to the position given by the
    /// message's float value, rounded, then report the boards
    MovePedal { board: Option<usize>, from: usize },
    /// load a board from its JSON description, then report the boards
    LoadBoard { board: Option<usize>, config: String },
    /// turn a tuner on or off
    SetTuner { tuner: usize, enable: bool },
    /// change a setting of a pedal on a board
    SetEffectConfig { board: usize, pedal: usize, setting: Setting },
    /// the web client is still there: restart the disconnect timer
    KeepAlive,
    /// send status updates at this interval (microseconds) and restart the
    /// fallback timer
    SetUpdateInterval { interval: u128 },
    /// report the pedal boards
    SendPedalInfo,
    /// report the pedal types
    SendPedalTypes,
    /// nothing to do
    Ignore,
    /// a command the engine does not handle
    Unknown,
}

/// The index `v` given in a message, as the engine reads it.
pub open spec fn as_index(v: i64) -> usize {
    v as usize
}

/// The board a command names, if it exists.
pub open spec fn board_of(v: i64, num_boards: usize) -> Option<usize> {
    if as_index(v) < num_boards { Some(as_index(v)) } else { None }
}

/// The status interval asked for (`v` milliseconds), kept between
/// `MIN_REFRESH` and `IDLE_REFRESH`.
pub open spec fn update_interval(v: i64) -> u128 {
    let asked = (v * 1000) as u128;
    if asked < MIN_REFRESH {
        MIN_REFRESH
    } else if asked > IDLE_REFRESH {
        IDLE_REFRESH
    } else {
        asked
    }
}

/// What the engine does for `msg` when it has `num_boards` pedal boards.
pub open spec fn spec_command_for(msg: ParamMessage, num_boards: usize) -> EngineCommand {
    match msg.param {
        JamParam::ChanGain1 | JamParam::ChanGain2 | JamParam::ChanGain3 | JamParam::ChanGain4
        | JamParam::ChanGain5 | JamParam::ChanGain6 | JamParam::ChanGain7 | JamParam::ChanGain8
        | JamParam::ChanGain9 | JamParam::ChanGain10 | JamParam::ChanGain11 | JamParam::ChanGain12
        | JamParam::ChanGain13 | JamParam::ChanGain14 => EngineCommand::SetChannelGain { channel: msg.param.code() as usize },
        JamParam::SetFader => if as_index(msg.ivalue_1) < MIXER_CHANNELS {
            EngineCommand::SetChannelFade { channel: as_index(msg.ivalue_1) }
        } else {
            EngineCommand::Ignore
        },
        JamParam::RoomChange => EngineCommand::Connect { host: msg.svalue, port: msg.ivalue_1, id: msg.ivalue_2 },
        JamParam::Disconnect => EngineCommand::Disconnect,
        JamParam::InsertPedal => EngineCommand::InsertPedal {
            board: board_of(msg.ivalue_1, num_boards),
            name: msg.svalue,
            index: as_index(msg.ivalue_2),
        },
        JamParam::DeletePedal => EngineCommand::DeletePedal { board: board_of(msg.ivalue_1, num_boards), index: as_index(msg.ivalue_2) },
        JamParam::MovePedal => EngineCommand::MovePedal { board: board_of(msg.ivalue_1, num_boards), from: as_index(msg.ivalue_2) },
        JamParam::LoadBoard => EngineCommand::LoadBoard { board: board_of(msg.ivalue_1, num_boards), config: msg.svalue },
        JamParam::TuneChannel => if as_index(msg.ivalue_1) < 2 {
            EngineCommand::SetTuner { tuner: as_index(msg.ivalue_1), enable: msg.ivalue_2 == 1 }
        } else {
            EngineCommand::Ignore
        },
        JamParam::SetEffectConfig => match (board_of(msg.ivalue_1, num_boards), json_setting(msg.svalue@)) {
            (Some(b), Some(setting)) => EngineCommand::SetEffectConfig { board: b, pedal: as_index(msg.ivalue_2), setting },
            _ => EngineCommand::Ignore,
        },
        JamParam::ConnectionKeepAlive => EngineCommand::KeepAlive,
        JamParam::SetUpdateInterval => EngineCommand::SetUpdateInterval { interval: update_interval(msg.ivalue_1) },
        JamParam::GetConfigJson => EngineCommand::SendPedalInfo,
        JamParam::GetPedalTypes => EngineCommand::SendPedalTypes,
        _ => EngineCommand::Unknown,
    }
}

fn board_index(v: i64, num_boards: usize) -> (r: Option<usize>)
    ensures
        r == board_of(v, num_boards),
{
    let idx = v as usize;
    if idx < num_boards { Some(idx) } else { None }
}

/// What the engine does for `msg` when it has `num_boards` pedal boards.
///
/// The gain commands `ChanGain1` .. `ChanGain14` set channels 0 .. 13.  A
/// fader command names a channel, which must be on the mixer; a pedal command
/// names a board, acted on only when it exists (the boards are reported
/// either way); a setting change names a board and carries the setting as
/// JSON text, and is dropped when the board does not exist or the text is not
/// JSON; a tuner command names one of the two tuners.  An update
/// interval is given in milliseconds and kept between 150 ms and 2 s.
pub fn command_for(msg: &ParamMessage, num_boards: usize) -> (r: EngineCommand)
    requires
        msg.param == JamParam::SetUpdateInterval ==> i64::MIN <= msg.ivalue_1 * 1000 <= i64::MAX,
    ensures
        r == spec_command_for(*msg, num_boards),
{
    match msg.param {
        JamParam::ChanGain1 | JamParam::ChanGain2 | JamParam::ChanGain3 | JamParam::ChanGain4
        | JamParam::ChanGain5 | JamParam::ChanGain6 | JamParam::ChanGain7 | JamParam::ChanGain8
        | JamParam::ChanGain9 | JamParam::ChanGain10 | JamParam::ChanGain11 | JamParam::ChanGain12
        | JamParam::ChanGain13 | JamParam::ChanGain14 => EngineCommand::SetChannelGain { channel: msg.param.to_i64() as usize },
        JamParam::SetFader => {
            let idx = msg.ivalue_1 as usize;
            if idx < MIXER_CHANNELS {
                EngineCommand::SetChannelFade { channel: idx }
            } else {
                EngineCommand::Ignore
            }
        },
        JamParam::RoomChange => EngineCommand::Connect { host: msg.svalue.clone(), port: msg.ivalue_1, id: msg.ivalue_2 },
        JamParam::Disconnect => EngineCommand::Disconnect,
        JamParam::InsertPedal => EngineCommand::InsertPedal {
            board: board_index(msg.ivalue_1, num_boards),
            name: msg.svalue.clone(),
            index: msg.ivalue_2 as usize,
        },
        JamParam::DeletePedal => EngineCommand::DeletePedal { board: board_index(msg.ivalue_1, num_boards), index: msg.ivalue_2 as usize },
        JamParam::MovePedal => EngineCommand::MovePedal { board: board_index(msg.ivalue_1, num_boards), from: msg.ivalue_2 as usize },
        JamParam::LoadBoard => EngineCommand::LoadBoard { board: board_index(msg.ivalue_1, num_boards), config: msg.svalue.clone() },
        JamParam::TuneChannel => {
            let idx = msg.ivalue_1 as usize;
            if idx < 2 {
                EngineCommand::SetTuner { tuner: idx, enable: msg.ivalue_2 == 1 }
            } else {
                EngineCommand::Ignore
            }
        },
        JamParam::SetEffectConfig => match board_index(msg.ivalue_1, num_boards) {
            Some(b) => match read_setting(msg.svalue.as_str()) {
                Some(setting) => EngineCommand::SetEffectConfig { board: b, pedal: msg.ivalue_2 as usize, setting },
                None => EngineCommand::Ignore,
            },
            None => EngineCommand::Ignore,
        },
        JamParam::ConnectionKeepAlive => EngineCommand::KeepAlive,
        JamParam::SetUpdateInterval => {
            let mut interval = (msg.ivalue_1 * 1000) as u128;
            if interval < MIN_REFRESH {
                interval = MIN_REFRESH;
            }
            if interval > IDLE_REFRESH {
                interval = IDLE_REFRESH;
            }
            EngineCommand::SetUpdateInterval { interval }
        },
        JamParam::GetConfigJson => EngineCommand::SendPedalInfo,
        JamParam::GetPedalTypes => EngineCommand::SendPedalTypes,
        _ => EngineCommand::Unknown,
    }
}

/// A status update interval the engine is asked for always lies between
/// 150 ms and 2 s.
pub proof fn lemma_update_interval_bounded(v: i64)
    ensures
        MIN_REFRESH <= update_interval(v) <= IDLE_REFRESH,
{
}

/// A fade command only ever touches a channel of the mixer, and a gain command
/// one of the first fourteen.
pub proof fn lemma_channel_commands_in_mixer(msg: ParamMessage, num_boards: usize)
    ensures
        spec_command_for(msg, num_boards) matches EngineCommand::SetChannelFade { channel } ==> channel < MIXER_CHANNELS,
        spec_command_for(msg, num_boards) matches EngineCommand::SetChannelGain { channel } ==> channel < 14,
{
}

/// A pedal command only ever acts on a board that exists.
pub proof fn lemma_board_commands_in_range(msg: ParamMessage, num_boards: usize)
    ensures
        spec_command_for(msg, num_boards) matches EngineCommand::InsertPedal { board: Some(b), .. } ==> b < num_boards,
        spec_command_for(msg, num_boards) matches EngineCommand::DeletePedal { board: Some(b), .. } ==> b < num_boards,
        spec_command_for(msg, num_boards) matches EngineCommand::MovePedal { board: Some(b), .. } ==> b < num_boards,
        spec_command_for(msg, num_boards) matches EngineCommand::LoadBoard { board: Some(b), .. } ==> b < num_boards,
        spec_command_for(msg, num_boards) matches EngineCommand::SetEffectConfig { board, .. } ==> board < num_boards,
        spec_command_for(msg, num_boards) matches EngineCommand::SetTuner { tuner, .. } ==> tuner < 2,
{
}

/// The board a pedal command acts on is its first integer, and the pedal it
/// acts on (or the place a new pedal goes) is its second: a move takes the
/// pedal at `ivalue_2` of board `ivalue_1`, an insertion puts the pedal type
/// named by the string at `ivalue_2`, a deletion removes the pedal at
/// `ivalue_2`, a board load reads the string, and a setting change names the
/// pedal at `ivalue_2`.  A board that is not on the unit is none.
pub proof fn lemma_pedal_command_operands(msg: ParamMessage, num_boards: usize)
    ensures
        ({
            let board = if (msg.ivalue_1 as usize) < num_boards { Some(msg.ivalue_1 as usize) } else { None };
            &&& msg.param == JamParam::MovePedal ==> spec_command_for(msg, num_boards) == (EngineCommand::MovePedal {
                board,
                from: msg.ivalue_2 as usize,
            })
            &&& msg.param == JamParam::InsertPedal ==> spec_command_for(msg, num_boards) == (EngineCommand::InsertPedal {
                board,
                name: msg.svalue,
                index: msg.ivalue_2 as usize,
            })
            &&& msg.param == JamParam::DeletePedal ==> spec_command_for(msg, num_boards) == (EngineCommand::DeletePedal {
                board,
                index: msg.ivalue_2 as usize,
            })
            &&& msg.param == JamParam::LoadBoard ==> spec_command_for(msg, num_boards) == (EngineCommand::LoadBoard {
                board,
                config: msg.svalue,
            })
            &&& msg.param == JamParam::SetEffectConfig ==> (spec_command_for(msg, num_boards) matches EngineCommand::SetEffectConfig { board: b, pedal, .. }
                ==> board == Some(b) && pedal == msg.ivalue_2 as usize)
        }),
{
}

/// The pedal a move takes depends on the second integer alone: two move
/// commands that differ only in their board number move the same pedal.
pub proof fn lemma_move_source_ignores_board(msg: ParamMessage, other_board: i64, num_boards: usize)
    requires
        msg.param == JamParam::MovePedal,
    ensures
        ({
            let moved = ParamMessage { ivalue_1: other_board, ..msg };
            &&& spec_command_for(msg, num_boards) is MovePedal
            &&& spec_command_for(moved, num_boards) is MovePedal
            &&& spec_command_for(msg, num_boards)->from == spec_command_for(moved, num_boards)->from
        }),
{
}

/// A room change connects to the host in the string, at the port in the first
/// integer, as the member in the second; a tuner command turns tuner
/// `ivalue_1` on exactly when `ivalue_2` is 1; a fader command names the
/// mixer channel in the first integer; a gain command `ChanGainN` sets
/// channel `N - 1`.
pub proof fn lemma_other_command_operands(msg: ParamMessage, num_boards: usize)
    ensures
        msg.param == JamParam::RoomChange ==> spec_command_for(msg, num_boards) == (EngineCommand::Connect {
            host: msg.svalue,
            port: msg.ivalue_1,
            id: msg.ivalue_2,
        }),
        msg.param == JamParam::TuneChannel && (msg.ivalue_1 as usize) < 2 ==> spec_command_for(msg, num_boards) == (EngineCommand::SetTuner {
            tuner: msg.ivalue_1 as usize,
            enable: msg.ivalue_2 == 1,
        }),
        msg.param == JamParam::SetFader && (msg.ivalue_1 as usize) < MIXER_CHANNELS ==> spec_command_for(msg, num_boards) == (EngineCommand::SetChannelFade {
            channel: msg.ivalue_1 as usize,
        }),
        msg.param == JamParam::ChanGain1 ==> spec_command_for(msg, num_boards) == (EngineCommand::SetChannelGain { channel: 0 }),
        msg.param == JamParam::ChanGain14 ==> spec_command_for(msg, num_boards) == (EngineCommand::SetChannelGain { channel: 13 }),
{
}

} // verus!
