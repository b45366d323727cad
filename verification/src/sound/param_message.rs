//! Structure used to pass messages to the audio engine from the websocket
use vstd::prelude::*;

use crate::json_fields::{
    float_field, int_field, param_code, read_message_fields, spec_float_field, spec_int_field,
    spec_param_code, spec_text_field, text_field, json_message_fields, FloatValue, MessageError,
    MessageFields, JsonScalar, spec_parse_i64,
};

verus! {

broadcast use vstd::string::group_string_axioms;

/// The commands the sound engine understands.  Each has a fixed number, given
/// by `JamParam::code`, that is how it travels in a message.
#[derive(PartialEq, Eq, Structural, Debug, Clone, Copy)]
    pub enum JamParam {
        ChanGain1,
        ChanGain2,
        ChanGain3,
        ChanGain4,
        ChanGain5,
        ChanGain6,
        ChanGain7,
        ChanGain8,
        ChanGain9,
        ChanGain10,
        ChanGain11,
        ChanGain12,
        ChanGain13,
        ChanGain14,
        /// set gain on the master volume
        MasterVol,
        InputMonitor,
        Room0,
        Room1,
        Room2,
        ReverbChanOne,
        ReverbMix,
        /// connect to a room (join a room)
        RoomChange,
        /// disconnect from a room
        Disconnect,
        HPFOn,
        HPFOff,
        ReverbOne,
        ReverbTwo,
        GetConfigJson,
        SetEffectConfig,
        InsertPedal,
        DeletePedal,
        MovePedal,
        LoadBoard,
        TuneChannel,
        MetronomeVolume,
        /// change the fader on a channel
        SetFader,
        /// send silence to the room (but not to the mixer)
        MuteToRoom,
        ConnectionKeepAlive,
        /// change the frame size
        SetBufferSize,
        /// set the mute status on a channel
        ChannelMute,
        /// set the gain on a channel
        ChannelGain,
        /// count of the basic commands
        Count,
        SetAudioInput,
        SetAudioOutput,
        ListAudioConfig,
        CheckForUpdate,
        RandomCommand,
        GetPedalTypes,
        /// set how often the unit updates the browser
        SetUpdateInterval,
        RebootDevice,
        /// shut the device down
        ShutdownDevice,
        /// stop the audio engine
        StopAudio,
    }

impl JamParam {
    /// The number of the command.
    pub open spec fn code(self) -> int {
        match self {
            JamParam::ChanGain1 => 0,
            JamParam::ChanGain2 => 1,
            JamParam::ChanGain3 => 2,
            JamParam::ChanGain4 => 3,
            JamParam::ChanGain5 => 4,
            JamParam::ChanGain6 => 5,
            JamParam::ChanGain7 => 6,
            JamParam::ChanGain8 => 7,
            JamParam::ChanGain9 => 8,
            JamParam::ChanGain10 => 9,
            JamParam::ChanGain11 => 10,
            JamParam::ChanGain12 => 11,
            JamParam::ChanGain13 => 12,
            JamParam::ChanGain14 => 13,
            JamParam::MasterVol => 14,
            JamParam::InputMonitor => 15,
            JamParam::Room0 => 16,
            JamParam::Room1 => 17,
            JamParam::Room2 => 18,
            JamParam::ReverbChanOne => 19,
            JamParam::ReverbMix => 20,
            JamParam::RoomChange => 21,
            JamParam::Disconnect => 22,
            JamParam::HPFOn => 23,
            JamParam::HPFOff => 24,
            JamParam::ReverbOne => 25,
            JamParam::ReverbTwo => 26,
            JamParam::GetConfigJson => 27,
            JamParam::SetEffectConfig => 28,
            JamParam::InsertPedal => 29,
            JamParam::DeletePedal => 30,
            JamParam::MovePedal => 31,
            JamParam::LoadBoard => 32,
            JamParam::TuneChannel => 33,
            JamParam::MetronomeVolume => 34,
            JamParam::SetFader => 35,
            JamParam::MuteToRoom => 36,
            JamParam::ConnectionKeepAlive => 37,
            JamParam::SetBufferSize => 38,
            JamParam::ChannelMute => 39,
            JamParam::ChannelGain => 40,
            JamParam::Count => 41,
            JamParam::SetAudioInput => 1000,
            JamParam::SetAudioOutput => 1001,
            JamParam::ListAudioConfig => 1002,
            JamParam::CheckForUpdate => 1003,
            JamParam::RandomCommand => 1004,
            JamParam::GetPedalTypes => 1005,
            JamParam::SetUpdateInterval => 1006,
            JamParam::RebootDevice => 9998,
            JamParam::ShutdownDevice => 9999,
            JamParam::StopAudio => 10000,
        }
    }

    /// The number of the command.
    pub fn to_i64(&self) -> (r: i64)
        ensures
            r == self.code(),
    {
        match self {
            JamParam::ChanGain1 => 0,
            JamParam::ChanGain2 => 1,
            JamParam::ChanGain3 => 2,
            JamParam::ChanGain4 => 3,
            JamParam::ChanGain5 => 4,
            JamParam::ChanGain6 => 5,
            JamParam::ChanGain7 => 6,
            JamParam::ChanGain8 => 7,
            JamParam::ChanGain9 => 8,
            JamParam::ChanGain10 => 9,
            JamParam::ChanGain11 => 10,
            JamParam::ChanGain12 => 11,
            JamParam::ChanGain13 => 12,
            JamParam::ChanGain14 => 13,
            JamParam::MasterVol => 14,
            JamParam::InputMonitor => 15,
            JamParam::Room0 => 16,
            JamParam::Room1 => 17,
            JamParam::Room2 => 18,
            JamParam::ReverbChanOne => 19,
            JamParam::ReverbMix => 20,
            JamParam::RoomChange => 21,
            JamParam::Disconnect => 22,
            JamParam::HPFOn => 23,
            JamParam::HPFOff => 24,
            JamParam::ReverbOne => 25,
            JamParam::ReverbTwo => 26,
            JamParam::GetConfigJson => 27,
            JamParam::SetEffectConfig => 28,
            JamParam::InsertPedal => 29,
            JamParam::DeletePedal => 30,
            JamParam::MovePedal => 31,
            JamParam::LoadBoard => 32,
            JamParam::TuneChannel => 33,
            JamParam::MetronomeVolume => 34,
            JamParam::SetFader => 35,
            JamParam::MuteToRoom => 36,
            JamParam::ConnectionKeepAlive => 37,
            JamParam::SetBufferSize => 38,
            JamParam::ChannelMute => 39,
            JamParam::ChannelGain => 40,
            JamParam::Count => 41,
            JamParam::SetAudioInput => 1000,
            JamParam::SetAudioOutput => 1001,
            JamParam::ListAudioConfig => 1002,
            JamParam::CheckForUpdate => 1003,
            JamParam::RandomCommand => 1004,
            JamParam::GetPedalTypes => 1005,
            JamParam::SetUpdateInterval => 1006,
            JamParam::RebootDevice => 9998,
            JamParam::ShutdownDevice => 9999,
            JamParam::StopAudio => 10000,
        }
    }

    /// The command with number `v`, if there is one.
    pub fn from_i64(v: i64) -> (r: Option<JamParam>)
        ensures
            match r {
                Some(p) => p.code() == v,
                None => forall|p: JamParam| #[trigger] p.code() != v,
            },
    {
        match v {
            0 => Some(JamParam::ChanGain1),
            1 => Some(JamParam::ChanGain2),
            2 => Some(JamParam::ChanGain3),
            3 => Some(JamParam::ChanGain4),
            4 => Some(JamParam::ChanGain5),
            5 => Some(JamParam::ChanGain6),
            6 => Some(JamParam::ChanGain7),
            7 => Some(JamParam::ChanGain8),
            8 => Some(JamParam::ChanGain9),
            9 => Some(JamParam::ChanGain10),
            10 => Some(JamParam::ChanGain11),
            11 => Some(JamParam::ChanGain12),
            12 => Some(JamParam::ChanGain13),
            13 => Some(JamParam::ChanGain14),
            14 => Some(JamParam::MasterVol),
            15 => Some(JamParam::InputMonitor),
            16 => Some(JamParam::Room0),
            17 => Some(JamParam::Room1),
            18 => Some(JamParam::Room2),
            19 => Some(JamParam::ReverbChanOne),
            20 => Some(JamParam::ReverbMix),
            21 => Some(JamParam::RoomChange),
            22 => Some(JamParam::Disconnect),
            23 => Some(JamParam::HPFOn),
            24 => Some(JamParam::HPFOff),
            25 => Some(JamParam::ReverbOne),
            26 => Some(JamParam::ReverbTwo),
            27 => Some(JamParam::GetConfigJson),
            28 => Some(JamParam::SetEffectConfig),
            29 => Some(JamParam::InsertPedal),
            30 => Some(JamParam::DeletePedal),
            31 => Some(JamParam::MovePedal),
            32 => Some(JamParam::LoadBoard),
            33 => Some(JamParam::TuneChannel),
            34 => Some(JamParam::MetronomeVolume),
            35 => Some(JamParam::SetFader),
            36 => Some(JamParam::MuteToRoom),
            37 => Some(JamParam::ConnectionKeepAlive),
            38 => Some(JamParam::SetBufferSize),
            39 => Some(JamParam::ChannelMute),
            40 => Some(JamParam::ChannelGain),
            41 => Some(JamParam::Count),
            1000 => Some(JamParam::SetAudioInput),
            1001 => Some(JamParam::SetAudioOutput),
            1002 => Some(JamParam::ListAudioConfig),
            1003 => Some(JamParam::CheckForUpdate),
            1004 => Some(JamParam::RandomCommand),
            1005 => Some(JamParam::GetPedalTypes),
            1006 => Some(JamParam::SetUpdateInterval),
            9998 => Some(JamParam::RebootDevice),
            9999 => Some(JamParam::ShutdownDevice),
            10000 => Some(JamParam::StopAudio),
            _ => None,
        }
    }
}

/// No two commands share a number, so a command is found again from its number.
pub proof fn lemma_jam_param_code_injective(p: JamParam, q: JamParam)
    ensures
        p.code() == q.code() ==> p == q,
{
}

/// The ParamMessage is used to define the API to the sound engine from the
/// outside world.  A message is a command and four values whose meaning depends
/// on the command: two integers, a floating point value and a string.
pub struct ParamMessage {
    pub param: JamParam,
    pub ivalue_1: i64,
    pub ivalue_2: i64,
    pub fvalue: FloatValue,
    pub svalue: String,
}

/// The message that a set of fields decodes to, or why it does not.
///
/// `param` must hold a command number (as a number or as a string); the
/// integer values may be given as numbers or strings and default to zero; the
/// string value defaults to the empty string.  Errors are found in the order
/// `param`, `iValue1`, `iValue2`, `fValue`; a string under `fValue` must
/// hold a floating point number.
pub open spec fn decode_param_message(f: MessageFields) -> Result<(JamParam, i64, i64, FloatValue, Seq<char>), MessageError> {
    match spec_param_code(f.param) {
        Err(e) => Err(e),
        Ok(code) => if exists|p: JamParam| p.code() == code {
            let p = choose|p: JamParam| p.code() == code;
            match spec_int_field(f.ivalue_1) {
                Err(e) => Err(e),
                Ok(i1) => match spec_int_field(f.ivalue_2) {
                    Err(e) => Err(e),
                    Ok(i2) => match spec_float_field(f.fvalue) {
                        Err(e) => Err(e),
                        Ok(fv) => Ok((p, i1, i2, fv, spec_text_field(f.svalue))),
                    },
                },
            }
        } else {
            Err(MessageError::UnknownParam)
        },
    }
}

impl ParamMessage {
    /// The message's values, with the string as characters.
    pub open spec fn parts(&self) -> (JamParam, i64, i64, FloatValue, Seq<char>) {
        (self.param, self.ivalue_1, self.ivalue_2, self.fvalue, self.svalue@)
    }

    pub fn new(param: JamParam, ival1: i64, ival2: i64, fval: FloatValue, sval: &str) -> (m: ParamMessage)
        ensures
            m.parts() == (param, ival1, ival2, fval, sval@),
    {
        ParamMessage { param: param, ivalue_1: ival1, ivalue_2: ival2, fvalue: fval, svalue: sval.to_string() }
    }

    /// Decode a message from JSON text.
    pub fn from_string(data: &str) -> (r: Result<ParamMessage, MessageError>)
        ensures
            match json_message_fields(data@) {
                None => r == Err::<ParamMessage, MessageError>(MessageError::BadJson),
                Some(f) => match (r, decode_param_message(f)) {
                    (Ok(m), Ok(parts)) => m.parts() == parts,
                    (Err(e), Err(e2)) => e == e2,
                    _ => false,
                },
            },
    {
        match read_message_fields(data) {
            None => Err(MessageError::BadJson),
            Some(f) => Self::from_json(&f),
        }
    }

    /// Decode a message from the fields of a JSON object.
    pub fn from_json(raw: &MessageFields) -> (r: Result<ParamMessage, MessageError>)
        ensures
            match (r, decode_param_message(*raw)) {
                (Ok(m), Ok(parts)) => m.parts() == parts,
                (Err(e), Err(e2)) => e == e2,
                _ => false,
            },
    {
        let code = match param_code(&raw.param) {
            Ok(c) => c,
            Err(e) => return Err(e),
        };
        let param = match JamParam::from_i64(code) {
            Some(p) => p,
            None => return Err(MessageError::UnknownParam),
        };
        proof {
            assert(param.code() == code);
            let q = choose|p: JamParam| p.code() == code;
            lemma_jam_param_code_injective(param, q);
        }
        let ivalue_1 = match int_field(&raw.ivalue_1) {
            Ok(i) => i,
            Err(e) => return Err(e),
        };
        let ivalue_2 = match int_field(&raw.ivalue_2) {
            Ok(i) => i,
            Err(e) => return Err(e),
        };
        let fvalue = match float_field(&raw.fvalue) {
            Ok(v) => v,
            Err(e) => return Err(e),
        };
        Ok(ParamMessage {
            param,
            ivalue_1,
            ivalue_2,
            fvalue,
            svalue: text_field(&raw.svalue),
        })
    }
}

/// The basic engine commands in the order they are declared, numbered from 0.
pub open spec fn jam_params_basic() -> Seq<JamParam> {
    seq![
        JamParam::ChanGain1,
        JamParam::ChanGain2,
        JamParam::ChanGain3,
        JamParam::ChanGain4,
        JamParam::ChanGain5,
        JamParam::ChanGain6,
        JamParam::ChanGain7,
        JamParam::ChanGain8,
        JamParam::ChanGain9,
        JamParam::ChanGain10,
        JamParam::ChanGain11,
        JamParam::ChanGain12,
        JamParam::ChanGain13,
        JamParam::ChanGain14,
        JamParam::MasterVol,
        JamParam::InputMonitor,
        JamParam::Room0,
        JamParam::Room1,
        JamParam::Room2,
        JamParam::ReverbChanOne,
        JamParam::ReverbMix,
        JamParam::RoomChange,
        JamParam::Disconnect,
        JamParam::HPFOn,
        JamParam::HPFOff,
        JamParam::ReverbOne,
        JamParam::ReverbTwo,
        JamParam::GetConfigJson,
        JamParam::SetEffectConfig,
        JamParam::InsertPedal,
        JamParam::DeletePedal,
        JamParam::MovePedal,
        JamParam::LoadBoard,
        JamParam::TuneChannel,
        JamParam::MetronomeVolume,
        JamParam::SetFader,
        JamParam::MuteToRoom,
        JamParam::ConnectionKeepAlive,
        JamParam::SetBufferSize,
        JamParam::ChannelMute,
        JamParam::ChannelGain,
        JamParam::Count,
    ]
}

/// The commands handled by the unit itself, in the order they are declared,
/// numbered from 1000.
pub open spec fn jam_params_unit() -> Seq<JamParam> {
    seq![
        JamParam::SetAudioInput,
        JamParam::SetAudioOutput,
        JamParam::ListAudioConfig,
        JamParam::CheckForUpdate,
        JamParam::RandomCommand,
        JamParam::GetPedalTypes,
        JamParam::SetUpdateInterval,
    ]
}

/// The device commands, in the order they are declared, numbered from 9998.
pub open spec fn jam_params_device() -> Seq<JamParam> {
    seq![
        JamParam::RebootDevice,
        JamParam::ShutdownDevice,
        JamParam::StopAudio,
    ]
}

/// Engine commands are numbered by their place in their block of the
/// declaration: the basic commands from 0, the unit's own commands from 1000,
/// and the device commands from 9998.  Every command is in one of the blocks.
pub proof fn lemma_jam_param_numbers_follow_order(p: JamParam, i: int)
    ensures
        0 <= i < jam_params_basic().len() ==> jam_params_basic()[i].code() == i,
        0 <= i < jam_params_unit().len() ==> jam_params_unit()[i].code() == 1000 + i,
        0 <= i < jam_params_device().len() ==> jam_params_device()[i].code() == 9998 + i,
        jam_params_basic().contains(p) || jam_params_unit().contains(p) || jam_params_device().contains(p),
{
    match p {
        JamParam::ChanGain1 => assert(jam_params_basic()[0] == p),
        JamParam::ChanGain2 => assert(jam_params_basic()[1] == p),
        JamParam::ChanGain3 => assert(jam_params_basic()[2] == p),
        JamParam::ChanGain4 => assert(jam_params_basic()[3] == p),
        JamParam::ChanGain5 => assert(jam_params_basic()[4] == p),
        JamParam::ChanGain6 => assert(jam_params_basic()[5] == p),
        JamParam::ChanGain7 => assert(jam_params_basic()[6] == p),
        JamParam::ChanGain8 => assert(jam_params_basic()[7] == p),
        JamParam::ChanGain9 => assert(jam_params_basic()[8] == p),
        JamParam::ChanGain10 => assert(jam_params_basic()[9] == p),
        JamParam::ChanGain11 => assert(jam_params_basic()[10] == p),
        JamParam::ChanGain12 => assert(jam_params_basic()[11] == p),
        JamParam::ChanGain13 => assert(jam_params_basic()[12] == p),
        JamParam::ChanGain14 => assert(jam_params_basic()[13] == p),
        JamParam::MasterVol => assert(jam_params_basic()[14] == p),
        JamParam::InputMonitor => assert(jam_params_basic()[15] == p),
        JamParam::Room0 => assert(jam_params_basic()[16] == p),
        JamParam::Room1 => assert(jam_params_basic()[17] == p),
        JamParam::Room2 => assert(jam_params_basic()[18] == p),
        JamParam::ReverbChanOne => assert(jam_params_basic()[19] == p),
        JamParam::ReverbMix => assert(jam_params_basic()[20] == p),
        JamParam::RoomChange => assert(jam_params_basic()[21] == p),
        JamParam::Disconnect => assert(jam_params_basic()[22] == p),
        JamParam::HPFOn => assert(jam_params_basic()[23] == p),
        JamParam::HPFOff => assert(jam_params_basic()[24] == p),
        JamParam::ReverbOne => assert(jam_params_basic()[25] == p),
        JamParam::ReverbTwo => assert(jam_params_basic()[26] == p),
        JamParam::GetConfigJson => assert(jam_params_basic()[27] == p),
        JamParam::SetEffectConfig => assert(jam_params_basic()[28] == p),
        JamParam::InsertPedal => assert(jam_params_basic()[29] == p),
        JamParam::DeletePedal => assert(jam_params_basic()[30] == p),
        JamParam::MovePedal => assert(jam_params_basic()[31] == p),
        JamParam::LoadBoard => assert(jam_params_basic()[32] == p),
        JamParam::TuneChannel => assert(jam_params_basic()[33] == p),
        JamParam::MetronomeVolume => assert(jam_params_basic()[34] == p),
        JamParam::SetFader => assert(jam_params_basic()[35] == p),
        JamParam::MuteToRoom => assert(jam_params_basic()[36] == p),
        JamParam::ConnectionKeepAlive => assert(jam_params_basic()[37] == p),
        JamParam::SetBufferSize => assert(jam_params_basic()[38] == p),
        JamParam::ChannelMute => assert(jam_params_basic()[39] == p),
        JamParam::ChannelGain => assert(jam_params_basic()[40] == p),
        JamParam::Count => assert(jam_params_basic()[41] == p),
        JamParam::SetAudioInput => assert(jam_params_unit()[0] == p),
        JamParam::SetAudioOutput => assert(jam_params_unit()[1] == p),
        JamParam::ListAudioConfig => assert(jam_params_unit()[2] == p),
        JamParam::CheckForUpdate => assert(jam_params_unit()[3] == p),
        JamParam::RandomCommand => assert(jam_params_unit()[4] == p),
        JamParam::GetPedalTypes => assert(jam_params_unit()[5] == p),
        JamParam::SetUpdateInterval => assert(jam_params_unit()[6] == p),
        JamParam::RebootDevice => assert(jam_params_device()[0] == p),
        JamParam::ShutdownDevice => assert(jam_params_device()[1] == p),
        JamParam::StopAudio => assert(jam_params_device()[2] == p),
    }
}

/// What a decoded engine command holds: the command numbered under `param`
/// (given as a number or as a string holding one), the integers under
/// `iValue1` and `iValue2` (each zero when there is no number or string
/// there), the float value under `fValue`, and the string under `sValue`
/// (empty when there is none).
pub proof fn lemma_param_message_fields(f: MessageFields)
    ensures
        match decode_param_message(f) {
            Ok(parts) => {
                &&& match f.param {
                    JsonScalar::Number { int: Some(i), .. } => parts.0.code() == i,
                    JsonScalar::Text(s) => spec_parse_i64(s@) == Some(parts.0.code() as i64),
                    _ => false,
                }
                &&& match f.ivalue_1 {
                    JsonScalar::Number { int: Some(i), .. } => parts.1 == i,
                    JsonScalar::Text(s) => spec_parse_i64(s@) == Some(parts.1),
                    _ => parts.1 == 0,
                }
                &&& match f.ivalue_2 {
                    JsonScalar::Number { int: Some(i), .. } => parts.2 == i,
                    JsonScalar::Text(s) => spec_parse_i64(s@) == Some(parts.2),
                    _ => parts.2 == 0,
                }
                &&& match f.fvalue {
                    JsonScalar::Number { int: Some(i), .. } => parts.3 == FloatValue::Int(i),
                    JsonScalar::Number { int: None, is_float: true, text } => parts.3 == FloatValue::Number(text),
                    JsonScalar::Text(s) => parts.3 == FloatValue::Text(s),
                    _ => parts.3 == FloatValue::Zero,
                }
                &&& match f.svalue {
                    JsonScalar::Text(s) => parts.4 == s@,
                    _ => parts.4 == Seq::<char>::empty(),
                }
            },
            Err(_) => true,
        },
{
}

} // verus!
