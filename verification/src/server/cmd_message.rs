//! Commands sent to the room component from the outside world
use vstd::prelude::*;

use crate::json_fields::{
    float_field, int_field, param_code, read_message_fields, spec_float_field, spec_int_field,
    spec_param_code, spec_text_field, text_field, json_message_fields, FloatValue, MessageError,
    MessageFields, JsonScalar, spec_parse_i64,
};

verus! {

broadcast use vstd::string::group_string_axioms;

/// The commands a room understands, numbered from zero in this order.
#[derive(PartialEq, Eq, Structural, Debug, Clone, Copy)]
pub enum RoomParam {
    GetTempo,
    SetTempo,
    Record,
    Pause,
    Stop,
    Play,
    ListFiles,
    SaveRecording,
    DeleteRecording,
    UploadRecording,
}

impl RoomParam {
    /// The number of the command.
    pub open spec fn code(self) -> int {
        match self {
            RoomParam::GetTempo => 0,
            RoomParam::SetTempo => 1,
            RoomParam::Record => 2,
            RoomParam::Pause => 3,
            RoomParam::Stop => 4,
            RoomParam::Play => 5,
            RoomParam::ListFiles => 6,
            RoomParam::SaveRecording => 7,
            RoomParam::DeleteRecording => 8,
            RoomParam::UploadRecording => 9,
        }
    }

    /// The number of the command.
    pub fn to_i64(&self) -> (r: i64)
        ensures
            r == self.code(),
    {
        match self {
            RoomParam::GetTempo => 0,
            RoomParam::SetTempo => 1,
            RoomParam::Record => 2,
            RoomParam::Pause => 3,
            RoomParam::Stop => 4,
            RoomParam::Play => 5,
            RoomParam::ListFiles => 6,
            RoomParam::SaveRecording => 7,
            RoomParam::DeleteRecording => 8,
            RoomParam::UploadRecording => 9,
        }
    }

    /// The command with number `v`, if there is one.
    pub fn from_i64(v: i64) -> (r: Option<RoomParam>)
        ensures
            match r {
                Some(p) => p.code() == v,
                None => forall|p: RoomParam| #[trigger] p.code() != v,
            },
    {
        match v {
            0 => Some(RoomParam::GetTempo),
            1 => Some(RoomParam::SetTempo),
            2 => Some(RoomParam::Record),
            3 => Some(RoomParam::Pause),
            4 => Some(RoomParam::Stop),
            5 => Some(RoomParam::Play),
            6 => Some(RoomParam::ListFiles),
            7 => Some(RoomParam::SaveRecording),
            8 => Some(RoomParam::DeleteRecording),
            9 => Some(RoomParam::UploadRecording),
            _ => None,
        }
    }
}

/// No two room commands share a number.
pub proof fn lemma_room_param_code_injective(p: RoomParam, q: RoomParam)
    ensures
        p.code() == q.code() ==> p == q,
{
}

/// The RoomCommandMessage is used to define the API to the room component from
/// the outside world: a command and three values whose meaning depends on the
/// command (an integer, a floating point value and a string).
pub struct RoomCommandMessage {
    pub param: RoomParam,
    pub ivalue_1: i64,
    pub fvalue: FloatValue,
    pub svalue: String,
}

/// The room command that a set of fields decodes to, or why it does not.
/// `iValue2` plays no part.
pub open spec fn decode_room_command(f: MessageFields) -> Result<(RoomParam, i64, FloatValue, Seq<char>), MessageError> {
    match spec_param_code(f.param) {
        Err(e) => Err(e),
        Ok(code) => if exists|p: RoomParam| p.code() == code {
            let p = choose|p: RoomParam| p.code() == code;
            match spec_int_field(f.ivalue_1) {
                Err(e) => Err(e),
                Ok(i1) => match spec_float_field(f.fvalue) {
                    Err(e) => Err(e),
                    Ok(fv) => Ok((p, i1, fv, spec_text_field(f.svalue))),
                },
            }
        } else {
            Err(MessageError::UnknownParam)
        },
    }
}

impl RoomCommandMessage {
    /// The message's values, with the string as characters.
    pub open spec fn parts(&self) -> (RoomParam, i64, FloatValue, Seq<char>) {
        (self.param, self.ivalue_1, self.fvalue, self.svalue@)
    }

    pub fn new(param: RoomParam, ival1: i64, fval: FloatValue, sval: &str) -> (m: RoomCommandMessage)
        ensures
            m.parts() == (param, ival1, fval, sval@),
    {
        RoomCommandMessage { param: param, ivalue_1: ival1, fvalue: fval, svalue: sval.to_string() }
    }

    /// Decode a room command from JSON text.
    pub fn from_string(data: &str) -> (r: Result<RoomCommandMessage, MessageError>)
        ensures
            match json_message_fields(data@) {
                None => r == Err::<RoomCommandMessage, MessageError>(MessageError::BadJson),
                Some(f) => match (r, decode_room_command(f)) {
                    (Ok(m), Ok(parts)) => m.parts() == parts,
                    (Err(e), Err(e2)) => e == e2,
                    _ => false,
                },
            },
    {
        match read_message_fields(data) {
            None => Err(MessageError::BadJson),
            Some(f) => Self::from_json(&f),
        }
    }

    /// Decode a room command from the fields of a JSON object.
    pub fn from_json(raw: &MessageFields) -> (r: Result<RoomCommandMessage, MessageError>)
        ensures
            match (r, decode_room_command(*raw)) {
                (Ok(m), Ok(parts)) => m.parts() == parts,
                (Err(e), Err(e2)) => e == e2,
                _ => false,
            },
    {
        let code = match param_code(&raw.param) {
            Ok(c) => c,
            Err(e) => return Err(e),
        };
        let param = match RoomParam::from_i64(code) {
            Some(p) => p,
            None => return Err(MessageError::UnknownParam),
        };
        proof {
            let q = choose|p: RoomParam| p.code() == code;
            lemma_room_param_code_injective(param, q);
        }
        let ivalue_1 = match int_field(&raw.ivalue_1) {
            Ok(i) => i,
            Err(e) => return Err(e),
        };
        let fvalue = match float_field(&raw.fvalue) {
            Ok(v) => v,
            Err(e) => return Err(e),
        };
        Ok(RoomCommandMessage {
            param,
            ivalue_1,
            fvalue,
            svalue: text_field(&raw.svalue),
        })
    }
}

/// The room commands in the order they are declared.
pub open spec fn room_params_in_order() -> Seq<RoomParam> {
    seq![
        RoomParam::GetTempo,
        RoomParam::SetTempo,
        RoomParam::Record,
        RoomParam::Pause,
        RoomParam::Stop,
        RoomParam::Play,
        RoomParam::ListFiles,
        RoomParam::SaveRecording,
        RoomParam::DeleteRecording,
        RoomParam::UploadRecording,
    ]
}

/// Room commands are numbered by their place in the declaration, from zero:
/// the command at place `i` has number `i`, every command has a place, and
/// there are no other numbers.
pub proof fn lemma_room_param_numbers_follow_order(p: RoomParam, i: int)
    ensures
        0 <= i < room_params_in_order().len() ==> room_params_in_order()[i].code() == i,
        room_params_in_order().contains(p),
        0 <= p.code() < room_params_in_order().len(),
        room_params_in_order()[p.code()] == p,
{
    match p {
        RoomParam::GetTempo => assert(room_params_in_order()[0] == p),
        RoomParam::SetTempo => assert(room_params_in_order()[1] == p),
        RoomParam::Record => assert(room_params_in_order()[2] == p),
        RoomParam::Pause => assert(room_params_in_order()[3] == p),
        RoomParam::Stop => assert(room_params_in_order()[4] == p),
        RoomParam::Play => assert(room_params_in_order()[5] == p),
        RoomParam::ListFiles => assert(room_params_in_order()[6] == p),
        RoomParam::SaveRecording => assert(room_params_in_order()[7] == p),
        RoomParam::DeleteRecording => assert(room_params_in_order()[8] == p),
        RoomParam::UploadRecording => assert(room_params_in_order()[9] == p),
    }
}

/// What a decoded room command holds: the command numbered under `param`
/// (given as a number or as a string holding one), the integer under
/// `iValue1` (zero when there is no number or string there), the float value
/// under `fValue`, and the string under `sValue` (empty when there is none).
/// `iValue2` plays no part.
pub proof fn lemma_room_command_fields(f: MessageFields, other: JsonScalar)
    ensures
        match decode_room_command(f) {
            Ok(parts) => {
                &&& match f.param {
                    JsonScalar::Number { int: Some(i), .. } => parts.0.code() == i,
                    JsonScalar::Text(s) => spec_parse_i64(s@) == Some(parts.0.code() as i64),
                    _ => false,
                }
                &&& match f.ivalue_1 {
                    JsonScalar::Number { int: Some(i), .. } => parts.1 == i,
                    JsonScalar::Text(s) => spec_parse_i64(s@) == Some(parts.1),
                    _ => parts.1 == 0,
                }
                &&& match f.fvalue {
                    JsonScalar::Number { int: Some(i), .. } => parts.2 == FloatValue::Int(i),
                    JsonScalar::Number { int: None, is_float: true, text } => parts.2 == FloatValue::Number(text),
                    JsonScalar::Text(s) => parts.2 == FloatValue::Text(s),
                    _ => parts.2 == FloatValue::Zero,
                }
                &&& match f.svalue {
                    JsonScalar::Text(s) => parts.3 == s@,
                    _ => parts.3 == Seq::<char>::empty(),
                }
            },
            Err(_) => true,
        },
        decode_room_command(MessageFields { ivalue_2: other, ..f }) == decode_room_command(f),
{
}

} // verus!
