//! The fields of a JSON command message, as the message decoders read them.
//!
//! Commands reach the sound engine and the room as JSON objects with the keys
//! `param`, `iValue1`, `iValue2`, `fValue` and `sValue`.  Each value may be a
//! number or a string holding a number.  The decoders only ever look at those
//! five keys, so a message is held here as the five values under them.
use vstd::prelude::*;

use crate::float_text::{chars_of, float_text, is_float_text};

verus! {

broadcast use vstd::string::group_string_axioms;

/// A JSON value under one of the message keys.
#[derive(PartialEq, Eq, Debug, Clone)]
pub enum JsonScalar {
    /// A JSON number.  `int` is its value when it fits an `i64` (a whole number
    /// in range), `is_float` tells a number written with a fraction or an
    /// exponent, and `text` is the number written in decimal.
    Number { int: Option<i64>, is_float: bool, text: String },
    /// A JSON string.
    Text(String),
    /// A JSON boolean.
    Bool(bool),
    /// Anything else: null, an array, an object, or no value at all.
    Other,
}

/// The values under the five keys of a command message.
pub struct MessageFields {
    pub param: JsonScalar,
    pub ivalue_1: JsonScalar,
    pub ivalue_2: JsonScalar,
    pub fvalue: JsonScalar,
    pub svalue: JsonScalar,
}

/// Why a command message could not be decoded.
#[derive(PartialEq, Eq, Structural, Debug, Clone, Copy)]
pub enum MessageError {
    /// the text is not JSON
    BadJson,
    /// there is no number or string under `param`
    NoParam,
    /// a string that should hold an integer does not
    BadInteger,
    /// the number under `param` names no command
    UnknownParam,
    /// a string that should hold a floating point number does not
    BadFloat,
}

/// The floating point value of a message, as it came in.
///
/// The library keeps no floating point numbers: the value is held as the
/// JSON gave it, and turned into a number where it is used.
pub enum FloatValue {
    /// no value was given: the value is zero
    Zero,
    /// a whole number
    Int(i64),
    /// a JSON number with a fraction or an exponent, in decimal
    Number(String),
    /// a JSON string holding a floating point number
    Text(String),
}

// ---------------------------------------------------------------------------
// Reading integers from text.

/// True when every character of `s` is an ASCII digit.
pub open spec fn all_digits(s: Seq<char>) -> bool {
    forall|i: int| 0 <= i < s.len() ==> '0' <= #[trigger] s[i] && s[i] <= '9'
}

/// The value of a string of decimal digits.
pub open spec fn digits_value(s: Seq<char>) -> int
    decreases s.len(),
{
    if s.len() == 0 {
        0
    } else {
        digits_value(s.drop_last()) * 10 + (s.last() as int - '0' as int)
    }
}

/// The signed value written in `s`: an optional `+` or `-`, then one or more
/// digits and nothing else.
pub open spec fn signed_decimal(s: Seq<char>) -> Option<int> {
    let neg = s.len() > 0 && s[0] == '-';
    let body = if s.len() > 0 && (s[0] == '-' || s[0] == '+') { s.drop_first() } else { s };
    if body.len() > 0 && all_digits(body) {
        Some(if neg { -digits_value(body) } else { digits_value(body) })
    } else {
        None
    }
}

/// What `str::parse::<i64>` gives for `s`: the value, when it is written as
/// above and fits an `i64`.
pub open spec fn spec_parse_i64(s: Seq<char>) -> Option<i64> {
    match signed_decimal(s) {
        Some(v) => if i64::MIN <= v <= i64::MAX { Some(v as i64) } else { None },
        None => None,
    }
}

/// Read a signed decimal integer that fits an `i64`, as `str::parse::<i64>`
/// does: an optional `+` or `-`, then one or more digits and nothing else.
pub fn parse_i64(s: &str) -> (r: Option<i64>)
    ensures
        r == spec_parse_i64(s@),
{
    let cs = chars_of(s);
    let n = cs.len();
    let neg = n > 0 && cs[0] == '-';
    let start: usize = if n > 0 && (cs[0] == '-' || cs[0] == '+') { 1 } else { 0 };
    let ghost body = if s@.len() > 0 && (s@[0] == '-' || s@[0] == '+') { s@.drop_first() } else { s@ };
    proof {
        assert(body =~= cs@.subrange(start as int, n as int));
    }
    if start == n {
        return None;
    }
    let mut acc: i128 = 0;
    let mut big = false;
    let mut i: usize = start;
    while i < n
        invariant
            start < n,
            start <= i <= n,
            n == cs@.len(),
            cs@ == s@,
            body == cs@.subrange(start as int, n as int),
            body == (if s@.len() > 0 && (s@[0] == '-' || s@[0] == '+') { s@.drop_first() } else { s@ }),
            all_digits(cs@.subrange(start as int, i as int)),
            !big ==> acc == digits_value(cs@.subrange(start as int, i as int)) && 0 <= acc <= 0x8000_0000_0000_0000,
            big ==> digits_value(cs@.subrange(start as int, i as int)) > 0x8000_0000_0000_0000,
        decreases n - i,
    {
        let c = cs[i];
        if !('0' <= c && c <= '9') {
            proof {
                assert(body[i - start] == c);
                assert(!('0' <= body[i - start] && body[i - start] <= '9'));
                assert(!all_digits(body));
            }
            return None;
        }
        proof {
            let prev = cs@.subrange(start as int, i as int);
            let next = cs@.subrange(start as int, i + 1);
            assert(next.drop_last() =~= prev);
            assert(next.last() == c);
            assert(all_digits(next)) by {
                assert forall|j: int| 0 <= j < next.len() implies '0' <= #[trigger] next[j] && next[j] <= '9' by {
                    if j < prev.len() {
                        assert(next[j] == prev[j]);
                    }
                }
            }
        }
        if !big {
            let d = ((c as u32) - ('0' as u32)) as i128;
            acc = acc * 10 + d;
            if acc > 0x8000_0000_0000_0000 {
                big = true;
            }
        }
        i = i + 1;
    }
    if big {
        return None;
    }
    if neg {
        Some((-acc) as i64)
    } else if acc <= 0x7fff_ffff_ffff_ffff {
        Some(acc as i64)
    } else {
        None
    }
}

// ---------------------------------------------------------------------------
// Reading the message fields from JSON text.

/// The value under `key` in the JSON text `text`, as `serde_json` reads it,
/// or `None` when the text is not JSON.
pub uninterp spec fn json_field(text: Seq<char>, key: Seq<char>) -> Option<JsonScalar>;

/// Calls `serde_json::from_str` on the text and indexes the value it gives by
/// `key` (a missing key, or a value that is not an object, reads as null).
/// The contract names the result; what serde_json reads is not restated here.
#[verifier::external_body]
pub(crate) fn read_field(text: &str, key: &str) -> (r: Option<JsonScalar>)
    ensures
        r == json_field(text@, key@),
{
    let v: serde_json::Value = serde_json::from_str(text).ok()?;
    Some(match &v[key] {
        serde_json::Value::Number(n) => JsonScalar::Number { int: n.as_i64(), is_float: n.is_f64(), text: n.to_string() },
        serde_json::Value::String(s) => JsonScalar::Text(s.clone()),
        serde_json::Value::Bool(b) => JsonScalar::Bool(*b),
        _ => JsonScalar::Other,
    })
}

/// The five message fields of the JSON text, or `None` when it is not JSON.
pub open spec fn json_message_fields(text: Seq<char>) -> Option<MessageFields> {
    match (
        json_field(text, "param"@),
        json_field(text, "iValue1"@),
        json_field(text, "iValue2"@),
        json_field(text, "fValue"@),
        json_field(text, "sValue"@),
    ) {
        (Some(param), Some(ivalue_1), Some(ivalue_2), Some(fvalue), Some(svalue)) => Some(
            MessageFields { param, ivalue_1, ivalue_2, fvalue, svalue },
        ),
        _ => None,
    }
}

/// Each message field is the value under its own key: `param`, `iValue1`,
/// `iValue2`, `fValue` and `sValue`; the fields are read exactly when the text
/// is JSON.
pub proof fn lemma_message_fields_keys(text: Seq<char>)
    ensures
        json_message_fields(text) is Some <==> json_field(text, "param"@) is Some && json_field(text, "iValue1"@) is Some
            && json_field(text, "iValue2"@) is Some && json_field(text, "fValue"@) is Some && json_field(text, "sValue"@) is Some,
        json_message_fields(text) matches Some(f) ==> {
            &&& Some(f.param) == json_field(text, "param"@)
            &&& Some(f.ivalue_1) == json_field(text, "iValue1"@)
            &&& Some(f.ivalue_2) == json_field(text, "iValue2"@)
            &&& Some(f.fvalue) == json_field(text, "fValue"@)
            &&& Some(f.svalue) == json_field(text, "sValue"@)
        },
{
}

/// Read the five message fields from JSON text.
pub fn read_message_fields(text: &str) -> (r: Option<MessageFields>)
    ensures
        r == json_message_fields(text@),
{
    let param = match read_field(text, "param") {
        Some(f) => f,
        None => return None,
    };
    let ivalue_1 = match read_field(text, "iValue1") {
        Some(f) => f,
        None => return None,
    };
    let ivalue_2 = match read_field(text, "iValue2") {
        Some(f) => f,
        None => return None,
    };
    let fvalue = match read_field(text, "fValue") {
        Some(f) => f,
        None => return None,
    };
    let svalue = match read_field(text, "sValue") {
        Some(f) => f,
        None => return None,
    };
    Some(MessageFields { param, ivalue_1, ivalue_2, fvalue, svalue })
}

// ---------------------------------------------------------------------------
// Decoding the fields.

/// The command number under `param`: a number that fits an `i64`, or a string
/// holding one.
pub open spec fn spec_param_code(f: JsonScalar) -> Result<i64, MessageError> {
    match f {
        JsonScalar::Number { int: Some(i), .. } => Ok(i),
        JsonScalar::Text(s) => match spec_parse_i64(s@) {
            Some(i) => Ok(i),
            None => Err(MessageError::BadInteger),
        },
        _ => Err(MessageError::NoParam),
    }
}

/// An integer field: a number that fits an `i64`, a string holding one, or
/// zero when there is neither.
pub open spec fn spec_int_field(f: JsonScalar) -> Result<i64, MessageError> {
    match f {
        JsonScalar::Number { int: Some(i), .. } => Ok(i),
        JsonScalar::Text(s) => match spec_parse_i64(s@) {
            Some(i) => Ok(i),
            None => Err(MessageError::BadInteger),
        },
        _ => Ok(0),
    }
}

/// The floating point field, as it came in: a number, a string holding a
/// floating point number, or zero when there is neither.
pub open spec fn spec_float_field(f: JsonScalar) -> Result<FloatValue, MessageError> {
    match f {
        JsonScalar::Number { int: Some(i), .. } => Ok(FloatValue::Int(i)),
        JsonScalar::Number { int: None, is_float: true, text } => Ok(FloatValue::Number(text)),
        JsonScalar::Text(s) => if float_text(s@) {
            Ok(FloatValue::Text(s))
        } else {
            Err(MessageError::BadFloat)
        },
        _ => Ok(FloatValue::Zero),
    }
}

/// The text field: a string, or the empty string when there is none.
pub open spec fn spec_text_field(f: JsonScalar) -> Seq<char> {
    match f {
        JsonScalar::Text(s) => s@,
        _ => Seq::empty(),
    }
}

pub fn param_code(f: &JsonScalar) -> (r: Result<i64, MessageError>)
    ensures
        r == spec_param_code(*f),
{
    match f {
        JsonScalar::Number { int: Some(i), .. } => Ok(*i),
        JsonScalar::Text(s) => match parse_i64(s.as_str()) {
            Some(i) => Ok(i),
            None => Err(MessageError::BadInteger),
        },
        _ => Err(MessageError::NoParam),
    }
}

pub fn int_field(f: &JsonScalar) -> (r: Result<i64, MessageError>)
    ensures
        r == spec_int_field(*f),
{
    match f {
        JsonScalar::Number { int: Some(i), .. } => Ok(*i),
        JsonScalar::Text(s) => match parse_i64(s.as_str()) {
            Some(i) => Ok(i),
            None => Err(MessageError::BadInteger),
        },
        _ => Ok(0),
    }
}

pub fn float_field(f: &JsonScalar) -> (r: Result<FloatValue, MessageError>)
    ensures
        r == spec_float_field(*f),
{
    match f {
        JsonScalar::Number { int: Some(i), .. } => Ok(FloatValue::Int(*i)),
        JsonScalar::Number { int: None, is_float: true, text } => Ok(FloatValue::Number(text.clone())),
        JsonScalar::Text(s) => if is_float_text(s.as_str()) {
            Ok(FloatValue::Text(s.clone()))
        } else {
            Err(MessageError::BadFloat)
        },
        _ => Ok(FloatValue::Zero),
    }
}

pub fn text_field(f: &JsonScalar) -> (r: String)
    ensures
        r@ == spec_text_field(*f),
{
    match f {
        JsonScalar::Text(s) => s.clone(),
        _ => String::new(),
    }
}

} // verus!
