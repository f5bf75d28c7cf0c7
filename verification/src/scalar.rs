//! The scalar decoder: turns one annotated literal value into a requested
//! primitive, option, or enum variant. No dependency on node structure.

use vstd::prelude::*;
use vstd::string::StringSliceAdditionalSpecFns;
use vstd::string::StrSliceExecFns;
use vstd::utf8::encode_utf8;
use crate::error::DeError;
use crate::error::Expectation;
use crate::error::spec_mismatch;
use crate::model::Value;

verus! {

/// What decoding base64 text yields: the decoded bytes, or nothing when the
/// text is malformed. A pure function of the input characters; its value is
/// fixed only by `base64_decode` below.
pub uninterp spec fn b64_decode_of(s: Seq<char>) -> Option<Seq<u8>>;

#[verifier::external_type_specification]
#[verifier::external_body]
pub struct ExDecodeError(base64::DecodeError);

/// Relies on `base64::decode` (standard alphabet, padded): it reads nothing
/// but the input text, returns the decoded bytes, and fails exactly on
/// malformed input.
#[verifier::external_body]
pub(crate) fn base64_decode(s: &str) -> (r: Result<Vec<u8>, base64::DecodeError>)
    ensures
        r matches Ok(v) ==> b64_decode_of(s@) matches Some(w) && v@ == w,
        r is Err ==> b64_decode_of(s@) is None,
{
    base64::decode(s)
}

/// Relies on `char::from_u32` of std, whose documentation promises: `Some`
/// of the character with this code point, unless the input is a surrogate
/// code point or above the largest one, in which case `None`.
pub assume_specification[ char::from_u32 ](v: u32) -> (r: Option<char>)
    ensures
        r matches Some(c) ==> c as u32 == v,
        r is None <==> (0xD800 <= v <= 0xDFFF || v > 0x10FFFF),
;

/// Whether a code point is a valid Unicode scalar value.
pub open spec fn spec_is_scalar(v: u32) -> bool {
    v < 0xD800 || (0xE000 <= v && v <= 0x10FFFF)
}

/// The result of decoding an integer value into a width whose range is
/// `lo ..= hi`: the magnitude when it fits, overflow when it does not, and
/// a kind mismatch on any non-integer value.
pub open spec fn spec_lit_int(v: Value, lo: int, hi: int) -> Result<i64, DeError> {
    match v {
        Value::Int(_, m) => if lo <= m <= hi {
            Ok(m)
        } else {
            Err(DeError::IntSize)
        },
        _ => Err(spec_mismatch(Expectation::IntReq, v)),
    }
}

/// Whether `r`, an integer decode at some width, delivers exactly what
/// `spec_lit_int` says for that width's range.
pub open spec fn lit_int_matches(s: Result<i64, DeError>, ok: Option<int>, err: Option<DeError>) -> bool {
    match s {
        Ok(m) => ok == Some(m as int) && err is None,
        Err(e) => ok is None && err == Some(e),
    }
}

/// Decoder for one bare literal value, ignoring any annotation.
#[derive(Debug, Clone, Copy)]
pub struct KdlLiteralDeser<'a> {
    pub value: &'a Value,
}

impl<'a> KdlLiteralDeser<'a> {
    /// Wrap a value.
    pub fn new(value: &'a Value) -> (r: Self)
        ensures
            r.value == value,
    {
        KdlLiteralDeser { value }
    }

    /// Decode a boolean.
    pub fn deserialize_bool(&self) -> (r: Result<bool, DeError>)
        ensures
            match *self.value {
                Value::Bool(b) => r == Ok::<bool, DeError>(b),
                _ => r == Err::<bool, DeError>(spec_mismatch(Expectation::BoolReq, *self.value)),
            },
    {
        match self.value {
            Value::Bool(b) => Ok(*b),
            _ => Err(DeError::mismatch(Expectation::BoolReq, self.value)),
        }
    }

    /// Decode an 8-bit unsigned integer.
    pub fn deserialize_u8(&self) -> (r: Result<u8, DeError>)
        ensures
            ({
                let s = spec_lit_int(*self.value, u8::MIN as int, u8::MAX as int);
                match r {
                    Ok(x) => lit_int_matches(s, Some(x as int), None),
                    Err(e) => lit_int_matches(s, None, Some(e)),
                }
            }),
    {
        match self.value {
            Value::Int(_, m) => {
                let m = *m;
                if 0 <= m && m <= u8::MAX as i64 {
                    Ok(m as u8)
                } else {
                    Err(DeError::IntSize)
                }
            },
            _ => Err(DeError::mismatch(Expectation::IntReq, self.value)),
        }
    }

    /// Decode a 16-bit unsigned integer.
    pub fn deserialize_u16(&self) -> (r: Result<u16, DeError>)
        ensures
            ({
                let s = spec_lit_int(*self.value, u16::MIN as int, u16::MAX as int);
                match r {
                    Ok(x) => lit_int_matches(s, Some(x as int), None),
                    Err(e) => lit_int_matches(s, None, Some(e)),
                }
            }),
    {
        match self.value {
            Value::Int(_, m) => {
                let m = *m;
                if 0 <= m && m <= u16::MAX as i64 {
                    Ok(m as u16)
                } else {
                    Err(DeError::IntSize)
                }
            },
            _ => Err(DeError::mismatch(Expectation::IntReq, self.value)),
        }
    }

    /// Decode a 32-bit unsigned integer.
    pub fn deserialize_u32(&self) -> (r: Result<u32, DeError>)
        ensures
            ({
                let s = spec_lit_int(*self.value, u32::MIN as int, u32::MAX as int);
                match r {
                    Ok(x) => lit_int_matches(s, Some(x as int), None),
                    Err(e) => lit_int_matches(s, None, Some(e)),
                }
            }),
    {
        match self.value {
            Value::Int(_, m) => {
                let m = *m;
                if 0 <= m && m <= u32::MAX as i64 {
                    Ok(m as u32)
                } else {
                    Err(DeError::IntSize)
                }
            },
            _ => Err(DeError::mismatch(Expectation::IntReq, self.value)),
        }
    }

    /// Decode a 64-bit unsigned integer.
    pub fn deserialize_u64(&self) -> (r: Result<u64, DeError>)
        ensures
            ({
                let s = spec_lit_int(*self.value, u64::MIN as int, u64::MAX as int);
                match r {
                    Ok(x) => lit_int_matches(s, Some(x as int), None),
                    Err(e) => lit_int_matches(s, None, Some(e)),
                }
            }),
    {
        match self.value {
            Value::Int(_, m) => {
                let m = *m;
                if 0 <= m {
                    Ok(m as u64)
                } else {
                    Err(DeError::IntSize)
                }
            },
            _ => Err(DeError::mismatch(Expectation::IntReq, self.value)),
        }
    }

    /// Decode a 128-bit unsigned integer.
    pub fn deserialize_u128(&self) -> (r: Result<u128, DeError>)
        ensures
            ({
                let s = spec_lit_int(*self.value, u128::MIN as int, u128::MAX as int);
                match r {
                    Ok(x) => lit_int_matches(s, Some(x as int), None),
                    Err(e) => lit_int_matches(s, None, Some(e)),
                }
            }),
    {
        match self.value {
            Value::Int(_, m) => {
                let m = *m;
                if 0 <= m {
                    Ok(m as u128)
                } else {
                    Err(DeError::IntSize)
                }
            },
            _ => Err(DeError::mismatch(Expectation::IntReq, self.value)),
        }
    }

    /// Decode an 8-bit signed integer.
    pub fn deserialize_i8(&self) -> (r: Result<i8, DeError>)
        ensures
            ({
                let s = spec_lit_int(*self.value, i8::MIN as int, i8::MAX as int);
                match r {
                    Ok(x) => lit_int_matches(s, Some(x as int), None),
                    Err(e) => lit_int_matches(s, None, Some(e)),
                }
            }),
    {
        match self.value {
            Value::Int(_, m) => {
                let m = *m;
                if i8::MIN as i64 <= m && m <= i8::MAX as i64 {
                    Ok(m as i8)
                } else {
                    Err(DeError::IntSize)
                }
            },
            _ => Err(DeError::mismatch(Expectation::IntReq, self.value)),
        }
    }

    /// Decode a 16-bit signed integer.
    pub fn deserialize_i16(&self) -> (r: Result<i16, DeError>)
        ensures
            ({
                let s = spec_lit_int(*self.value, i16::MIN as int, i16::MAX as int);
                match r {
                    Ok(x) => lit_int_matches(s, Some(x as int), None),
                    Err(e) => lit_int_matches(s, None, Some(e)),
                }
            }),
    {
        match self.value {
            Value::Int(_, m) => {
                let m = *m;
                if i16::MIN as i64 <= m && m <= i16::MAX as i64 {
                    Ok(m as i16)
                } else {
                    Err(DeError::IntSize)
                }
            },
            _ => Err(DeError::mismatch(Expectation::IntReq, self.value)),
        }
    }

    /// Decode a 32-bit signed integer.
    pub fn deserialize_i32(&self) -> (r: Result<i32, DeError>)
        ensures
            ({
                let s = spec_lit_int(*self.value, i32::MIN as int, i32::MAX as int);
                match r {
                    Ok(x) => lit_int_matches(s, Some(x as int), None),
                    Err(e) => lit_int_matches(s, None, Some(e)),
                }
            }),
    {
        match self.value {
            Value::Int(_, m) => {
                let m = *m;
                if i32::MIN as i64 <= m && m <= i32::MAX as i64 {
                    Ok(m as i32)
                } else {
                    Err(DeError::IntSize)
                }
            },
            _ => Err(DeError::mismatch(Expectation::IntReq, self.value)),
        }
    }

    /// Decode a 64-bit signed integer.
    pub fn deserialize_i64(&self) -> (r: Result<i64, DeError>)
        ensures
            ({
                let s = spec_lit_int(*self.value, i64::MIN as int, i64::MAX as int);
                match r {
                    Ok(x) => lit_int_matches(s, Some(x as int), None),
                    Err(e) => lit_int_matches(s, None, Some(e)),
                }
            }),
    {
        match self.value {
            Value::Int(_, m) => Ok(*m),
            _ => Err(DeError::mismatch(Expectation::IntReq, self.value)),
        }
    }

    /// Decode a 128-bit signed integer.
    pub fn deserialize_i128(&self) -> (r: Result<i128, DeError>)
        ensures
            ({
                let s = spec_lit_int(*self.value, i128::MIN as int, i128::MAX as int);
                match r {
                    Ok(x) => lit_int_matches(s, Some(x as int), None),
                    Err(e) => lit_int_matches(s, None, Some(e)),
                }
            }),
    {
        match self.value {
            Value::Int(_, m) => Ok(*m as i128),
            _ => Err(DeError::mismatch(Expectation::IntReq, self.value)),
        }
    }

    /// Decode a character from an integer code point.
    pub fn deserialize_char(&self) -> (r: Result<char, DeError>)
        ensures
            match *self.value {
                Value::Int(_, m) => {
                    &&& (m < 0 || m > u32::MAX as i64) ==> r == Err::<char, DeError>(DeError::IntSize)
                    &&& (0 <= m <= u32::MAX as i64 && !spec_is_scalar(m as u32)) ==> r == Err::<
                        char,
                        DeError,
                    >(DeError::InvalidChar)
                    &&& (0 <= m <= u32::MAX as i64 && spec_is_scalar(m as u32)) ==> (r matches Ok(c)
                        && c as u32 == m as u32)
                },
                _ => r == Err::<char, DeError>(spec_mismatch(Expectation::CharReq, *self.value)),
            },
    {
        match self.value {
            Value::Int(_, m) => {
                let m = *m;
                if m < 0 || m > u32::MAX as i64 {
                    Err(DeError::IntSize)
                } else {
                    match char::from_u32(m as u32) {
                        Some(c) => Ok(c),
                        None => Err(DeError::InvalidChar),
                    }
                }
            },
            _ => Err(DeError::mismatch(Expectation::CharReq, self.value)),
        }
    }

    /// Decode a text value, borrowing its content.
    pub fn deserialize_str(&self) -> (r: Result<&'a str, DeError>)
        ensures
            match r {
                Ok(s) => self.value.is_text() && s@ == self.value.text(),
                Err(e) => !self.value.is_text() && e == spec_mismatch(
                    Expectation::TextReq,
                    *self.value,
                ),
            },
    {
        match self.value {
            Value::Text(s) => Ok(s.as_str()),
            Value::RawText(s) => Ok(s.as_str()),
            _ => Err(DeError::mismatch(Expectation::TextReq, self.value)),
        }
    }

    /// Decode a text value into its raw UTF-8 bytes, verbatim.
    pub fn deserialize_bytes(&self) -> (r: Result<Vec<u8>, DeError>)
        ensures
            match r {
                Ok(v) => self.value.is_text() && v@ == encode_utf8(self.value.text()),
                Err(e) => !self.value.is_text() && e == spec_mismatch(
                    Expectation::BytesReq,
                    *self.value,
                ),
            },
    {
        match self.value {
            Value::Text(s) => Ok(s.as_str().as_bytes_vec()),
            Value::RawText(s) => Ok(s.as_str().as_bytes_vec()),
            _ => Err(DeError::mismatch(Expectation::BytesReq, self.value)),
        }
    }

    /// Decode a unit target: only a null value satisfies it.
    pub fn deserialize_unit(&self) -> (r: Result<(), DeError>)
        ensures
            match r {
                Ok(_) => *self.value is Null,
                Err(e) => !(*self.value is Null) && e == spec_mismatch(
                    Expectation::UnitReq,
                    *self.value,
                ),
            },
    {
        match self.value {
            Value::Null => Ok(()),
            _ => Err(DeError::mismatch(Expectation::UnitReq, self.value)),
        }
    }

    /// Decode a 64-bit float, delivered as the raw bits of its IEEE-754
    /// representation; the caller reassembles the float from them.
    pub fn deserialize_float_bits(&self) -> (r: Result<u64, DeError>)
        ensures
            match *self.value {
                Value::FloatBits(b) => r == Ok::<u64, DeError>(b),
                _ => r == Err::<u64, DeError>(spec_mismatch(Expectation::FloatReq, *self.value)),
            },
    {
        match self.value {
            Value::FloatBits(b) => Ok(*b),
            _ => Err(DeError::mismatch(Expectation::FloatReq, self.value)),
        }
    }

    /// Decode an option target: a null value is absent, anything else is
    /// present and decodes as itself.
    pub fn deserialize_option(&self) -> (r: Option<KdlLiteralDeser<'a>>)
        ensures
            r is None <==> *self.value is Null,
            r matches Some(d) ==> d.value == self.value,
    {
        match self.value {
            Value::Null => None,
            _ => Some(*self),
        }
    }

    /// Schema-less decode: dispatch purely by the value's runtime kind.
    pub fn deserialize_any(&self) -> (r: AnyValue<'a>)
        ensures
            match *self.value {
                Value::Text(_) => r matches AnyValue::AnyText(s) && s@ == self.value.text(),
                Value::RawText(_) => r matches AnyValue::AnyText(s) && s@ == self.value.text(),
                Value::Int(_, m) => r matches AnyValue::AnyInt(x) && x == m,
                Value::FloatBits(b) => r matches AnyValue::AnyFloatBits(x) && x == b,
                Value::Bool(b) => r matches AnyValue::AnyBool(x) && x == b,
                Value::Null => r is AnyNull,
            },
    {
        match self.value {
            Value::Text(s) => AnyValue::AnyText(s.as_str()),
            Value::RawText(s) => AnyValue::AnyText(s.as_str()),
            Value::Int(_, m) => AnyValue::AnyInt(*m),
            Value::FloatBits(b) => AnyValue::AnyFloatBits(*b),
            Value::Bool(b) => AnyValue::AnyBool(*b),
            Value::Null => AnyValue::AnyNull,
        }
    }
}

/// A value dispatched by its own runtime kind, for schema-less decodes.
#[derive(Debug, Clone, Copy)]
pub enum AnyValue<'a> {
    AnyText(&'a str),
    AnyInt(i64),
    AnyFloatBits(u64),
    AnyBool(bool),
    AnyNull,
}

} // verus!
