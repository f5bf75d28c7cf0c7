//! The annotated-value decoder: one literal value together with its
//! optional annotation. The annotation acts as a coercion hint (`byte`,
//! `char`, `base64`) or as an enum variant discriminant; for every other
//! request it is ignored and the bare literal rules apply.

use vstd::prelude::*;
use vstd::string::StringSliceAdditionalSpecFns;
use vstd::string::StrSliceExecFns;
use vstd::utf8::encode_utf8;
use crate::error::DeError;
use crate::error::Expectation;
use crate::error::Found;
use crate::error::spec_mismatch;
use crate::model::Entry;
use crate::model::Value;
use crate::scalar::AnyValue;
use crate::scalar::KdlLiteralDeser;
use crate::scalar::b64_decode_of;
use crate::scalar::base64_decode;
use crate::scalar::lit_int_matches;
use crate::scalar::spec_is_scalar;
use crate::scalar::spec_lit_int;
use crate::strutil::str_eq;

verus! {

/// Decoder for a value (property or argument) with a possible annotation.
#[derive(Debug, Clone, Copy)]
pub struct KdlAnnotatedValueDeser<'a> {
    pub annotation: &'a Option<String>,
    pub value: &'a Value,
}

/// An enum discriminant with its optional payload, as read from one
/// annotated value: `"variant"` names a unit variant, `(variant)payload` a
/// newtype variant wrapping the payload.
#[derive(Debug, Clone, Copy)]
pub struct EnumParts<'a> {
    pub variant: &'a str,
    pub payload: Option<&'a Value>,
}

impl<'a> KdlAnnotatedValueDeser<'a> {
    /// Wrap one entry's annotation and value.
    pub fn new(entry: &'a Entry) -> (r: Self)
        ensures
            r.annotation == &entry.annotation,
            r.value == &entry.value,
    {
        KdlAnnotatedValueDeser { annotation: &entry.annotation, value: &entry.value }
    }

    /// Whether the annotation is present and holds exactly `tag`.
    pub open spec fn ann_is(self, tag: Seq<char>) -> bool {
        match *self.annotation {
            Some(a) => a@ == tag,
            None => false,
        }
    }

    /// Compare the annotation against a tag.
    pub fn annotation_is(&self, tag: &str) -> (r: bool)
        ensures
            r == self.ann_is(tag@),
    {
        match self.annotation {
            Some(a) => str_eq(a.as_str(), tag),
            None => false,
        }
    }

    /// The bare-literal decoder for the same value, annotation dropped.
    pub fn literal(&self) -> (r: KdlLiteralDeser<'a>)
        ensures
            r.value == self.value,
    {
        KdlLiteralDeser { value: self.value }
    }

    /// Decode an 8-bit unsigned integer. Text annotated `byte` decodes to
    /// its single UTF-8 byte, and must be exactly one byte long; anything
    /// else follows the integer rules.
    pub fn deserialize_u8(&self) -> (r: Result<u8, DeError>)
        ensures
            ({
                if self.value.is_text() && self.ann_is("byte"@) {
                    let bs = encode_utf8(self.value.text());
                    match r {
                        Ok(b) => bs.len() == 1 && b == bs[0],
                        Err(e) => bs.len() != 1 && e == DeError::ByteAnnotationLen,
                    }
                } else {
                    let s = spec_lit_int(*self.value, u8::MIN as int, u8::MAX as int);
                    match r {
                        Ok(x) => lit_int_matches(s, Some(x as int), None),
                        Err(e) => lit_int_matches(s, None, Some(e)),
                    }
                }
            }),
    {
        let is_byte = self.annotation_is("byte");
        match self.value {
            Value::Text(s) if is_byte => Self::one_byte(s.as_str()),
            Value::RawText(s) if is_byte => Self::one_byte(s.as_str()),
            _ => self.literal().deserialize_u8(),
        }
    }

    /// The single UTF-8 byte of a one-byte text.
    fn one_byte(s: &str) -> (r: Result<u8, DeError>)
        ensures
            match r {
                Ok(b) => s.spec_bytes().len() == 1 && b == s.spec_bytes()[0],
                Err(e) => s.spec_bytes().len() != 1 && e == DeError::ByteAnnotationLen,
            },
    {
        let bytes = s.as_bytes();
        if bytes.len() == 1 {
            Ok(bytes[0])
        } else {
            Err(DeError::ByteAnnotationLen)
        }
    }

    /// Decode a character. Text annotated `char` decodes to its single
    /// character, and must be exactly one character long; anything else
    /// follows the integer code-point rules.
    pub fn deserialize_char(&self) -> (r: Result<char, DeError>)
        ensures
            ({
                if self.value.is_text() && self.ann_is("char"@) {
                    let cs = self.value.text();
                    match r {
                        Ok(c) => cs.len() == 1 && c == cs[0],
                        Err(e) => cs.len() != 1 && e == DeError::CharAnnotationLen,
                    }
                } else {
                    match *self.value {
                        Value::Int(_, m) => {
                            &&& (m < 0 || m > u32::MAX as i64) ==> r == Err::<char, DeError>(
                                DeError::IntSize,
                            )
                            &&& (0 <= m <= u32::MAX as i64 && !spec_is_scalar(m as u32)) ==> r
                                == Err::<char, DeError>(DeError::InvalidChar)
                            &&& (0 <= m <= u32::MAX as i64 && spec_is_scalar(m as u32)) ==> (
                            r matches Ok(c) && c as u32 == m as u32)
                        },
                        _ => r == Err::<char, DeError>(
                            spec_mismatch(Expectation::CharReq, *self.value),
                        ),
                    }
                }
            }),
    {
        let is_char = self.annotation_is("char");
        match self.value {
            Value::Text(s) if is_char => Self::one_char(s.as_str()),
            Value::RawText(s) if is_char => Self::one_char(s.as_str()),
            _ => self.literal().deserialize_char(),
        }
    }

    /// The single character of a one-character text.
    fn one_char(s: &str) -> (r: Result<char, DeError>)
        ensures
            match r {
                Ok(c) => s@.len() == 1 && c == s@[0],
                Err(e) => s@.len() != 1 && e == DeError::CharAnnotationLen,
            },
    {
        if s.unicode_len() == 1 {
            Ok(s.get_char(0))
        } else {
            Err(DeError::CharAnnotationLen)
        }
    }

    /// Decode a byte sequence from a text value: base64-decoded when the
    /// annotation says `base64`, otherwise the raw UTF-8 bytes verbatim.
    pub fn deserialize_bytes(&self) -> (r: Result<Vec<u8>, DeError>)
        ensures
            ({
                let v = *self.value;
                if v.is_text() {
                    if self.ann_is("base64"@) {
                        match b64_decode_of(v.text()) {
                            Some(bs) => r matches Ok(out) && out@ == bs,
                            None => r == Err::<Vec<u8>, DeError>(DeError::Base64Error),
                        }
                    } else {
                        r matches Ok(out) && out@ == encode_utf8(v.text())
                    }
                } else {
                    r == Err::<Vec<u8>, DeError>(spec_mismatch(Expectation::BytesReq, v))
                }
            }),
    {
        if !(matches!(self.value, Value::Text(_)) || matches!(self.value, Value::RawText(_))) {
            return Err(DeError::mismatch(Expectation::BytesReq, self.value));
        }
        let s = self.value.text_str();
        if self.annotation_is("base64") {
            match base64_decode(s) {
                Ok(v) => Ok(v),
                Err(_) => Err(DeError::Base64Error),
            }
        } else {
            Ok(s.as_bytes_vec())
        }
    }

    /// Decode an option target: a null value is absent, anything else is
    /// present and decodes as the same annotated value.
    pub fn deserialize_option(&self) -> (r: Option<KdlAnnotatedValueDeser<'a>>)
        ensures
            r is None <==> *self.value is Null,
            r matches Some(d) ==> d == *self,
    {
        match self.value {
            Value::Null => None,
            _ => Some(*self),
        }
    }

    /// Schema-less decode: dispatch purely by the value's runtime kind,
    /// ignoring the annotation.
    pub fn deserialize_any(&self) -> (r: AnyValue<'a>)
        ensures
            match *self.value {
                Value::Text(_) => r matches AnyValue::AnyText(s) && s@ == self.value.text(),
                Value::RawText(_) => r matches AnyValue::AnyText(s) && s@ == self.value.text(),
                Value::Int(_, m) => r matches AnyValue::AnyInt(x) && x == m,
                Value::FloatBits(b) => r matches AnyValue::AnyFloatBits(x) && x == b,
                Value::Bool(b) => r matches AnyValue::AnyBool(x) && x == b,
                Value::Null => r is AnyNull,
            },
    {
        self.literal().deserialize_any()
    }

    /// Split an enum request into discriminant and payload: an unannotated
    /// text value names a unit variant; an annotated value names a newtype
    /// variant whose payload is the value itself; an unannotated non-text
    /// value fits no variant.
    pub fn deserialize_enum(&self) -> (r: Result<EnumParts<'a>, DeError>)
        ensures
            match *self.annotation {
                None => {
                    if self.value.is_text() {
                        r matches Ok(p) && p.variant@ == self.value.text() && p.payload is None
                    } else {
                        r == Err::<EnumParts<'a>, DeError>(
                            spec_mismatch(Expectation::UnannotatedText, *self.value),
                        )
                    }
                },
                Some(a) => r matches Ok(p) && p.variant@ == a@ && (p.payload matches Some(v) && v
                    == self.value),
            },
    {
        match self.annotation {
            None => {
                match self.value {
                    Value::Text(s) => Ok(EnumParts { variant: s.as_str(), payload: None }),
                    Value::RawText(s) => Ok(EnumParts { variant: s.as_str(), payload: None }),
                    _ => Err(DeError::mismatch(Expectation::UnannotatedText, self.value)),
                }
            },
            Some(a) => Ok(EnumParts { variant: a.as_str(), payload: Some(self.value) }),
        }
    }
}

impl<'a> EnumParts<'a> {
    /// Close these parts as a unit variant: only a missing payload fits.
    pub fn unit_variant(&self) -> (r: Result<(), DeError>)
        ensures
            match self.payload {
                None => r == Ok::<(), DeError>(()),
                Some(v) => r == Err::<(), DeError>(spec_mismatch(Expectation::UnannotatedText, *v)),
            },
    {
        match self.payload {
            None => Ok(()),
            Some(v) => Err(DeError::mismatch(Expectation::UnannotatedText, v)),
        }
    }

    /// Open these parts as a newtype variant: the payload decodes by the
    /// bare literal rules, the annotation having been consumed as the
    /// discriminant.
    pub fn newtype_variant(&self) -> (r: Result<KdlLiteralDeser<'a>, DeError>)
        ensures
            match self.payload {
                Some(v) => r matches Ok(d) && d.value == v,
                None => r == Err::<KdlLiteralDeser<'a>, DeError>(
                    DeError::MismatchedType {
                        expected: Expectation::AnnotatedLiteral,
                        found: Found::FoundUnitVariant,
                    },
                ),
            },
    {
        match self.payload {
            Some(v) => Ok(KdlLiteralDeser { value: v }),
            None => Err(
                DeError::MismatchedType {
                    expected: Expectation::AnnotatedLiteral,
                    found: Found::FoundUnitVariant,
                },
            ),
        }
    }

    /// The failure for a tuple- or struct-shaped variant request, which a
    /// single argument or property can never hold.
    pub fn compound_variant_error(&self) -> (r: DeError)
        ensures
            r == (DeError::MismatchedType {
                expected: Expectation::CompoundVariant,
                found: Found::FoundArgOrProp,
            }),
    {
        DeError::MismatchedType {
            expected: Expectation::CompoundVariant,
            found: Found::FoundArgOrProp,
        }
    }
}

} // verus!
