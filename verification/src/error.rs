//! The decode error taxonomy. Every error is terminal: the first mismatch
//! aborts the whole decode of the enclosing fragment.

use vstd::prelude::*;
use crate::model::Value;

verus! {

/// The runtime kind of a document value, as reported in mismatch errors.
#[derive(Debug, Clone, Copy, PartialEq, Eq, Structural)]
pub enum ValueKind {
    TextKind,
    IntKind,
    FloatKind,
    BoolKind,
    NullKind,
}

/// The kind of a value.
pub open spec fn spec_kind_of(v: Value) -> ValueKind {
    match v {
        Value::Text(_) => ValueKind::TextKind,
        Value::RawText(_) => ValueKind::TextKind,
        Value::Int(_, _) => ValueKind::IntKind,
        Value::FloatBits(_) => ValueKind::FloatKind,
        Value::Bool(_) => ValueKind::BoolKind,
        Value::Null => ValueKind::NullKind,
    }
}

/// Report the kind of a value.
pub fn kind_of(v: &Value) -> (r: ValueKind)
    ensures
        r == spec_kind_of(*v),
{
    match v {
        Value::Text(_) => ValueKind::TextKind,
        Value::RawText(_) => ValueKind::TextKind,
        Value::Int(_, _) => ValueKind::IntKind,
        Value::FloatBits(_) => ValueKind::FloatKind,
        Value::Bool(_) => ValueKind::BoolKind,
        Value::Null => ValueKind::NullKind,
    }
}

/// What a decode request expected to find, as reported in mismatch errors.
#[derive(Debug, Clone, Copy, PartialEq, Eq, Structural)]
pub enum Expectation {
    /// A boolean value.
    BoolReq,
    /// An integer value (any requested width).
    IntReq,
    /// A 64-bit float value.
    FloatReq,
    /// A character.
    CharReq,
    /// A text value.
    TextReq,
    /// A text value to read bytes from.
    BytesReq,
    /// A null value, for a unit target.
    UnitReq,
    /// An unannotated text value (an enum unit variant).
    UnannotatedText,
    /// An annotated literal (an enum newtype variant).
    AnnotatedLiteral,
    /// A tuple or struct enum variant, which a single literal can never hold.
    CompoundVariant,
    /// A node with exactly one argument and nothing else.
    SingleArgumentNode,
    /// A node with arguments, or properties/children, but not both.
    UnmixedNode,
    /// A node usable as a sequence: only arguments, or children all
    /// named `-`.
    SequenceNode,
    /// A node without arguments, for a map or struct target.
    NoArgsNode,
    /// A node with no arguments, no properties and no children.
    EmptyNode,
}

/// What was actually found where a request could not be satisfied.
#[derive(Debug, Clone, Copy, PartialEq, Eq, Structural)]
pub enum Found {
    /// A literal value of this kind.
    FoundValue(ValueKind),
    /// An enum unit variant (an unannotated value) where a payload was
    /// expected, or the other way round.
    FoundUnitVariant,
    /// An argument or property, where a compound shape was expected.
    FoundArgOrProp,
    /// A node whose structure does not fit the request.
    FoundNode,
}

/// One decode failure. All variants are terminal; composite decodes abort
/// on the first failing element or field.
#[derive(Debug, Clone, PartialEq)]
pub enum DeError {
    /// The target type's own validation logic reported a failure.
    VisitorError(String),
    /// A fixed-arity sequence target was given a node carrying properties
    /// or children instead of purely positional arguments.
    TupleStructWithNotJustArgs(String),
    /// A fixed-arity sequence target received the wrong number of
    /// positional arguments.
    MismatchedTupleStructCount { expected: usize, got: usize, target_name: String },
    /// Integer narrowing overflow.
    IntSize,
    /// A numeric value is not a valid Unicode scalar.
    InvalidChar,
    /// Malformed base64 text under a `base64` annotation.
    Base64Error,
    /// Text under a `byte` annotation was not exactly one byte long.
    ByteAnnotationLen,
    /// Text under a `char` annotation was not exactly one character long.
    CharAnnotationLen,
    /// The value's kind or the node's shape does not match the request.
    MismatchedType { expected: Expectation, found: Found },
}

/// A kind mismatch on a literal value: the request `exp` met a value of
/// kind `spec_kind_of(v)`.
pub open spec fn spec_mismatch(exp: Expectation, v: Value) -> DeError {
    DeError::MismatchedType { expected: exp, found: Found::FoundValue(spec_kind_of(v)) }
}

impl DeError {
    /// The outward constructor for failures raised by target-side
    /// validation logic.
    pub fn custom(msg: String) -> (r: DeError)
        ensures
            r == DeError::VisitorError(msg),
    {
        DeError::VisitorError(msg)
    }

    /// Build a kind-mismatch error for a request that met `v`.
    pub fn mismatch(exp: Expectation, v: &Value) -> (r: DeError)
        ensures
            r == spec_mismatch(exp, *v),
    {
        DeError::MismatchedType { expected: exp, found: Found::FoundValue(kind_of(v)) }
    }
}

} // verus!
