//! The document model: values, entries and nodes, as the external parser
//! hands them over. All of it is read-only during a decode.

use vstd::prelude::*;

verus! {

/// The numeric base a document integer was written in. Provenance metadata
/// only: it never affects how the integer decodes.
#[derive(Debug, Clone, Copy, PartialEq, Eq, Structural)]
pub enum IntBase {
    Binary,
    Octal,
    Decimal,
    Hex,
}

/// One literal value of the document tree.
///
/// `Text` and `RawText` differ only in how the parser produced them (escape
/// processing or not); they decode identically. A float is carried as the raw
/// bits of its 64-bit IEEE-754 representation; the decoders never compute
/// with it, only pass it through.
#[derive(Debug, Clone, PartialEq)]
pub enum Value {
    Text(String),
    RawText(String),
    Int(IntBase, i64),
    FloatBits(u64),
    Bool(bool),
    Null,
}

impl Value {
    /// Whether this value is one of the two text kinds.
    pub open spec fn is_text(&self) -> bool {
        self matches Value::Text(_) || self matches Value::RawText(_)
    }

    /// The character content of a text value.
    pub open spec fn text(&self) -> Seq<char>
        recommends
            self.is_text(),
    {
        match self {
            Value::Text(s) => s@,
            Value::RawText(s) => s@,
            _ => Seq::empty(),
        }
    }

    /// Borrow the character content of a text value.
    pub fn text_str(&self) -> (r: &str)
        requires
            self.is_text(),
        ensures
            r@ == self.text(),
    {
        match self {
            Value::Text(s) => s.as_str(),
            Value::RawText(s) => s.as_str(),
            _ => "",
        }
    }
}

/// One entry of a node: an argument when `name` is absent, a property when
/// it is present; either way a value with an optional annotation.
#[derive(Debug, Clone, PartialEq)]
pub struct Entry {
    pub name: Option<String>,
    pub annotation: Option<String>,
    pub value: Value,
}

impl Entry {
    /// An entry without a name is a positional argument.
    pub open spec fn is_argument(&self) -> bool {
        self.name is None
    }

    /// An entry with a name is a named property.
    pub open spec fn is_property(&self) -> bool {
        self.name is Some
    }
}

/// One node of the document tree: a name, ordered entries, and an optional
/// ordered child list. A present-but-empty child list is distinct from an
/// absent one.
#[derive(Debug, PartialEq)]
pub struct Node {
    pub name: String,
    pub entries: Vec<Entry>,
    pub children: Option<Vec<Node>>,
}

} // verus!
