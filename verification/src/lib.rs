//! Decoding of a generic annotated-node document tree into typed values.
//!
//! A document is a tree of nodes; each node has a name, an ordered list of
//! entries (positional arguments and named properties, optionally carrying a
//! type annotation), and an optional ordered list of child nodes. This crate
//! decides, from which of those parts are populated, how a node is to be read
//! (unit, sequence, map, scalar, enum) and decodes annotated scalar values
//! into primitives.

use vstd::prelude::*;

mod annotated;
mod error;
mod laws;
mod model;
mod node;
mod scalar;
mod strutil;

pub use laws::lemma_dash_children;
pub use laws::lemma_int_base_irrelevant;
pub use laws::lemma_node_decode_deterministic;
pub use laws::lemma_scalar_decode_deterministic;
pub use laws::lemma_shape_exclusive;

pub use node::AnyNode;
pub use node::KdlNodeDeser;
pub use node::MapDeser;
pub use node::MapVal;
pub use node::SeqAccessKind;
pub use node::SeqArgsDeser;
pub use node::SeqDashChildrenDeser;
pub use node::Shape;
pub use node::spec_all_dash;
pub use node::spec_has_args;
pub use node::spec_has_props;
pub use node::spec_key;

pub use annotated::EnumParts;
pub use annotated::KdlAnnotatedValueDeser;

pub use error::DeError;
pub use error::spec_kind_of;
pub use error::spec_mismatch;
pub use error::Expectation;
pub use error::Found;
pub use error::ValueKind;
pub use model::Entry;
pub use model::IntBase;
pub use model::Node;
pub use model::Value;
pub use scalar::AnyValue;
pub use scalar::KdlLiteralDeser;
pub use scalar::b64_decode_of;
pub use scalar::spec_is_scalar;
pub use scalar::lit_int_matches;
pub use scalar::spec_lit_int;
pub use strutil::snek_of;
pub use strutil::str_eq;
