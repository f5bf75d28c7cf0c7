//! The general laws of the decoders, stated over the same spec functions
//! their contracts use.

use vstd::prelude::*;
use crate::annotated::KdlAnnotatedValueDeser;
use crate::model::IntBase;
use crate::model::Value;
use crate::node::KdlNodeDeser;
use crate::node::Shape;
use crate::node::spec_all_dash;
use crate::node::spec_has_args;
use crate::node::spec_has_props;
use crate::scalar::b64_decode_of;
use crate::scalar::spec_lit_int;

verus! {

/// Decoding carries no hidden state: two node decoders over equal document
/// data infer the same shape, so the same node decoded twice takes the
/// same path both times.
pub proof fn lemma_node_decode_deterministic(a: KdlNodeDeser, b: KdlNodeDeser)
    requires
        *a.entries == *b.entries,
        match (a.children, b.children) {
            (Some(x), Some(y)) => *x == *y,
            (None, None) => true,
            _ => false,
        },
        a.snekify == b.snekify,
    ensures
        a.spec_shape() == b.spec_shape(),
{
}

/// Scalar decoding is a function of the annotation and the value alone —
/// including the named results of the outside calls it leans on, which
/// depend on nothing but the input text.
pub proof fn lemma_scalar_decode_deterministic(
    a: KdlAnnotatedValueDeser,
    b: KdlAnnotatedValueDeser,
    lo: int,
    hi: int,
    tag: Seq<char>,
)
    requires
        *a.annotation == *b.annotation,
        *a.value == *b.value,
    ensures
        a.ann_is(tag) == b.ann_is(tag),
        spec_lit_int(*a.value, lo, hi) == spec_lit_int(*b.value, lo, hi),
        a.value.is_text() == b.value.is_text(),
        a.value.text() == b.value.text(),
        b64_decode_of(a.value.text()) == b64_decode_of(b.value.text()),
{
}

/// Shape exclusivity: a node that carries positional arguments together
/// with properties or a child list always classifies as the ambiguous
/// shape, under which schema-less decode fails; it never silently picks
/// one of the two forms.
pub proof fn lemma_shape_exclusive(d: KdlNodeDeser)
    requires
        spec_has_args(d.entries@),
        spec_has_props(d.entries@) || d.children is Some,
    ensures
        d.spec_shape() is MixedShape,
{
}

/// Dash-children sequences: a node without arguments whose child list is
/// present and all named `-` classifies as the sequence of its children
/// (whose cursor yields them in document order); if any child name
/// differs, the same node classifies as a map instead.
pub proof fn lemma_dash_children(d: KdlNodeDeser)
    requires
        !spec_has_args(d.entries@),
        d.children is Some,
    ensures
        spec_all_dash(d.kids_seq()) ==> d.spec_shape() is DashChildrenShape,
        !spec_all_dash(d.kids_seq()) ==> d.spec_shape() is PropsShape,
{
}

/// Integer coercion ignores provenance: the base a magnitude was written
/// in never changes what it decodes to, at any requested width.
pub proof fn lemma_int_base_irrelevant(b1: IntBase, b2: IntBase, m: i64, lo: int, hi: int)
    ensures
        spec_lit_int(Value::Int(b1, m), lo, hi) == spec_lit_int(Value::Int(b2, m), lo, hi),
{
}

} // verus!
