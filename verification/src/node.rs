//! The node decoder: infers from which of {arguments, properties, children}
//! are populated how a node is to be read, and hands its pieces to the
//! scalar decoder or back to itself for recursion.

use vstd::prelude::*;
use crate::annotated::KdlAnnotatedValueDeser;
use crate::error::DeError;
use crate::error::Expectation;
use crate::error::Found;
use crate::model::Entry;
use crate::model::Node;
use crate::strutil::snek_of;
use crate::strutil::str_eq;
use crate::strutil::to_snek_case;

verus! {

/// Whether some entry is a positional argument.
pub open spec fn spec_has_args(entries: Seq<Entry>) -> bool {
    exists|i: int| 0 <= i < entries.len() && (#[trigger] entries[i]).name is None
}

/// Whether some entry is a named property.
pub open spec fn spec_has_props(entries: Seq<Entry>) -> bool {
    exists|i: int| 0 <= i < entries.len() && (#[trigger] entries[i]).name is Some
}

/// Whether every child is named exactly `-` (vacuously true of an empty
/// child list).
pub open spec fn spec_all_dash(kids: Seq<Node>) -> bool {
    forall|i: int| 0 <= i < kids.len() ==> (#[trigger] kids[i]).name@ == "-"@
}

/// The key a map decode reports: normalized to lowercase-with-underscores
/// when field names of a struct are being matched, untouched for an
/// open-ended map.
pub open spec fn spec_key(snekify: bool, s: Seq<char>) -> Seq<char> {
    if snekify {
        snek_of(s)
    } else {
        s
    }
}

/// The structural interpretation inferred for one node, computed fresh per
/// decode call, in the precedence the shape rules give.
#[derive(Debug, Clone, Copy, PartialEq, Eq, Structural)]
pub enum Shape {
    /// No arguments, no properties, no child list: a unit.
    UnitShape,
    /// Arguments together with properties or a child list: ambiguous,
    /// always an error.
    MixedShape,
    /// Only arguments: a sequence of them.
    ArgsShape,
    /// No arguments, a child list whose nodes are all named `-`: a
    /// sequence of the children.
    DashChildrenShape,
    /// No arguments, properties or ordinarily-named children: a map.
    PropsShape,
}

/// Report whether the entries hold an argument and whether they hold a
/// property.
fn scan_entries(entries: &Vec<Entry>) -> (r: (bool, bool))
    ensures
        r.0 == spec_has_args(entries@),
        r.1 == spec_has_props(entries@),
{
    let n = entries.len();
    let mut has_args = false;
    let mut has_props = false;
    let mut i: usize = 0;
    while i < n
        invariant
            n == entries@.len(),
            i <= n,
            has_args == exists|j: int| 0 <= j < i && (#[trigger] entries@[j]).name is None,
            has_props == exists|j: int| 0 <= j < i && (#[trigger] entries@[j]).name is Some,
        decreases n - i,
    {
        match &entries[i].name {
            Some(_) => has_props = true,
            None => has_args = true,
        }
        i += 1;
    }
    (has_args, has_props)
}

/// Report whether every child is named exactly `-`.
fn all_dash(kids: &Vec<Node>) -> (r: bool)
    ensures
        r == spec_all_dash(kids@),
{
    let n = kids.len();
    let mut i: usize = 0;
    while i < n
        invariant
            n == kids@.len(),
            i <= n,
            forall|j: int| 0 <= j < i ==> (#[trigger] kids@[j]).name@ == "-"@,
        decreases n - i,
    {
        if !str_eq(kids[i].name.as_str(), "-") {
            return false;
        }
        i += 1;
    }
    true
}

/// Decoder for one node.
#[derive(Debug, Clone, Copy)]
pub struct KdlNodeDeser<'a> {
    pub name: &'a str,
    pub entries: &'a Vec<Entry>,
    pub children: Option<&'a Vec<Node>>,
    /// Whether map keys are normalized before they are matched: set on the
    /// way from a struct request to the map machinery, never elsewhere.
    pub snekify: bool,
}

impl<'a> KdlNodeDeser<'a> {
    /// Wrap a node.
    pub fn new(node: &'a Node) -> (r: Self)
        ensures
            r.name@ == node.name@,
            r.entries == &node.entries,
            match node.children {
                Some(v) => r.children matches Some(rv) && *rv == v,
                None => r.children is None,
            },
            r.snekify == false,
    {
        KdlNodeDeser {
            name: node.name.as_str(),
            entries: &node.entries,
            children: match &node.children {
                Some(v) => Some(v),
                None => None,
            },
            snekify: false,
        }
    }

    /// The child list, or empty where there is none.
    pub open spec fn kids_seq(self) -> Seq<Node> {
        match self.children {
            Some(v) => v@,
            None => Seq::empty(),
        }
    }

    /// The shape this node decodes under, by the precedence of the shape
    /// rules: unit before ambiguity, ambiguity before sequences, dash
    /// children before a map.
    pub open spec fn spec_shape(self) -> Shape {
        let ha = spec_has_args(self.entries@);
        let hp = spec_has_props(self.entries@) || self.children is Some;
        if !ha && !hp {
            Shape::UnitShape
        } else if ha && hp {
            Shape::MixedShape
        } else if ha {
            Shape::ArgsShape
        } else if self.children is Some && spec_all_dash(self.kids_seq()) {
            Shape::DashChildrenShape
        } else {
            Shape::PropsShape
        }
    }

    /// Infer this node's shape.
    pub fn classify(&self) -> (r: Shape)
        ensures
            r == self.spec_shape(),
    {
        let (has_args, has_props) = scan_entries(self.entries);
        let has_kids = matches!(self.children, Some(_));
        let hp = has_props || has_kids;
        if !has_args && !hp {
            Shape::UnitShape
        } else if has_args && hp {
            Shape::MixedShape
        } else if has_args {
            Shape::ArgsShape
        } else {
            match self.children {
                Some(kids) => if all_dash(kids) {
                    Shape::DashChildrenShape
                } else {
                    Shape::PropsShape
                },
                None => Shape::PropsShape,
            }
        }
    }

    /// The one argument of a node that holds exactly one argument, no
    /// properties and no child list: the only form a scalar or enum
    /// request accepts.
    pub fn single_argument(&self) -> (r: Result<KdlAnnotatedValueDeser<'a>, DeError>)
        ensures
            ({
                let fits = self.entries@.len() == 1 && self.entries@[0].name is None
                    && self.children is None;
                match r {
                    Ok(d) => fits && *d.annotation == self.entries@[0].annotation && *d.value
                        == self.entries@[0].value,
                    Err(e) => !fits && e == (DeError::MismatchedType {
                        expected: Expectation::SingleArgumentNode,
                        found: Found::FoundNode,
                    }),
                }
            }),
    {
        if self.entries.len() == 1 && matches!(self.children, None) {
            let es: &'a Vec<Entry> = self.entries;
            let e = &es[0];
            if matches!(&e.name, None) {
                return Ok(KdlAnnotatedValueDeser::new(e));
            }
        }
        Err(
            DeError::MismatchedType {
                expected: Expectation::SingleArgumentNode,
                found: Found::FoundNode,
            },
        )
    }

    /// Decode a unit target: only a node with no arguments, no properties
    /// and no child list satisfies it.
    pub fn deserialize_unit(&self) -> (r: Result<(), DeError>)
        ensures
            match r {
                Ok(_) => self.spec_shape() is UnitShape,
                Err(e) => !(self.spec_shape() is UnitShape) && e == (DeError::MismatchedType {
                    expected: Expectation::EmptyNode,
                    found: Found::FoundNode,
                }),
            },
    {
        match self.classify() {
            Shape::UnitShape => Ok(()),
            _ => Err(
                DeError::MismatchedType { expected: Expectation::EmptyNode, found: Found::FoundNode },
            ),
        }
    }

    /// Decode a map or struct target: properties first in original order,
    /// then children in document order, through the returned cursor. A
    /// node carrying arguments never decodes as a map.
    pub fn deserialize_map(&self) -> (r: Result<MapDeser<'a>, DeError>)
        ensures
            match r {
                Ok(m) => {
                    &&& !spec_has_args(self.entries@)
                    &&& m.entries == self.entries
                    &&& m.kids == self.children
                    &&& m.entry_idx == 0
                    &&& m.kid_idx == 0
                    &&& m.snekify == self.snekify
                    &&& m.pending is NoVal
                },
                Err(e) => spec_has_args(self.entries@) && e == (DeError::MismatchedType {
                    expected: Expectation::NoArgsNode,
                    found: Found::FoundNode,
                }),
            },
    {
        let (has_args, _) = scan_entries(self.entries);
        if has_args {
            return Err(
                DeError::MismatchedType {
                    expected: Expectation::NoArgsNode,
                    found: Found::FoundNode,
                },
            );
        }
        Ok(
            MapDeser {
                entries: self.entries,
                kids: self.children,
                entry_idx: 0,
                kid_idx: 0,
                snekify: self.snekify,
                pending: MapVal::NoVal,
            },
        )
    }

    /// Decode a struct target: a map whose keys are normalized before they
    /// are matched against the declared field names.
    pub fn deserialize_struct(&self) -> (r: Result<MapDeser<'a>, DeError>)
        ensures
            match r {
                Ok(m) => {
                    &&& !spec_has_args(self.entries@)
                    &&& m.entries == self.entries
                    &&& m.kids == self.children
                    &&& m.entry_idx == 0
                    &&& m.kid_idx == 0
                    &&& m.snekify == true
                    &&& m.pending is NoVal
                },
                Err(e) => spec_has_args(self.entries@) && e == (DeError::MismatchedType {
                    expected: Expectation::NoArgsNode,
                    found: Found::FoundNode,
                }),
            },
    {
        let forwarded = KdlNodeDeser {
            name: self.name,
            entries: self.entries,
            children: self.children,
            snekify: true,
        };
        forwarded.deserialize_map()
    }

    /// Decode a sequence target: the arguments in positional order, or,
    /// when a child list is present, the children in document order — the
    /// latter only when every child is named `-`. A node with properties,
    /// or with nothing to enumerate, never decodes as a sequence.
    pub fn deserialize_seq(&self) -> (r: Result<SeqAccessKind<'a>, DeError>)
        ensures
            ({
                let ha = spec_has_args(self.entries@);
                let hp = spec_has_props(self.entries@);
                let bad = hp || (!ha && self.children is None) || (self.children matches Some(kids)
                    && !spec_all_dash(kids@));
                match r {
                    Ok(k) => !bad && match self.children {
                        Some(kids) => k matches SeqAccessKind::ByChildren(c) && c.kids == kids
                            && c.idx == 0,
                        None => k matches SeqAccessKind::ByArgs(c) && c.entries == self.entries
                            && c.idx == 0,
                    },
                    Err(e) => bad && e == (DeError::MismatchedType {
                        expected: Expectation::SequenceNode,
                        found: Found::FoundNode,
                    }),
                }
            }),
    {
        let (has_args, has_props) = scan_entries(self.entries);
        if has_props || (!has_args && matches!(self.children, None)) {
            return Err(
                DeError::MismatchedType {
                    expected: Expectation::SequenceNode,
                    found: Found::FoundNode,
                },
            );
        }
        match self.children {
            Some(kids) => {
                if all_dash(kids) {
                    Ok(SeqAccessKind::ByChildren(SeqDashChildrenDeser { kids, idx: 0 }))
                } else {
                    Err(
                        DeError::MismatchedType {
                            expected: Expectation::SequenceNode,
                            found: Found::FoundNode,
                        },
                    )
                }
            },
            None => Ok(SeqAccessKind::ByArgs(SeqArgsDeser { entries: self.entries, idx: 0 })),
        }
    }

    /// Schema-less decode: read the node under its inferred shape, never
    /// silently picking between arguments and properties/children.
    pub fn deserialize_any(&self) -> (r: Result<AnyNode<'a>, DeError>)
        ensures
            match self.spec_shape() {
                Shape::UnitShape => r == Ok::<AnyNode<'a>, DeError>(AnyNode::AnyUnit),
                Shape::MixedShape => r == Err::<AnyNode<'a>, DeError>(
                    DeError::MismatchedType {
                        expected: Expectation::UnmixedNode,
                        found: Found::FoundNode,
                    },
                ),
                Shape::ArgsShape => r matches Ok(k) && (k matches AnyNode::AnySeqArgs(c)
                    && c.entries == self.entries && c.idx == 0),
                Shape::DashChildrenShape => r matches Ok(k) && (k matches AnyNode::AnySeqChildren(c)
                    && (self.children matches Some(kids) && c.kids == kids) && c.idx == 0),
                Shape::PropsShape => r matches Ok(k) && (k matches AnyNode::AnyMap(m) && m.entries
                    == self.entries && m.kids == self.children && m.entry_idx == 0 && m.kid_idx == 0
                    && m.snekify == self.snekify && m.pending is NoVal),
            },
    {
        match self.classify() {
            Shape::UnitShape => Ok(AnyNode::AnyUnit),
            Shape::MixedShape => Err(
                DeError::MismatchedType {
                    expected: Expectation::UnmixedNode,
                    found: Found::FoundNode,
                },
            ),
            Shape::ArgsShape => Ok(
                AnyNode::AnySeqArgs(SeqArgsDeser { entries: self.entries, idx: 0 }),
            ),
            Shape::DashChildrenShape => {
                match self.children {
                    Some(kids) => Ok(
                        AnyNode::AnySeqChildren(SeqDashChildrenDeser { kids, idx: 0 }),
                    ),
                    None => {
                        proof {
                            assert(false);
                        }
                        Ok(AnyNode::AnyUnit)
                    },
                }
            },
            Shape::PropsShape => Ok(
                AnyNode::AnyMap(
                    MapDeser {
                        entries: self.entries,
                        kids: self.children,
                        entry_idx: 0,
                        kid_idx: 0,
                        snekify: self.snekify,
                        pending: MapVal::NoVal,
                    },
                ),
            ),
        }
    }
}

/// A node read schema-lessly, under its inferred shape.
#[derive(Debug, Clone, Copy)]
pub enum AnyNode<'a> {
    AnyUnit,
    AnySeqArgs(SeqArgsDeser<'a>),
    AnySeqChildren(SeqDashChildrenDeser<'a>),
    AnyMap(MapDeser<'a>),
}

/// A sequence read one way or the other: from the arguments, or from the
/// dash-named children.
#[derive(Debug, Clone, Copy)]
pub enum SeqAccessKind<'a> {
    ByArgs(SeqArgsDeser<'a>),
    ByChildren(SeqDashChildrenDeser<'a>),
}

/// Cursor over the arguments of a node that holds nothing else, consumed
/// front to back exactly once.
#[derive(Debug, Clone, Copy)]
pub struct SeqArgsDeser<'a> {
    pub entries: &'a Vec<Entry>,
    pub idx: usize,
}

impl<'a> SeqArgsDeser<'a> {
    /// The cursor stands inside an entry list that holds no properties.
    pub open spec fn wf(self) -> bool {
        self.idx <= self.entries@.len() && !spec_has_props(self.entries@)
    }

    /// The next argument, in positional order, until none are left.
    pub fn next_element(&mut self) -> (r: Option<KdlAnnotatedValueDeser<'a>>)
        requires
            old(self).wf(),
        ensures
            final(self).wf(),
            final(self).entries == old(self).entries,
            old(self).idx < old(self).entries@.len() ==> ({
                &&& final(self).idx == old(self).idx + 1
                &&& r matches Some(d) && *d.annotation == old(self).entries@[
                    old(self).idx as int
                ].annotation && *d.value == old(self).entries@[old(self).idx as int].value
            }),
            old(self).idx >= old(self).entries@.len() ==> r is None && final(self).idx == old(
                self,
            ).idx,
    {
        if self.idx < self.entries.len() {
            let es: &'a Vec<Entry> = self.entries;
            let e = &es[self.idx];
            self.idx = self.idx + 1;
            Some(KdlAnnotatedValueDeser::new(e))
        } else {
            None
        }
    }
}

/// Cursor over the dash-named children of a node, consumed front to back
/// exactly once.
#[derive(Debug, Clone, Copy)]
pub struct SeqDashChildrenDeser<'a> {
    pub kids: &'a Vec<Node>,
    pub idx: usize,
}

impl<'a> SeqDashChildrenDeser<'a> {
    /// The cursor stands inside the child list.
    pub open spec fn wf(self) -> bool {
        self.idx <= self.kids@.len()
    }

    /// The next child, in document order, until none are left; each is
    /// decoded by the node decoder in turn.
    pub fn next_element(&mut self) -> (r: Option<&'a Node>)
        requires
            old(self).wf(),
        ensures
            final(self).wf(),
            final(self).kids == old(self).kids,
            old(self).idx < old(self).kids@.len() ==> ({
                &&& final(self).idx == old(self).idx + 1
                &&& r matches Some(n) && *n == old(self).kids@[old(self).idx as int]
            }),
            old(self).idx >= old(self).kids@.len() ==> r is None && final(self).idx == old(
                self,
            ).idx,
    {
        if self.idx < self.kids.len() {
            let ks: &'a Vec<Node> = self.kids;
            let n = &ks[self.idx];
            self.idx = self.idx + 1;
            Some(n)
        } else {
            None
        }
    }
}

/// The value a map cursor holds between a key request and the value
/// request that must follow it.
#[derive(Debug, Clone, Copy)]
pub enum MapVal<'a> {
    /// No key has been requested, or its value has been taken.
    NoVal,
    /// The value of the property whose key was just reported.
    PropVal(KdlAnnotatedValueDeser<'a>),
    /// The child node whose name was just reported.
    ChildVal(&'a Node),
}

/// Cursor over a map-shaped node: all properties in original order, then
/// all children in document order, each key followed by its value, every
/// pair consumed exactly once.
#[derive(Debug, Clone, Copy)]
pub struct MapDeser<'a> {
    pub entries: &'a Vec<Entry>,
    pub kids: Option<&'a Vec<Node>>,
    pub entry_idx: usize,
    pub kid_idx: usize,
    pub snekify: bool,
    pub pending: MapVal<'a>,
}

impl<'a> MapDeser<'a> {
    /// The child list, or empty where there is none.
    pub open spec fn kids_seq(self) -> Seq<Node> {
        match self.kids {
            Some(v) => v@,
            None => Seq::empty(),
        }
    }

    /// The cursor stands inside an entry list that holds no arguments and
    /// inside the child list.
    pub open spec fn wf(self) -> bool {
        &&& self.entry_idx <= self.entries@.len()
        &&& self.kid_idx <= self.kids_seq().len()
        &&& !spec_has_args(self.entries@)
    }

    /// The next key: properties first, then child names. Requesting two
    /// keys without taking the value in between fails loudly rather than
    /// reordering.
    pub fn next_key(&mut self) -> (r: Result<Option<String>, DeError>)
        requires
            old(self).wf(),
        ensures
            final(self).wf(),
            final(self).entries == old(self).entries,
            final(self).kids == old(self).kids,
            final(self).snekify == old(self).snekify,
            !(old(self).pending is NoVal) ==> *final(self) == *old(self) && (r matches Err(e)
                && e is VisitorError),
            old(self).pending is NoVal ==> ({
                let ei = old(self).entry_idx as int;
                let ki = old(self).kid_idx as int;
                if ei < old(self).entries@.len() {
                    &&& final(self).entry_idx == ei + 1
                    &&& final(self).kid_idx == old(self).kid_idx
                    &&& r matches Ok(k) && (k matches Some(key)
                        && (old(self).entries@[ei].name matches Some(nm) && key@ == spec_key(
                        old(self).snekify,
                        nm@,
                    )))
                    &&& final(self).pending matches MapVal::PropVal(d) && *d.annotation == old(
                        self,
                    ).entries@[ei].annotation && *d.value == old(self).entries@[ei].value
                } else if ki < old(self).kids_seq().len() {
                    &&& final(self).entry_idx == old(self).entry_idx
                    &&& final(self).kid_idx == ki + 1
                    &&& r matches Ok(k) && (k matches Some(key) && key@ == spec_key(
                        old(self).snekify,
                        old(self).kids_seq()[ki].name@,
                    ))
                    &&& final(self).pending matches MapVal::ChildVal(n) && *n == old(
                        self,
                    ).kids_seq()[ki]
                } else {
                    &&& *final(self) == *old(self)
                    &&& r matches Ok(k) && k is None
                }
            }),
    {
        if !matches!(self.pending, MapVal::NoVal) {
            return Err(DeError::custom(two_keys_message()));
        }
        if self.entry_idx < self.entries.len() {
            let es: &'a Vec<Entry> = self.entries;
            let e = &es[self.entry_idx];
            match &e.name {
                Some(nm) => {
                    let key = normalize_key(self.snekify, nm.as_str());
                    self.pending = MapVal::PropVal(KdlAnnotatedValueDeser::new(e));
                    self.entry_idx = self.entry_idx + 1;
                    Ok(Some(key))
                },
                None => {
                    proof {
                        assert(false);
                    }
                    Ok(None)
                },
            }
        } else {
            let kid = match self.kids {
                Some(ks) => {
                    let ks: &'a Vec<Node> = ks;
                    if self.kid_idx < ks.len() {
                        Some(&ks[self.kid_idx])
                    } else {
                        None
                    }
                },
                None => None,
            };
            match kid {
                Some(n) => {
                    let key = normalize_key(self.snekify, n.name.as_str());
                    self.pending = MapVal::ChildVal(n);
                    self.kid_idx = self.kid_idx + 1;
                    Ok(Some(key))
                },
                None => Ok(None),
            }
        }
    }

    /// The value belonging to the key reported last. Requesting a value
    /// before any key fails loudly.
    pub fn next_value(&mut self) -> (r: Result<MapVal<'a>, DeError>)
        requires
            old(self).wf(),
        ensures
            final(self).wf(),
            final(self).entries == old(self).entries,
            final(self).kids == old(self).kids,
            final(self).snekify == old(self).snekify,
            final(self).entry_idx == old(self).entry_idx,
            final(self).kid_idx == old(self).kid_idx,
            old(self).pending is NoVal ==> *final(self) == *old(self) && (r matches Err(e)
                && e is VisitorError),
            !(old(self).pending is NoVal) ==> r == Ok::<MapVal<'a>, DeError>(old(self).pending)
                && final(self).pending is NoVal,
    {
        match self.pending {
            MapVal::NoVal => Err(DeError::custom(no_key_message())),
            v => {
                self.pending = MapVal::NoVal;
                Ok(v)
            },
        }
    }
}

/// The message for a key requested while a value was still pending.
fn two_keys_message() -> String {
    "map visitor requested two keys in a row".to_owned()
}

/// The message for a value requested while no key was pending.
fn no_key_message() -> String {
    "map visitor requested a value without a key".to_owned()
}

/// Normalize one map key.
fn normalize_key(snekify: bool, s: &str) -> (r: String)
    ensures
        r@ == spec_key(snekify, s@),
{
    if snekify {
        to_snek_case(s)
    } else {
        s.to_owned()
    }
}

} // verus!
