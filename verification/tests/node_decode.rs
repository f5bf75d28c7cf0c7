use knurdy::AnyNode;
use knurdy::DeError;
use knurdy::Entry;
use knurdy::Expectation;
use knurdy::Found;
use knurdy::IntBase;
use knurdy::KdlNodeDeser;
use knurdy::MapVal;
use knurdy::Node;
use knurdy::SeqAccessKind;
use knurdy::Shape;
use knurdy::Value;

fn arg(value: Value) -> Entry {
    Entry { name: None, annotation: None, value }
}

fn prop(name: &str, value: Value) -> Entry {
    Entry { name: Some(name.to_string()), annotation: None, value }
}

fn num(m: i64) -> Value {
    Value::Int(IntBase::Decimal, m)
}

fn node(name: &str, entries: Vec<Entry>, children: Option<Vec<Node>>) -> Node {
    Node { name: name.to_string(), entries, children }
}

fn dash_child(value: Value) -> Node {
    node("-", vec![arg(value)], None)
}

#[test]
fn bare_node_decodes_as_unit() {
    let n = node("foo", vec![], None);
    let d = KdlNodeDeser::new(&n);
    assert_eq!(d.classify(), Shape::UnitShape);
    assert_eq!(d.deserialize_unit(), Ok(()));
    assert!(matches!(d.deserialize_any(), Ok(AnyNode::AnyUnit)));
}

#[test]
fn unit_of_populated_node_fails() {
    let n = node("foo", vec![arg(num(1))], None);
    let d = KdlNodeDeser::new(&n);
    assert_eq!(
        d.deserialize_unit(),
        Err(DeError::MismatchedType {
            expected: Expectation::EmptyNode,
            found: Found::FoundNode,
        })
    );
}

#[test]
fn args_with_props_or_children_is_ambiguous() {
    let with_prop = node("foo", vec![arg(num(1)), prop("a", num(2))], None);
    let d = KdlNodeDeser::new(&with_prop);
    assert_eq!(d.classify(), Shape::MixedShape);
    assert!(matches!(
        d.deserialize_any(),
        Err(DeError::MismatchedType {
            expected: Expectation::UnmixedNode,
            found: Found::FoundNode,
        })
    ));

    let with_kids = node("foo", vec![arg(num(1))], Some(vec![dash_child(num(2))]));
    let d = KdlNodeDeser::new(&with_kids);
    assert_eq!(d.classify(), Shape::MixedShape);
    assert!(d.deserialize_any().is_err());
}

#[test]
fn three_args_decode_as_int_triple() {
    let n = node("foo", vec![arg(num(1)), arg(num(2)), arg(num(3))], None);
    let d = KdlNodeDeser::new(&n);
    let mut cursor = match d.deserialize_seq().unwrap() {
        SeqAccessKind::ByArgs(c) => c,
        SeqAccessKind::ByChildren(_) => panic!("expected an argument sequence"),
    };
    let mut got = Vec::new();
    while let Some(elem) = cursor.next_element() {
        got.push(elem.literal().deserialize_i64().unwrap());
    }
    assert_eq!(got, vec![1i64, 2, 3]);
}

#[test]
fn dash_children_decode_as_sequence_in_order() {
    let n = node("foo", vec![], Some(vec![dash_child(num(1)), dash_child(num(2))]));
    let d = KdlNodeDeser::new(&n);
    assert_eq!(d.classify(), Shape::DashChildrenShape);
    let mut cursor = match d.deserialize_seq().unwrap() {
        SeqAccessKind::ByChildren(c) => c,
        SeqAccessKind::ByArgs(_) => panic!("expected a children sequence"),
    };
    let mut got = Vec::new();
    while let Some(kid) = cursor.next_element() {
        let kd = KdlNodeDeser::new(kid);
        let one = kd.single_argument().unwrap();
        got.push(one.literal().deserialize_i64().unwrap());
    }
    assert_eq!(got, vec![1i64, 2]);
}

#[test]
fn non_dash_child_decodes_as_map_instead() {
    let n = node("foo", vec![], Some(vec![dash_child(num(1)), node("x", vec![arg(num(2))], None)]));
    let d = KdlNodeDeser::new(&n);
    assert_eq!(d.classify(), Shape::PropsShape);
    assert!(matches!(d.deserialize_any(), Ok(AnyNode::AnyMap(_))));
    assert!(matches!(
        d.deserialize_seq(),
        Err(DeError::MismatchedType {
            expected: Expectation::SequenceNode,
            found: Found::FoundNode,
        })
    ));
}

#[test]
fn present_empty_child_list_is_empty_sequence() {
    let n = node("foo", vec![], Some(vec![]));
    let d = KdlNodeDeser::new(&n);
    assert_eq!(d.classify(), Shape::DashChildrenShape);
    let mut cursor = match d.deserialize_seq().unwrap() {
        SeqAccessKind::ByChildren(c) => c,
        SeqAccessKind::ByArgs(_) => panic!("expected a children sequence"),
    };
    assert!(cursor.next_element().is_none());
}

#[test]
fn seq_of_node_with_props_fails() {
    let n = node("foo", vec![prop("a", num(1))], None);
    let d = KdlNodeDeser::new(&n);
    assert!(d.deserialize_seq().is_err());

    let empty = node("foo", vec![], None);
    let d = KdlNodeDeser::new(&empty);
    assert!(d.deserialize_seq().is_err());
}

#[test]
fn props_decode_as_map_in_order() {
    let n = node("foo", vec![prop("a", num(1)), prop("b", num(2))], None);
    let d = KdlNodeDeser::new(&n);
    let mut m = d.deserialize_map().unwrap();

    let k = m.next_key().unwrap().unwrap();
    assert_eq!(k, "a");
    let v = match m.next_value().unwrap() {
        MapVal::PropVal(p) => p.literal().deserialize_i64().unwrap(),
        other => panic!("expected a property value, got {:?}", other),
    };
    assert_eq!(v, 1);

    let k = m.next_key().unwrap().unwrap();
    assert_eq!(k, "b");
    let v = match m.next_value().unwrap() {
        MapVal::PropVal(p) => p.literal().deserialize_i64().unwrap(),
        other => panic!("expected a property value, got {:?}", other),
    };
    assert_eq!(v, 2);

    assert!(m.next_key().unwrap().is_none());
}

#[test]
fn map_lists_props_before_children() {
    let kid = node("kid", vec![arg(num(9))], None);
    let n = node("foo", vec![prop("a", num(1))], Some(vec![kid]));
    let d = KdlNodeDeser::new(&n);
    let mut m = d.deserialize_map().unwrap();

    assert_eq!(m.next_key().unwrap().unwrap(), "a");
    assert!(matches!(m.next_value().unwrap(), MapVal::PropVal(_)));

    assert_eq!(m.next_key().unwrap().unwrap(), "kid");
    match m.next_value().unwrap() {
        MapVal::ChildVal(c) => {
            let kd = KdlNodeDeser::new(c);
            let one = kd.single_argument().unwrap();
            assert_eq!(one.literal().deserialize_i64().unwrap(), 9);
        },
        other => panic!("expected a child value, got {:?}", other),
    }
    assert!(m.next_key().unwrap().is_none());
}

#[test]
fn map_of_node_with_args_fails() {
    let n = node("foo", vec![arg(num(1))], None);
    let d = KdlNodeDeser::new(&n);
    assert!(matches!(
        d.deserialize_map(),
        Err(DeError::MismatchedType {
            expected: Expectation::NoArgsNode,
            found: Found::FoundNode,
        })
    ));
}

#[test]
fn struct_request_normalizes_keys() {
    let n = node("foo", vec![prop("a-kid", num(1))], Some(vec![node("AnEnum", vec![arg(num(2))], None)]));
    let d = KdlNodeDeser::new(&n);
    let mut m = d.deserialize_struct().unwrap();
    assert_eq!(m.next_key().unwrap().unwrap(), "a_kid");
    m.next_value().unwrap();
    assert_eq!(m.next_key().unwrap().unwrap(), "an_enum");
    m.next_value().unwrap();
    assert!(m.next_key().unwrap().is_none());
}

#[test]
fn open_map_keeps_keys_verbatim() {
    let n = node("foo", vec![prop("a-kid", num(1))], None);
    let d = KdlNodeDeser::new(&n);
    let mut m = d.deserialize_map().unwrap();
    assert_eq!(m.next_key().unwrap().unwrap(), "a-kid");
}

#[test]
fn map_misuse_fails_loudly() {
    let n = node("foo", vec![prop("a", num(1)), prop("b", num(2))], None);
    let d = KdlNodeDeser::new(&n);

    let mut m = d.deserialize_map().unwrap();
    assert!(matches!(m.next_value(), Err(DeError::VisitorError(_))));

    let mut m = d.deserialize_map().unwrap();
    m.next_key().unwrap();
    assert!(matches!(m.next_key(), Err(DeError::VisitorError(_))));
}

#[test]
fn single_argument_feeds_scalar_requests() {
    let n = node("foo", vec![arg(num(65))], None);
    let d = KdlNodeDeser::new(&n);
    let one = d.single_argument().unwrap();
    assert_eq!(one.deserialize_char(), Ok('A'));

    let two = node("foo", vec![arg(num(1)), arg(num(2))], None);
    let d = KdlNodeDeser::new(&two);
    assert!(matches!(
        d.single_argument(),
        Err(DeError::MismatchedType {
            expected: Expectation::SingleArgumentNode,
            found: Found::FoundNode,
        })
    ));

    let with_kids = node("foo", vec![arg(num(1))], Some(vec![]));
    let d = KdlNodeDeser::new(&with_kids);
    assert!(d.single_argument().is_err());

    let with_prop = node("foo", vec![prop("a", num(1))], None);
    let d = KdlNodeDeser::new(&with_prop);
    assert!(d.single_argument().is_err());
}

#[test]
fn null_property_reads_as_absent_option() {
    let n = node("foo", vec![prop("x", Value::Null)], None);
    let d = KdlNodeDeser::new(&n);
    let mut m = d.deserialize_struct().unwrap();
    assert_eq!(m.next_key().unwrap().unwrap(), "x");
    match m.next_value().unwrap() {
        MapVal::PropVal(p) => assert!(p.deserialize_option().is_none()),
        other => panic!("expected a property value, got {:?}", other),
    }
}

#[test]
fn classify_twice_is_identical() {
    let n = node(
        "foo",
        vec![prop("a", num(1))],
        Some(vec![dash_child(num(1)), node("x", vec![], None)]),
    );
    let d = KdlNodeDeser::new(&n);
    assert_eq!(d.classify(), d.classify());
    let e = KdlNodeDeser::new(&n);
    assert_eq!(d.classify(), e.classify());
}
