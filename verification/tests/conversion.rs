use ayaml::convert::convert_node;
use ayaml::float::real_to_bits;
use ayaml::node::Node;
use ayaml::value::{DynamicValue, NAN_BITS};

#[test]
fn integer_maps_exactly() {
    assert_eq!(convert_node(&Node::Integer(42)), DynamicValue::Int64(42));
    assert_eq!(convert_node(&Node::Integer(i64::MAX)), DynamicValue::Int64(i64::MAX));
    assert_eq!(convert_node(&Node::Integer(i64::MIN)), DynamicValue::Int64(i64::MIN));
    assert_eq!(convert_node(&Node::Integer(0)), DynamicValue::Int64(0));
}

#[test]
fn unparsable_real_is_nan() {
    let r = convert_node(&Node::Real("not-a-number".to_string()));
    match r {
        DynamicValue::Float64(bits) => {
            assert!(f64::from_bits(bits).is_nan());
            assert_eq!(bits, NAN_BITS);
        }
        other => panic!("expected a float, got {:?}", other),
    }
}

#[test]
fn parsable_real_matches_ieee_value() {
    for (text, expected) in [("1.5", 1.5f64), ("-0.25", -0.25f64), ("2e5", 2e5f64), ("0.1", 0.1f64)]
    {
        let r = convert_node(&Node::Real(text.to_string()));
        assert_eq!(r, DynamicValue::Float64(expected.to_bits()), "text {:?}", text);
    }
}

#[test]
fn empty_real_text_is_nan() {
    assert!(f64::from_bits(real_to_bits("")).is_nan());
}

#[test]
fn string_and_boolean_pass_through() {
    assert_eq!(
        convert_node(&Node::Str("hello".to_string())),
        DynamicValue::Str("hello".to_string())
    );
    assert_eq!(convert_node(&Node::Boolean(true)), DynamicValue::Bool(true));
    assert_eq!(convert_node(&Node::Boolean(false)), DynamicValue::Bool(false));
}

#[test]
fn null_alias_and_bad_value_become_null() {
    assert_eq!(convert_node(&Node::Null), DynamicValue::Null);
    assert_eq!(convert_node(&Node::Alias(7)), DynamicValue::Null);
    assert_eq!(convert_node(&Node::BadValue), DynamicValue::Null);
}

#[test]
fn array_round_trip() {
    let n = Node::Array(vec![Node::Integer(1), Node::Str("a".to_string()), Node::Null]);
    let r = convert_node(&n);
    assert_eq!(
        r,
        DynamicValue::List(vec![
            DynamicValue::Int64(1),
            DynamicValue::Str("a".to_string()),
            DynamicValue::Null,
        ])
    );
}

#[test]
fn empty_array_converts_to_empty_list() {
    assert_eq!(convert_node(&Node::Array(vec![])), DynamicValue::List(vec![]));
}

#[test]
fn hash_order_preserved() {
    let n = Node::Hash(vec![
        (Node::Str("b".to_string()), Node::Integer(2)),
        (Node::Str("a".to_string()), Node::Integer(1)),
    ]);
    let r = convert_node(&n);
    assert_eq!(
        r,
        DynamicValue::Dict(vec![
            (DynamicValue::Str("b".to_string()), DynamicValue::Int64(2)),
            (DynamicValue::Str("a".to_string()), DynamicValue::Int64(1)),
        ])
    );
}

#[test]
fn bad_value_degrades_without_aborting_siblings() {
    let n = Node::Array(vec![Node::Integer(1), Node::BadValue, Node::Str("x".to_string())]);
    let r = convert_node(&n);
    assert_eq!(
        r,
        DynamicValue::List(vec![
            DynamicValue::Int64(1),
            DynamicValue::Null,
            DynamicValue::Str("x".to_string()),
        ])
    );
}

#[test]
fn nested_structures_convert_recursively() {
    let n = Node::Hash(vec![(
        Node::Str("k".to_string()),
        Node::Array(vec![Node::Hash(vec![(Node::Integer(1), Node::Boolean(true))])]),
    )]);
    let r = convert_node(&n);
    assert_eq!(
        r,
        DynamicValue::Dict(vec![(
            DynamicValue::Str("k".to_string()),
            DynamicValue::List(vec![DynamicValue::Dict(vec![(
                DynamicValue::Int64(1),
                DynamicValue::Bool(true),
            )])]),
        )])
    );
}
