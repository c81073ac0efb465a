use prescience::proto;
use prescience::types::context_to_struct;
use prescience::{ContextMap, ContextValue};

fn number(x: f64) -> ContextValue {
    ContextValue::Number(x.to_bits())
}

#[test]
fn roundtrip_null() {
    let orig = ContextValue::Null;
    let proto: proto::Value = orig.to_proto();
    let back: ContextValue = ContextValue::from_proto(proto);
    assert_eq!(orig, back);
}

#[test]
fn roundtrip_bool() {
    let orig = ContextValue::Bool(true);
    let proto: proto::Value = orig.to_proto();
    let back: ContextValue = ContextValue::from_proto(proto);
    assert_eq!(orig, back);
}

#[test]
fn roundtrip_number() {
    let orig = number(42.5);
    let proto: proto::Value = orig.to_proto();
    let back: ContextValue = ContextValue::from_proto(proto);
    assert_eq!(orig, back);
}

#[test]
fn roundtrip_string() {
    let orig = ContextValue::String("hello".into());
    let proto: proto::Value = orig.to_proto();
    let back: ContextValue = ContextValue::from_proto(proto);
    assert_eq!(orig, back);
}

#[test]
fn roundtrip_list() {
    let orig = ContextValue::List(vec![number(1.0), ContextValue::String("two".into())]);
    let proto: proto::Value = orig.to_proto();
    let back: ContextValue = ContextValue::from_proto(proto);
    assert_eq!(orig, back);
}

#[test]
fn roundtrip_nested_struct() {
    let mut fields = ContextMap::new();
    fields.insert("key", ContextValue::Bool(false));
    let orig = ContextValue::Struct(fields);
    let proto: proto::Value = orig.to_proto();
    let back: ContextValue = ContextValue::from_proto(proto);
    assert_eq!(orig, back);
}

#[test]
fn roundtrip_deeply_nested() {
    let mut inner = ContextMap::new();
    inner.insert("zone", ContextValue::String("eu".into()));
    inner.insert("ports", ContextValue::List(vec![number(80.0), number(443.0)]));
    let mut outer = ContextMap::new();
    outer.insert("net", ContextValue::Struct(inner));
    outer.insert("admin", ContextValue::Bool(true));
    outer.insert("nothing", ContextValue::Null);
    let orig = ContextValue::List(vec![ContextValue::Struct(outer), ContextValue::Null]);
    let back = ContextValue::from_proto(orig.to_proto());
    assert_eq!(orig, back);
}

#[test]
fn wire_form_of_each_kind() {
    assert_eq!(
        ContextValue::Null.to_proto(),
        proto::Value { kind: Some(proto::Kind::NullValue(0)) }
    );
    assert_eq!(
        ContextValue::Bool(true).to_proto(),
        proto::Value { kind: Some(proto::Kind::BoolValue(true)) }
    );
    assert_eq!(
        number(42.5).to_proto(),
        proto::Value { kind: Some(proto::Kind::NumberValue(42.5f64.to_bits())) }
    );
    assert_eq!(
        ContextValue::String("hello".into()).to_proto(),
        proto::Value { kind: Some(proto::Kind::StringValue("hello".to_string())) }
    );
    assert_eq!(
        ContextValue::List(vec![ContextValue::Null]).to_proto(),
        proto::Value {
            kind: Some(proto::Kind::ListValue(proto::ListValue {
                values: vec![proto::Value { kind: Some(proto::Kind::NullValue(0)) }]
            }))
        }
    );
}

#[test]
fn value_without_kind_is_null() {
    assert_eq!(ContextValue::from_proto(proto::Value { kind: None }), ContextValue::Null);
    assert_eq!(
        ContextValue::from_proto(proto::Value { kind: Some(proto::Kind::NullValue(5)) }),
        ContextValue::Null
    );
}

#[test]
fn number_keeps_its_bits() {
    let v = number(0.1);
    match ContextValue::from_proto(v.to_proto()) {
        ContextValue::Number(bits) => assert_eq!(f64::from_bits(bits), 0.1),
        other => panic!("unexpected value {:?}", other),
    }
}

#[test]
fn insertion_order_is_irrelevant() {
    let mut a = ContextMap::new();
    a.insert("b", number(2.0));
    a.insert("a", number(1.0));
    a.insert("c", number(3.0));
    let mut b = ContextMap::new();
    b.insert("c", number(3.0));
    b.insert("a", number(1.0));
    b.insert("b", number(2.0));
    assert_eq!(a, b);
    assert_eq!(a.len(), 3);
    assert_eq!(a.entry_at(0).unwrap().key, "a");
    assert_eq!(a.entry_at(1).unwrap().key, "b");
    assert_eq!(a.entry_at(2).unwrap().key, "c");
    assert!(a.entry_at(3).is_none());
}

#[test]
fn insert_replaces_and_returns_previous() {
    let mut m = ContextMap::new();
    assert!(m.is_empty());
    assert_eq!(m.insert("ip", ContextValue::String("10.0.0.1".into())), None);
    assert_eq!(
        m.insert("ip", ContextValue::String("10.0.0.2".into())),
        Some(ContextValue::String("10.0.0.1".into()))
    );
    assert_eq!(m.len(), 1);
    assert!(!m.is_empty());
    assert_eq!(m.get("ip"), Some(&ContextValue::String("10.0.0.2".into())));
    assert_eq!(m.get("i"), None);
    assert_eq!(m.get("ipx"), None);
    assert!(m.contains_key("ip"));
    assert!(!m.contains_key(""));
}

#[test]
fn keys_are_ordered_by_bytes() {
    let mut m = ContextMap::new();
    m.insert("b", ContextValue::Null);
    m.insert("", ContextValue::Null);
    m.insert("ab", ContextValue::Null);
    m.insert("a", ContextValue::Null);
    m.insert("B", ContextValue::Null);
    m.insert("\u{e9}", ContextValue::Null);
    let keys: Vec<&str> = (0..m.len()).map(|i| m.entry_at(i).unwrap().key.as_str()).collect();
    assert_eq!(keys, vec!["", "B", "a", "ab", "b", "\u{e9}"]);
}

#[test]
fn context_to_struct_lists_fields_by_name() {
    let mut ctx = ContextMap::new();
    ctx.insert("user", ContextValue::String("alice".into()));
    ctx.insert("age", number(30.0));
    let wire = context_to_struct(&ctx);
    assert_eq!(
        wire,
        proto::Struct {
            fields: vec![
                proto::Field {
                    key: "age".to_string(),
                    value: proto::Value { kind: Some(proto::Kind::NumberValue(30.0f64.to_bits())) },
                },
                proto::Field {
                    key: "user".to_string(),
                    value: proto::Value {
                        kind: Some(proto::Kind::StringValue("alice".to_string()))
                    },
                },
            ]
        }
    );
    assert_eq!(ContextMap::from_proto(wire), ctx);
}

#[test]
fn later_wire_field_wins() {
    let wire = proto::Struct {
        fields: vec![
            proto::Field {
                key: "k".to_string(),
                value: proto::Value { kind: Some(proto::Kind::BoolValue(true)) },
            },
            proto::Field {
                key: "a".to_string(),
                value: proto::Value { kind: None },
            },
            proto::Field {
                key: "k".to_string(),
                value: proto::Value { kind: Some(proto::Kind::BoolValue(false)) },
            },
        ],
    };
    let m = ContextMap::from_proto(wire);
    assert_eq!(m.len(), 2);
    assert_eq!(m.get("k"), Some(&ContextValue::Bool(false)));
    assert_eq!(m.get("a"), Some(&ContextValue::Null));
}

#[test]
fn context_values_clone_to_equal_values() {
    let mut m = ContextMap::new();
    m.insert("list", ContextValue::List(vec![number(1.5), ContextValue::Bool(true)]));
    let v = ContextValue::Struct(m.clone());
    assert_eq!(v.clone(), v);
    assert_eq!(m.clone(), m);
}

#[test]
fn equality_goes_by_value() {
    let a = ContextValue::List(vec![number(1.0), ContextValue::String("x".into())]);
    let b = ContextValue::List(vec![number(1.0), ContextValue::String("x".into())]);
    assert_eq!(a, b);
    assert_ne!(a, ContextValue::List(vec![number(1.0)]));
    assert_ne!(a, ContextValue::List(vec![ContextValue::String("x".into()), number(1.0)]));
    assert_ne!(number(1.0), number(2.0));
    assert_ne!(number(0.0), ContextValue::Null);
    assert_ne!(ContextValue::Bool(true), ContextValue::Bool(false));
    assert_ne!(ContextValue::String("a".into()), ContextValue::String("b".into()));
    let mut m = ContextMap::new();
    m.insert("k", ContextValue::Bool(true));
    let mut n = ContextMap::new();
    n.insert("k", ContextValue::Bool(false));
    assert_ne!(m, n);
    n.insert("k", ContextValue::Bool(true));
    assert_eq!(m, n);
    n.insert("l", ContextValue::Null);
    assert_ne!(m, n);
    assert_ne!(ContextValue::Struct(m), ContextValue::Struct(n));
}
