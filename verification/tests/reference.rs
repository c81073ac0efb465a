use prescience::proto;
use prescience::{Error, ObjectReference, SubjectReference};
use std::collections::HashSet;

#[test]
fn object_reference_valid() {
    let obj = ObjectReference::new("document", "doc-123").unwrap();
    assert_eq!(obj.object_type(), "document");
    assert_eq!(obj.object_id(), "doc-123");
}

#[test]
fn object_reference_empty_type() {
    let err = ObjectReference::new("", "doc-123").unwrap_err();
    assert!(matches!(err, Error::InvalidArgument(_)));
}

#[test]
fn object_reference_empty_id() {
    let err = ObjectReference::new("document", "").unwrap_err();
    assert!(matches!(err, Error::InvalidArgument(_)));
}

#[test]
fn object_reference_error_messages() {
    assert_eq!(
        ObjectReference::new("", "doc-123").unwrap_err(),
        Error::InvalidArgument("object_type must not be empty".to_string())
    );
    assert_eq!(
        ObjectReference::new("document", "").unwrap_err(),
        Error::InvalidArgument("object_id must not be empty".to_string())
    );
    // The type is looked at first.
    assert_eq!(
        ObjectReference::new("", "").unwrap_err(),
        Error::InvalidArgument("object_type must not be empty".to_string())
    );
}

#[test]
fn object_reference_equality_and_hash() {
    let a = ObjectReference::new("doc", "1").unwrap();
    let b = ObjectReference::new("doc", "1").unwrap();
    let c = ObjectReference::new("doc", "2").unwrap();
    assert_eq!(a, b);
    assert_ne!(a, c);
    let mut set = HashSet::new();
    set.insert(a.clone());
    assert!(set.contains(&b));
    assert!(!set.contains(&c));
}

#[test]
fn subject_reference_without_relation() {
    let obj = ObjectReference::new("user", "alice").unwrap();
    let sub = SubjectReference::new(obj, None).unwrap();
    assert_eq!(sub.object().object_type(), "user");
    assert_eq!(sub.optional_relation(), None);
}

#[test]
fn subject_reference_with_relation() {
    let obj = ObjectReference::new("group", "eng").unwrap();
    let sub = SubjectReference::new(obj, Some("member")).unwrap();
    assert_eq!(sub.optional_relation(), Some("member"));
}

#[test]
fn subject_reference_empty_relation_rejected() {
    let obj = ObjectReference::new("group", "eng").unwrap();
    let err = SubjectReference::new(obj, Some("")).unwrap_err();
    assert!(matches!(err, Error::InvalidArgument(_)));
}

#[test]
fn subject_reference_empty_relation_message() {
    let obj = ObjectReference::new("group", "eng").unwrap();
    assert_eq!(
        SubjectReference::new(obj, Some("")).unwrap_err(),
        Error::InvalidArgument("optional_relation must not be empty; use None instead".to_string())
    );
}

#[test]
fn proto_roundtrip_object_reference() {
    let orig = ObjectReference::new("document", "doc-123").unwrap();
    let proto: proto::ObjectReference = orig.to_proto();
    let back: ObjectReference = ObjectReference::from_proto(proto).unwrap();
    assert_eq!(orig, back);
}

#[test]
fn proto_roundtrip_subject_reference() {
    let obj = ObjectReference::new("user", "alice").unwrap();
    let orig = SubjectReference::new(obj, Some("member")).unwrap();
    let proto: proto::SubjectReference = orig.to_proto();
    let back: SubjectReference = SubjectReference::from_proto(proto).unwrap();
    assert_eq!(orig, back);
}

#[test]
fn subject_without_relation_travels_as_empty_string() {
    let obj = ObjectReference::new("user", "alice").unwrap();
    let orig = SubjectReference::new(obj, None).unwrap();
    let wire = orig.to_proto();
    assert_eq!(wire.optional_relation, "");
    assert_eq!(
        wire.object,
        Some(proto::ObjectReference {
            object_type: "user".to_string(),
            object_id: "alice".to_string(),
        })
    );
    let back = SubjectReference::from_proto(wire).unwrap();
    assert_eq!(back.optional_relation(), None);
    assert_eq!(orig, back);
}

#[test]
fn object_reference_from_proto_revalidates() {
    let wire = proto::ObjectReference { object_type: String::new(), object_id: "x".to_string() };
    assert_eq!(
        ObjectReference::from_proto(wire).unwrap_err(),
        Error::Serialization("object_type must not be empty".to_string())
    );
    let wire = proto::ObjectReference { object_type: "doc".to_string(), object_id: String::new() };
    assert_eq!(
        ObjectReference::from_proto(wire).unwrap_err(),
        Error::Serialization("object_id must not be empty".to_string())
    );
}

#[test]
fn subject_reference_from_proto_needs_object() {
    let wire = proto::SubjectReference { object: None, optional_relation: "member".to_string() };
    assert_eq!(
        SubjectReference::from_proto(wire).unwrap_err(),
        Error::Serialization("missing subject object".to_string())
    );
    let wire = proto::SubjectReference {
        object: Some(proto::ObjectReference {
            object_type: "user".to_string(),
            object_id: String::new(),
        }),
        optional_relation: String::new(),
    };
    assert_eq!(
        SubjectReference::from_proto(wire).unwrap_err(),
        Error::Serialization("object_id must not be empty".to_string())
    );
}

#[test]
fn references_clone_to_equal_values() {
    let obj = ObjectReference::new("group", "eng").unwrap();
    let sub = SubjectReference::new(obj.clone(), Some("member")).unwrap();
    assert_eq!(obj.clone(), obj);
    assert_eq!(sub.clone(), sub);
    assert_eq!(sub.object(), &obj);
}
