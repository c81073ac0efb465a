use prescience::proto;
use prescience::{
    Caveat, ContextMap, ContextValue, Error, ObjectReference, Operation, Precondition,
    PreconditionOp, ReadRelationshipResult, Relationship, RelationshipFilter, RelationshipUpdate,
    SubjectFilter, SubjectReference, WatchEvent,
};

fn sample() -> Relationship {
    Relationship::new(
        ObjectReference::new("doc", "1").unwrap(),
        "viewer",
        SubjectReference::new(ObjectReference::new("user", "alice").unwrap(), None).unwrap(),
    )
}

fn wire_sample() -> proto::Relationship {
    proto::Relationship {
        resource: Some(proto::ObjectReference {
            object_type: "doc".to_string(),
            object_id: "1".to_string(),
        }),
        relation: "viewer".to_string(),
        subject: Some(proto::SubjectReference {
            object: Some(proto::ObjectReference {
                object_type: "user".to_string(),
                object_id: "alice".to_string(),
            }),
            optional_relation: String::new(),
        }),
        optional_caveat: None,
        optional_expires_at: None,
    }
}

#[test]
fn relationship_create_update() {
    let rel = Relationship::new(
        ObjectReference::new("doc", "1").unwrap(),
        "viewer",
        SubjectReference::new(ObjectReference::new("user", "alice").unwrap(), None).unwrap(),
    );
    let update = RelationshipUpdate::create(rel);
    assert_eq!(update.operation, Operation::Create);
}

#[test]
fn relationship_with_caveat() {
    let rel = Relationship::new(
        ObjectReference::new("doc", "1").unwrap(),
        "viewer",
        SubjectReference::new(ObjectReference::new("user", "alice").unwrap(), None).unwrap(),
    )
    .with_caveat(Caveat::new("ip_check", ContextMap::new()));
    assert!(rel.optional_caveat.is_some());
    assert_eq!(rel.optional_caveat.unwrap().name, "ip_check");
}

#[test]
fn precondition_must_exist() {
    let p = Precondition::must_exist(RelationshipFilter::new("document"));
    assert_eq!(p.operation, PreconditionOp::MustExist);
}

#[test]
fn precondition_wire_forms() {
    let p = Precondition::must_exist(RelationshipFilter::new("document"));
    assert_eq!(p.to_proto().operation, 2);
    let p = Precondition::must_not_exist(RelationshipFilter::new("document"));
    assert_eq!(p.operation, PreconditionOp::MustNotExist);
    let wire = p.to_proto();
    assert_eq!(wire.operation, 1);
    assert_eq!(
        wire.filter,
        Some(proto::RelationshipFilter {
            resource_type: "document".to_string(),
            optional_resource_id: String::new(),
            optional_resource_id_prefix: String::new(),
            optional_relation: String::new(),
            optional_subject_filter: None,
        })
    );
}

#[test]
fn update_constructors_and_codes() {
    assert_eq!(RelationshipUpdate::create(sample()).to_proto().operation, 1);
    assert_eq!(RelationshipUpdate::touch(sample()).operation, Operation::Touch);
    assert_eq!(RelationshipUpdate::touch(sample()).to_proto().operation, 2);
    assert_eq!(RelationshipUpdate::delete(sample()).operation, Operation::Delete);
    assert_eq!(RelationshipUpdate::delete(sample()).to_proto().operation, 3);
    assert_eq!(RelationshipUpdate::create(sample()).to_proto().relationship, Some(wire_sample()));
}

#[test]
fn relationship_wire_form() {
    assert_eq!(sample().to_proto(), wire_sample());
}

#[test]
fn relationship_roundtrip_with_caveat() {
    let mut ctx = ContextMap::new();
    ctx.insert("ip", ContextValue::String("10.0.0.1".into()));
    ctx.insert("hops", ContextValue::Number(3.0f64.to_bits()));
    let rel = Relationship::new(
        ObjectReference::new("doc", "1").unwrap(),
        "viewer",
        SubjectReference::new(ObjectReference::new("group", "eng").unwrap(), Some("member"))
            .unwrap(),
    )
    .with_caveat(Caveat::new("ip_check", ctx));
    let back = Relationship::from_proto(rel.to_proto()).unwrap();
    assert_eq!(back, rel);
}

#[test]
fn caveat_without_context_sends_none() {
    let rel = sample().with_caveat(Caveat::new("always", ContextMap::new()));
    let wire = rel.to_proto();
    assert_eq!(
        wire.optional_caveat,
        Some(proto::ContextualizedCaveat { caveat_name: "always".to_string(), context: None })
    );
    assert_eq!(Relationship::from_proto(wire).unwrap(), rel);
}

#[test]
fn relationship_from_proto_failures() {
    let mut wire = wire_sample();
    wire.resource = None;
    wire.subject = None;
    assert_eq!(
        Relationship::from_proto(wire).unwrap_err(),
        Error::Serialization("missing resource".to_string())
    );
    let mut wire = wire_sample();
    wire.subject = None;
    assert_eq!(
        Relationship::from_proto(wire).unwrap_err(),
        Error::Serialization("missing subject".to_string())
    );
    let mut wire = wire_sample();
    wire.resource = Some(proto::ObjectReference {
        object_type: "doc".to_string(),
        object_id: String::new(),
    });
    assert_eq!(
        Relationship::from_proto(wire).unwrap_err(),
        Error::Serialization("object_id must not be empty".to_string())
    );
    let mut wire = wire_sample();
    wire.subject = Some(proto::SubjectReference { object: None, optional_relation: String::new() });
    assert_eq!(
        Relationship::from_proto(wire).unwrap_err(),
        Error::Serialization("missing subject object".to_string())
    );
}

#[test]
fn update_from_proto() {
    let wire = proto::RelationshipUpdate { operation: 2, relationship: Some(wire_sample()) };
    assert_eq!(RelationshipUpdate::from_proto(wire).unwrap(), RelationshipUpdate::touch(sample()));
    let wire = proto::RelationshipUpdate { operation: 7, relationship: Some(wire_sample()) };
    assert_eq!(
        RelationshipUpdate::from_proto(wire).unwrap_err(),
        Error::Serialization("unknown operation: 7".to_string())
    );
    // The operation is read before the relationship.
    let wire = proto::RelationshipUpdate { operation: 0, relationship: None };
    assert_eq!(
        RelationshipUpdate::from_proto(wire).unwrap_err(),
        Error::Serialization("unknown operation: 0".to_string())
    );
    let wire = proto::RelationshipUpdate { operation: 3, relationship: None };
    assert_eq!(
        RelationshipUpdate::from_proto(wire).unwrap_err(),
        Error::Serialization("missing relationship".to_string())
    );
}

#[test]
fn update_roundtrip() {
    for update in [
        RelationshipUpdate::create(sample()),
        RelationshipUpdate::touch(sample()),
        RelationshipUpdate::delete(sample()),
    ] {
        assert_eq!(RelationshipUpdate::from_proto(update.to_proto()).unwrap(), update);
    }
}

#[test]
fn filter_builders() {
    let f = RelationshipFilter::new("document");
    assert_eq!(f.resource_type, "document");
    assert_eq!(f.optional_resource_id, None);
    assert_eq!(f.optional_relation, None);
    assert_eq!(f.optional_subject_filter, None);
    let s = SubjectFilter::new("user");
    assert_eq!(s.subject_type, "user");
    assert_eq!(s.optional_subject_id, None);
    assert_eq!(s.optional_relation, None);
    let s = s.subject_id("alice").relation("member");
    assert_eq!(s.optional_subject_id, Some("alice".to_string()));
    assert_eq!(s.optional_relation, Some("member".to_string()));
    let f = f.resource_id("doc-1").relation("viewer").subject_filter(s.clone());
    assert_eq!(f.resource_type, "document");
    assert_eq!(f.optional_resource_id, Some("doc-1".to_string()));
    assert_eq!(f.optional_relation, Some("viewer".to_string()));
    assert_eq!(f.optional_subject_filter, Some(s));
}

#[test]
fn filter_wire_forms() {
    let s = SubjectFilter::new("user");
    assert_eq!(
        s.to_proto(),
        proto::SubjectFilter {
            subject_type: "user".to_string(),
            optional_subject_id: String::new(),
            optional_relation: None,
        }
    );
    let s = s.subject_id("alice").relation("member");
    let wire_s = proto::SubjectFilter {
        subject_type: "user".to_string(),
        optional_subject_id: "alice".to_string(),
        optional_relation: Some(proto::RelationFilter { relation: "member".to_string() }),
    };
    assert_eq!(s.to_proto(), wire_s);
    let f = RelationshipFilter::new("document").resource_id("doc-1").subject_filter(s);
    assert_eq!(
        f.to_proto(),
        proto::RelationshipFilter {
            resource_type: "document".to_string(),
            optional_resource_id: "doc-1".to_string(),
            optional_resource_id_prefix: String::new(),
            optional_relation: String::new(),
            optional_subject_filter: Some(wire_s),
        }
    );
}

#[test]
fn read_relationship_result_decodes() {
    let wire = proto::ReadRelationshipsResponse {
        read_at: Some(proto::ZedToken { token: "rev-5".to_string() }),
        relationship: Some(wire_sample()),
        after_result_cursor: None,
    };
    let r = ReadRelationshipResult::from_proto(wire).ok().unwrap();
    assert_eq!(r.relationship, sample());
    assert_eq!(r.read_at.token(), "rev-5");
}

#[test]
fn read_relationship_result_failures() {
    let wire = proto::ReadRelationshipsResponse {
        read_at: None,
        relationship: None,
        after_result_cursor: None,
    };
    assert_eq!(
        ReadRelationshipResult::from_proto(wire).err().unwrap(),
        Error::Serialization("missing relationship".to_string())
    );
    let wire = proto::ReadRelationshipsResponse {
        read_at: None,
        relationship: Some(wire_sample()),
        after_result_cursor: None,
    };
    assert_eq!(
        ReadRelationshipResult::from_proto(wire).err().unwrap(),
        Error::Serialization("missing read_at token".to_string())
    );
}

#[test]
fn watch_event_decodes() {
    let wire = proto::WatchResponse {
        updates: vec![
            proto::RelationshipUpdate { operation: 1, relationship: Some(wire_sample()) },
            proto::RelationshipUpdate { operation: 3, relationship: Some(wire_sample()) },
        ],
        changes_through: Some(proto::ZedToken { token: "rev-9".to_string() }),
    };
    let event = WatchEvent::from_proto(wire).ok().unwrap();
    assert_eq!(
        event.updates,
        vec![RelationshipUpdate::create(sample()), RelationshipUpdate::delete(sample())]
    );
    assert_eq!(event.checkpoint.token(), "rev-9");
}

#[test]
fn watch_event_failures() {
    let wire = proto::WatchResponse {
        updates: vec![proto::RelationshipUpdate { operation: 9, relationship: None }],
        changes_through: None,
    };
    assert_eq!(
        WatchEvent::from_proto(wire).err().unwrap(),
        Error::Serialization("missing changes_through token".to_string())
    );
    let wire = proto::WatchResponse {
        updates: vec![
            proto::RelationshipUpdate { operation: 1, relationship: Some(wire_sample()) },
            proto::RelationshipUpdate { operation: 9, relationship: None },
            proto::RelationshipUpdate { operation: 1, relationship: None },
        ],
        changes_through: Some(proto::ZedToken { token: "rev-9".to_string() }),
    };
    assert_eq!(
        WatchEvent::from_proto(wire).err().unwrap(),
        Error::Serialization("unknown operation: 9".to_string())
    );
}
