//! Whole exchanges with the service, request by request. No server runs:
//! each answer is the wire message a server would send.

use prescience::client::schema::{decode_read_schema, decode_write_schema, write_schema_request};
use prescience::client::stream::{
    lookup_resources_step, lookup_subjects_step, read_relationships_step, watch_step,
};
use prescience::client::{
    CheckPermissionRequest, DeleteRelationshipsRequest, LookupResourcesRequest,
    LookupSubjectsRequest, ReadRelationshipsRequest, StreamEvent, WatchRequest,
    WriteRelationshipsRequest,
};
use prescience::proto;
use prescience::{
    Consistency, ObjectReference, PermissionResult, Relationship, RelationshipFilter,
    RelationshipUpdate, SubjectReference, ZedToken,
};

const TEST_SCHEMA: &str = r#"
definition user {}

definition document {
    relation viewer: user
    relation editor: user

    permission view = viewer + editor
    permission edit = editor
}
"#;

fn document(id: &str) -> ObjectReference {
    ObjectReference::new("document", id).unwrap()
}

fn user(id: &str) -> SubjectReference {
    SubjectReference::new(ObjectReference::new("user", id).unwrap(), None).unwrap()
}

fn revision(token: &str) -> Option<proto::ZedToken> {
    Some(proto::ZedToken { token: token.to_string() })
}

/// Sends a write and hands back the token of the canned answer.
fn write(updates: Vec<RelationshipUpdate>, answer: &str) -> ZedToken {
    let request = WriteRelationshipsRequest::new(updates).into_request().unwrap();
    assert!(!request.updates.is_empty());
    WriteRelationshipsRequest::decode(proto::WriteRelationshipsResponse {
        written_at: revision(answer),
    })
    .ok()
    .expect("write_relationships failed")
}

#[test]
fn write_and_read_schema() {
    let request = write_schema_request(TEST_SCHEMA).expect("write_schema failed");
    assert_eq!(request.schema, TEST_SCHEMA);
    let written_at =
        decode_write_schema(proto::WriteSchemaResponse { written_at: revision("schema-1") })
            .ok()
            .expect("write_schema failed");
    assert!(!written_at.token().is_empty());

    let (schema_text, read_at) = decode_read_schema(proto::ReadSchemaResponse {
        schema_text: request.schema,
        read_at: revision("schema-1"),
    })
    .ok()
    .expect("read_schema failed");
    assert!(schema_text.contains("definition document"));
    assert!(!read_at.token().is_empty());
}

#[test]
fn write_and_check_permission() {
    let token = write(
        vec![RelationshipUpdate::create(Relationship::new(
            document("doc-1"),
            "viewer",
            user("alice"),
        ))],
        "rev-1",
    );

    // Check: alice should have view on doc-1
    let request = CheckPermissionRequest::new(&document("doc-1"), "view", &user("alice"))
        .consistency(Consistency::AtLeastAsFresh(token.clone()))
        .into_request();
    assert_eq!(request.permission, "view");
    assert_eq!(
        request.consistency,
        Some(proto::Consistency {
            requirement: Some(proto::Requirement::AtLeastAsFresh(proto::ZedToken {
                token: "rev-1".to_string()
            }))
        })
    );
    let result = CheckPermissionRequest::decode(proto::CheckPermissionResponse {
        checked_at: revision("rev-1"),
        permissionship: proto::base::PERMISSIONSHIP_HAS_PERMISSION,
        partial_caveat_info: None,
    })
    .expect("check_permission failed");
    assert!(result.is_allowed().unwrap());
    assert_eq!(result, PermissionResult::Allowed);

    // Check: alice should NOT have edit on doc-1
    let request = CheckPermissionRequest::new(&document("doc-1"), "edit", &user("alice"))
        .consistency(Consistency::AtLeastAsFresh(token))
        .into_request();
    assert_eq!(request.permission, "edit");
    let result = CheckPermissionRequest::decode(proto::CheckPermissionResponse {
        checked_at: revision("rev-1"),
        permissionship: proto::base::PERMISSIONSHIP_NO_PERMISSION,
        partial_caveat_info: None,
    })
    .expect("check_permission failed");
    assert!(!result.is_allowed().unwrap());
    assert_eq!(result, PermissionResult::Denied);
}

#[test]
fn read_relationships() {
    let written = vec![
        Relationship::new(document("doc-read-1"), "viewer", user("bob")),
        Relationship::new(document("doc-read-1"), "editor", user("carol")),
    ];
    let token = write(written.iter().cloned().map(RelationshipUpdate::create).collect(), "rev-2");

    let request =
        ReadRelationshipsRequest::new(RelationshipFilter::new("document").resource_id("doc-read-1"))
            .consistency(Consistency::AtLeastAsFresh(token))
            .into_request();
    let filter = request.relationship_filter.unwrap();
    assert_eq!(filter.resource_type, "document");
    assert_eq!(filter.optional_resource_id, "doc-read-1");

    let mut rels = Vec::new();
    for relationship in &written {
        let step = read_relationships_step(StreamEvent::Message(
            proto::ReadRelationshipsResponse {
                read_at: revision("rev-2"),
                relationship: Some(relationship.to_proto()),
                after_result_cursor: None,
            },
        ));
        assert!(!step.done);
        for item in step.items {
            rels.push(item.ok().expect("stream item error"));
        }
    }
    assert_eq!(rels.len(), 2);
    let relations: Vec<&str> = rels.iter().map(|r| r.relationship.relation.as_str()).collect();
    assert!(relations.contains(&"viewer"));
    assert!(relations.contains(&"editor"));
}

#[test]
fn lookup_resources() {
    let token = write(
        vec![
            RelationshipUpdate::create(Relationship::new(
                document("doc-lr-1"),
                "viewer",
                user("dave"),
            )),
            RelationshipUpdate::create(Relationship::new(
                document("doc-lr-2"),
                "editor",
                user("dave"),
            )),
        ],
        "rev-3",
    );
    let request = LookupResourcesRequest::new("document", "view", &user("dave"))
        .consistency(Consistency::AtLeastAsFresh(token))
        .into_request();
    assert_eq!(request.resource_object_type, "document");
    assert_eq!(request.permission, "view");

    let mut ids = Vec::new();
    for id in ["doc-lr-1", "doc-lr-2"] {
        let step = lookup_resources_step(StreamEvent::Message(proto::LookupResourcesResponse {
            looked_up_at: revision("rev-3"),
            resource_object_id: id.to_string(),
            permissionship: proto::base::LOOKUP_HAS_PERMISSION,
            partial_caveat_info: None,
            after_result_cursor: None,
        }));
        for item in step.items {
            ids.push(item.ok().expect("stream item error").resource_id);
        }
    }
    assert!(ids.contains(&"doc-lr-1".to_string()));
    assert!(ids.contains(&"doc-lr-2".to_string()));
}

#[test]
fn lookup_subjects() {
    let token = write(
        vec![
            RelationshipUpdate::create(Relationship::new(
                document("doc-ls-1"),
                "viewer",
                user("eve"),
            )),
            RelationshipUpdate::create(Relationship::new(
                document("doc-ls-1"),
                "viewer",
                user("frank"),
            )),
        ],
        "rev-4",
    );
    let request = LookupSubjectsRequest::new(&document("doc-ls-1"), "view", "user")
        .consistency(Consistency::AtLeastAsFresh(token))
        .into_request();
    assert_eq!(request.subject_object_type, "user");

    let mut ids = Vec::new();
    for id in ["eve", "frank"] {
        let step = lookup_subjects_step(StreamEvent::Message(proto::LookupSubjectsResponse {
            looked_up_at: revision("rev-4"),
            subject_object_id: String::new(),
            excluded_subject_ids: vec![],
            permissionship: 0,
            partial_caveat_info: None,
            subject: Some(proto::ResolvedSubject {
                subject_object_id: id.to_string(),
                permissionship: proto::base::LOOKUP_HAS_PERMISSION,
                partial_caveat_info: None,
            }),
            excluded_subjects: vec![],
            after_result_cursor: None,
        }));
        for item in step.items {
            ids.push(item.ok().expect("stream item error").subject_id);
        }
    }
    assert!(ids.contains(&"eve".to_string()));
    assert!(ids.contains(&"frank".to_string()));
}

#[test]
fn delete_relationships() {
    let token = write(
        vec![RelationshipUpdate::create(Relationship::new(
            document("doc-del-1"),
            "viewer",
            user("grace"),
        ))],
        "rev-5",
    );
    let check = |permissionship: i32, at: ZedToken| {
        let request = CheckPermissionRequest::new(&document("doc-del-1"), "view", &user("grace"))
            .consistency(Consistency::AtLeastAsFresh(at))
            .into_request();
        assert_eq!(request.resource.unwrap().object_id, "doc-del-1");
        CheckPermissionRequest::decode(proto::CheckPermissionResponse {
            checked_at: None,
            permissionship,
            partial_caveat_info: None,
        })
        .unwrap()
    };
    // Before the delete the permission is held.
    assert_eq!(check(2, token), PermissionResult::Allowed);

    let request =
        DeleteRelationshipsRequest::new(RelationshipFilter::new("document").resource_id("doc-del-1"))
            .into_request();
    assert_eq!(request.relationship_filter.unwrap().optional_resource_id, "doc-del-1");
    let deleted_at = DeleteRelationshipsRequest::decode(proto::DeleteRelationshipsResponse {
        deleted_at: revision("rev-6"),
        deletion_progress: 1,
        relationships_deleted_count: 1,
    })
    .ok()
    .unwrap();

    // After it the permission is gone.
    assert_eq!(check(1, deleted_at), PermissionResult::Denied);
}

#[test]
fn watch_receives_updates() {
    let request = WatchRequest::new(vec!["document".to_string()]).into_request();
    assert_eq!(request.optional_object_types, vec!["document".to_string()]);
    assert_eq!(request.optional_start_cursor, None);

    let update = RelationshipUpdate::create(Relationship::new(
        document("doc-watch-1"),
        "viewer",
        user("hal"),
    ));
    write(vec![update.clone()], "rev-7");

    let step = watch_step(StreamEvent::Message(proto::WatchResponse {
        updates: vec![update.to_proto()],
        changes_through: revision("rev-7"),
    }));
    assert!(!step.done);
    let event =
        step.items.into_iter().next().expect("stream ended").ok().expect("watch event error");
    assert!(!event.updates.is_empty());
    assert_eq!(event.updates, vec![update]);

    // The watch is resumed from the checkpoint of the last event.
    let resumed = WatchRequest::new(vec!["document".to_string()])
        .after_token(event.checkpoint)
        .into_request();
    assert_eq!(resumed.optional_start_cursor, revision("rev-7"));
}
