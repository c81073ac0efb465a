use prescience::proto;
use prescience::{
    Error, LookupResourceResult, LookupSubjectResult, ObjectReference, PermissionResult,
    PermissionTree, PermissionTreeNode, SubjectReference, ZedToken,
};

fn wire_subject(id: &str) -> proto::SubjectReference {
    proto::SubjectReference {
        object: Some(proto::ObjectReference {
            object_type: "user".to_string(),
            object_id: id.to_string(),
        }),
        optional_relation: String::new(),
    }
}

fn subject(id: &str) -> SubjectReference {
    SubjectReference::new(ObjectReference::new("user", id).unwrap(), None).unwrap()
}

fn wire_leaf(ids: &[&str]) -> proto::PermissionRelationshipTree {
    proto::PermissionRelationshipTree {
        tree_type: Some(proto::TreeType::Leaf(proto::DirectSubjectSet {
            subjects: ids.iter().map(|id| wire_subject(id)).collect(),
        })),
        expanded_object: None,
        expanded_relation: String::new(),
    }
}

fn leaf(ids: &[&str]) -> PermissionTreeNode {
    PermissionTreeNode::Leaf { subjects: ids.iter().map(|id| subject(id)).collect() }
}

fn intermediate(
    operation: i32,
    children: Vec<proto::PermissionRelationshipTree>,
) -> Option<proto::TreeType> {
    Some(proto::TreeType::Intermediate(proto::AlgebraicSubjectSet { operation, children }))
}

#[test]
fn permission_result_allowed() {
    let r = PermissionResult::Allowed;
    assert_eq!(r.is_allowed().unwrap(), true);
    assert!(!r.is_denied());
    assert!(!r.is_conditional());
}

#[test]
fn permission_result_denied() {
    let r = PermissionResult::Denied;
    assert_eq!(r.is_allowed().unwrap(), false);
    assert!(r.is_denied());
    assert!(!r.is_conditional());
}

#[test]
fn permission_result_conditional() {
    let r = PermissionResult::Conditional { missing_fields: vec!["ip_address".into()] };
    let err = r.is_allowed().unwrap_err();
    assert!(matches!(err, Error::ConditionalPermission { .. }));
    assert!(!r.is_denied());
    assert!(r.is_conditional());
}

#[test]
fn conditional_error_names_missing_fields() {
    let r = PermissionResult::Conditional {
        missing_fields: vec!["ip_address".into(), "time".into()],
    };
    assert_eq!(
        r.is_allowed().unwrap_err(),
        Error::ConditionalPermission {
            missing_fields: vec!["ip_address".to_string(), "time".to_string()]
        }
    );
}

#[test]
fn from_check_response_allowed() {
    let r = PermissionResult::from_check_response(2, None).unwrap();
    assert_eq!(r, PermissionResult::Allowed);
}

#[test]
fn from_check_response_denied() {
    let r = PermissionResult::from_check_response(1, None).unwrap();
    assert_eq!(r, PermissionResult::Denied);
}

#[test]
fn from_check_response_conditional() {
    let info = proto::PartialCaveatInfo { missing_required_context: vec!["field1".into()] };
    let r = PermissionResult::from_check_response(3, Some(info)).unwrap();
    assert_eq!(r, PermissionResult::Conditional { missing_fields: vec!["field1".into()] });
}

#[test]
fn from_check_response_conditional_with_ip() {
    let info = proto::PartialCaveatInfo { missing_required_context: vec!["ip".into()] };
    assert_eq!(
        PermissionResult::from_check_response(3, Some(info)).unwrap(),
        PermissionResult::Conditional { missing_fields: vec!["ip".to_string()] }
    );
}

#[test]
fn from_check_response_conditional_without_side_channel() {
    assert_eq!(
        PermissionResult::from_check_response(3, None).unwrap(),
        PermissionResult::Conditional { missing_fields: vec![] }
    );
}

#[test]
fn from_check_response_unknown_indicator() {
    assert_eq!(
        PermissionResult::from_check_response(0, None).unwrap_err(),
        Error::Serialization("unknown permissionship: 0".to_string())
    );
    assert_eq!(
        PermissionResult::from_check_response(4, None).unwrap_err(),
        Error::Serialization("unknown permissionship: 4".to_string())
    );
    assert_eq!(
        PermissionResult::from_check_response(-17, None).unwrap_err(),
        Error::Serialization("unknown permissionship: -17".to_string())
    );
    assert_eq!(
        PermissionResult::from_check_response(i32::MAX, None).unwrap_err(),
        Error::Serialization("unknown permissionship: 2147483647".to_string())
    );
    assert_eq!(
        PermissionResult::from_check_response(i32::MIN, None).unwrap_err(),
        Error::Serialization("unknown permissionship: -2147483648".to_string())
    );
}

#[test]
fn from_lookup_permissionship_table() {
    assert_eq!(
        PermissionResult::from_lookup_permissionship(1, None).unwrap(),
        PermissionResult::Allowed
    );
    let info = proto::PartialCaveatInfo { missing_required_context: vec!["ip".into()] };
    assert_eq!(
        PermissionResult::from_lookup_permissionship(2, Some(info)).unwrap(),
        PermissionResult::Conditional { missing_fields: vec!["ip".to_string()] }
    );
    assert_eq!(
        PermissionResult::from_lookup_permissionship(2, None).unwrap(),
        PermissionResult::Conditional { missing_fields: vec![] }
    );
    assert_eq!(
        PermissionResult::from_lookup_permissionship(3, None).unwrap_err(),
        Error::Serialization("unknown lookup permissionship: 3".to_string())
    );
    assert_eq!(
        PermissionResult::from_lookup_permissionship(0, None).unwrap_err(),
        Error::Serialization("unknown lookup permissionship: 0".to_string())
    );
}

#[test]
fn lookup_resource_result_decodes() {
    let wire = proto::LookupResourcesResponse {
        looked_up_at: Some(proto::ZedToken { token: "rev-1".to_string() }),
        resource_object_id: "doc-1".to_string(),
        permissionship: 1,
        partial_caveat_info: None,
        after_result_cursor: None,
    };
    let r = LookupResourceResult::from_proto(wire).ok().unwrap();
    assert_eq!(r.resource_id, "doc-1");
    assert_eq!(r.permission, PermissionResult::Allowed);
    assert!(r.looked_up_at == ZedToken::new("rev-1").unwrap());
}

#[test]
fn lookup_resource_result_failures() {
    let wire = proto::LookupResourcesResponse {
        looked_up_at: None,
        resource_object_id: "doc-1".to_string(),
        permissionship: 1,
        partial_caveat_info: None,
        after_result_cursor: None,
    };
    assert_eq!(
        LookupResourceResult::from_proto(wire).err().unwrap(),
        Error::Serialization("missing looked_up_at".to_string())
    );
    // The indicator is read before the token.
    let wire = proto::LookupResourcesResponse {
        looked_up_at: None,
        resource_object_id: "doc-1".to_string(),
        permissionship: 9,
        partial_caveat_info: None,
        after_result_cursor: None,
    };
    assert_eq!(
        LookupResourceResult::from_proto(wire).err().unwrap(),
        Error::Serialization("unknown lookup permissionship: 9".to_string())
    );
    let wire = proto::LookupResourcesResponse {
        looked_up_at: Some(proto::ZedToken { token: String::new() }),
        resource_object_id: "doc-1".to_string(),
        permissionship: 2,
        partial_caveat_info: None,
        after_result_cursor: None,
    };
    assert_eq!(
        LookupResourceResult::from_proto(wire).err().unwrap(),
        Error::Serialization("ZedToken must not be empty".to_string())
    );
}

#[test]
fn lookup_subject_result_reads_resolved_subject() {
    let wire = proto::LookupSubjectsResponse {
        looked_up_at: Some(proto::ZedToken { token: "rev-2".to_string() }),
        subject_object_id: "old".to_string(),
        excluded_subject_ids: vec!["old-excluded".to_string()],
        permissionship: 9,
        partial_caveat_info: None,
        subject: Some(proto::ResolvedSubject {
            subject_object_id: "*".to_string(),
            permissionship: 2,
            partial_caveat_info: Some(proto::PartialCaveatInfo {
                missing_required_context: vec!["ip".to_string()],
            }),
        }),
        excluded_subjects: vec![
            proto::ResolvedSubject {
                subject_object_id: "eve".to_string(),
                permissionship: 1,
                partial_caveat_info: None,
            },
            proto::ResolvedSubject {
                subject_object_id: "mallory".to_string(),
                permissionship: 77,
                partial_caveat_info: None,
            },
        ],
        after_result_cursor: None,
    };
    let r = LookupSubjectResult::from_proto(wire).ok().unwrap();
    assert_eq!(r.subject_id, "*");
    assert_eq!(r.excluded_subject_ids, vec!["eve".to_string(), "mallory".to_string()]);
    assert_eq!(r.permission, PermissionResult::Conditional { missing_fields: vec!["ip".into()] });
    assert_eq!(r.looked_up_at.token(), "rev-2");
}

#[test]
fn lookup_subject_result_falls_back_to_older_fields() {
    let wire = proto::LookupSubjectsResponse {
        looked_up_at: Some(proto::ZedToken { token: "rev-3".to_string() }),
        subject_object_id: "frank".to_string(),
        excluded_subject_ids: vec!["x".to_string()],
        permissionship: 1,
        partial_caveat_info: None,
        subject: None,
        excluded_subjects: vec![proto::ResolvedSubject {
            subject_object_id: "ignored".to_string(),
            permissionship: 1,
            partial_caveat_info: None,
        }],
        after_result_cursor: None,
    };
    let r = LookupSubjectResult::from_proto(wire).ok().unwrap();
    assert_eq!(r.subject_id, "frank");
    assert_eq!(r.excluded_subject_ids, vec!["x".to_string()]);
    assert_eq!(r.permission, PermissionResult::Allowed);
    assert_eq!(r.looked_up_at.token(), "rev-3");
}

#[test]
fn lookup_subject_result_failures() {
    let wire = proto::LookupSubjectsResponse {
        looked_up_at: None,
        subject_object_id: "frank".to_string(),
        excluded_subject_ids: vec![],
        permissionship: 5,
        partial_caveat_info: None,
        subject: None,
        excluded_subjects: vec![],
        after_result_cursor: None,
    };
    // The token is read before the indicator.
    assert_eq!(
        LookupSubjectResult::from_proto(wire).err().unwrap(),
        Error::Serialization("missing looked_up_at".to_string())
    );
    let wire = proto::LookupSubjectsResponse {
        looked_up_at: Some(proto::ZedToken { token: "rev".to_string() }),
        subject_object_id: "frank".to_string(),
        excluded_subject_ids: vec![],
        permissionship: 5,
        partial_caveat_info: None,
        subject: None,
        excluded_subjects: vec![],
        after_result_cursor: None,
    };
    assert_eq!(
        LookupSubjectResult::from_proto(wire).err().unwrap(),
        Error::Serialization("unknown lookup permissionship: 5".to_string())
    );
    let wire = proto::LookupSubjectsResponse {
        looked_up_at: Some(proto::ZedToken { token: "rev".to_string() }),
        subject_object_id: "frank".to_string(),
        excluded_subject_ids: vec![],
        permissionship: 1,
        partial_caveat_info: None,
        subject: Some(proto::ResolvedSubject {
            subject_object_id: "frank".to_string(),
            permissionship: 0,
            partial_caveat_info: None,
        }),
        excluded_subjects: vec![],
        after_result_cursor: None,
    };
    assert_eq!(
        LookupSubjectResult::from_proto(wire).err().unwrap(),
        Error::Serialization("unknown lookup permissionship: 0".to_string())
    );
}

#[test]
fn tree_leaf_decodes_subjects_in_order() {
    let node = PermissionTreeNode::from_proto_tree(wire_leaf(&["alice", "bob"]).tree_type).unwrap();
    assert_eq!(node, leaf(&["alice", "bob"]));
    let node = PermissionTreeNode::from_proto_tree(wire_leaf(&[]).tree_type).unwrap();
    assert_eq!(node, PermissionTreeNode::Leaf { subjects: vec![] });
}

#[test]
fn tree_union_and_intersection() {
    let node = PermissionTreeNode::from_proto_tree(intermediate(
        1,
        vec![wire_leaf(&["a"]), wire_leaf(&["b"]), wire_leaf(&["c"])],
    ))
    .unwrap();
    assert_eq!(
        node,
        PermissionTreeNode::Union { children: vec![leaf(&["a"]), leaf(&["b"]), leaf(&["c"])] }
    );
    let node = PermissionTreeNode::from_proto_tree(intermediate(2, vec![])).unwrap();
    assert_eq!(node, PermissionTreeNode::Intersection { children: vec![] });
}

#[test]
fn tree_exclusion_with_two_children() {
    let node = PermissionTreeNode::from_proto_tree(intermediate(
        3,
        vec![wire_leaf(&["base"]), wire_leaf(&["excluded"])],
    ))
    .unwrap();
    assert_eq!(
        node,
        PermissionTreeNode::Exclusion {
            base: Box::new(leaf(&["base"])),
            excluded: Box::new(leaf(&["excluded"])),
        }
    );
}

#[test]
fn tree_exclusion_with_wrong_arity() {
    assert_eq!(
        PermissionTreeNode::from_proto_tree(intermediate(3, vec![wire_leaf(&["a"])])).unwrap_err(),
        Error::Serialization("exclusion requires exactly 2 children, got 1".to_string())
    );
    assert_eq!(
        PermissionTreeNode::from_proto_tree(intermediate(
            3,
            vec![wire_leaf(&["a"]), wire_leaf(&["b"]), wire_leaf(&["c"])]
        ))
        .unwrap_err(),
        Error::Serialization("exclusion requires exactly 2 children, got 3".to_string())
    );
    assert_eq!(
        PermissionTreeNode::from_proto_tree(intermediate(3, vec![])).unwrap_err(),
        Error::Serialization("exclusion requires exactly 2 children, got 0".to_string())
    );
}

#[test]
fn tree_unknown_operation_and_missing_tag() {
    assert_eq!(
        PermissionTreeNode::from_proto_tree(intermediate(7, vec![wire_leaf(&["a"])])).unwrap_err(),
        Error::Serialization("unknown algebraic operation: 7".to_string())
    );
    assert_eq!(
        PermissionTreeNode::from_proto_tree(intermediate(0, vec![])).unwrap_err(),
        Error::Serialization("unknown algebraic operation: 0".to_string())
    );
    assert_eq!(
        PermissionTreeNode::from_proto_tree(None).unwrap_err(),
        Error::Serialization("missing tree type".to_string())
    );
}

#[test]
fn tree_child_failure_comes_before_operation() {
    let untagged = proto::PermissionRelationshipTree {
        tree_type: None,
        expanded_object: None,
        expanded_relation: String::new(),
    };
    assert_eq!(
        PermissionTreeNode::from_proto_tree(intermediate(7, vec![wire_leaf(&["a"]), untagged]))
            .unwrap_err(),
        Error::Serialization("missing tree type".to_string())
    );
    let bad_leaf = proto::PermissionRelationshipTree {
        tree_type: Some(proto::TreeType::Leaf(proto::DirectSubjectSet {
            subjects: vec![
                wire_subject("alice"),
                proto::SubjectReference { object: None, optional_relation: String::new() },
                wire_subject(""),
            ],
        })),
        expanded_object: None,
        expanded_relation: String::new(),
    };
    assert_eq!(
        PermissionTreeNode::from_proto_tree(intermediate(1, vec![bad_leaf])).unwrap_err(),
        Error::Serialization("missing subject object".to_string())
    );
}

#[test]
fn tree_decodes_deep_nesting() {
    let mut wire = wire_leaf(&["root"]);
    let mut expected = leaf(&["root"]);
    for _ in 0..200 {
        wire = proto::PermissionRelationshipTree {
            tree_type: intermediate(1, vec![wire]),
            expanded_object: None,
            expanded_relation: String::new(),
        };
        expected = PermissionTreeNode::Union { children: vec![expected] };
    }
    assert_eq!(PermissionTreeNode::from_proto_tree(wire.tree_type).unwrap(), expected);
}

#[test]
fn permission_tree_decodes() {
    let wire = proto::PermissionRelationshipTree {
        tree_type: intermediate(3, vec![wire_leaf(&["a", "b"]), wire_leaf(&["b"])]),
        expanded_object: Some(proto::ObjectReference {
            object_type: "document".to_string(),
            object_id: "doc-1".to_string(),
        }),
        expanded_relation: "view".to_string(),
    };
    let tree = PermissionTree::from_proto(wire).unwrap();
    assert_eq!(tree.expanded_object, ObjectReference::new("document", "doc-1").unwrap());
    assert_eq!(tree.expanded_relation, "view");
    assert_eq!(
        tree.node,
        PermissionTreeNode::Exclusion {
            base: Box::new(leaf(&["a", "b"])),
            excluded: Box::new(leaf(&["b"])),
        }
    );
}

#[test]
fn permission_tree_failures() {
    let wire = proto::PermissionRelationshipTree {
        tree_type: None,
        expanded_object: None,
        expanded_relation: "view".to_string(),
    };
    assert_eq!(
        PermissionTree::from_proto(wire).unwrap_err(),
        Error::Serialization("missing expanded_object".to_string())
    );
    let wire = proto::PermissionRelationshipTree {
        tree_type: None,
        expanded_object: Some(proto::ObjectReference {
            object_type: "document".to_string(),
            object_id: "doc-1".to_string(),
        }),
        expanded_relation: "view".to_string(),
    };
    assert_eq!(
        PermissionTree::from_proto(wire).unwrap_err(),
        Error::Serialization("missing tree type".to_string())
    );
}

#[test]
fn trees_clone_to_equal_values() {
    let wire = proto::PermissionRelationshipTree {
        tree_type: intermediate(
            3,
            vec![
                proto::PermissionRelationshipTree {
                    tree_type: intermediate(1, vec![wire_leaf(&["a"]), wire_leaf(&["b", "c"])]),
                    expanded_object: None,
                    expanded_relation: "inner".to_string(),
                },
                wire_leaf(&["b"]),
            ],
        ),
        expanded_object: Some(proto::ObjectReference {
            object_type: "document".to_string(),
            object_id: "doc-1".to_string(),
        }),
        expanded_relation: "view".to_string(),
    };
    assert_eq!(wire.clone(), wire);
    assert_eq!(wire.tree_type.clone(), wire.tree_type);
    let tree = PermissionTree::from_proto(wire).unwrap();
    assert_eq!(tree.clone(), tree);
    assert_eq!(tree.node.clone(), tree.node);
    assert_eq!(
        tree.node,
        PermissionTreeNode::Exclusion {
            base: Box::new(PermissionTreeNode::Union {
                children: vec![leaf(&["a"]), leaf(&["b", "c"])]
            }),
            excluded: Box::new(leaf(&["b"])),
        }
    );
}
