use prescience::proto;
use prescience::{Consistency, Error, ZedToken};
use std::collections::HashSet;

#[test]
fn valid_token() {
    let token = ZedToken::new("abc123").unwrap();
    assert_eq!(token.token(), "abc123");
}

#[test]
fn empty_token_rejected() {
    let err = ZedToken::new("").err().unwrap();
    assert!(matches!(err, Error::InvalidArgument(_)));
}

#[test]
fn empty_token_message() {
    assert_eq!(
        ZedToken::new("").err().unwrap(),
        Error::InvalidArgument("ZedToken must not be empty".to_string())
    );
}

#[test]
fn debug_redacts_value() {
    let token = ZedToken::new("secret-token").unwrap();
    let debug = token.debug_string();
    assert!(!debug.contains("secret-token"));
    assert!(debug.contains("***"));
}

#[test]
fn renderings_are_constant() {
    let a = ZedToken::new("secret-token").unwrap();
    let b = ZedToken::new("another").unwrap();
    assert_eq!(a.debug_string(), "ZedToken(\"***\")");
    assert_eq!(a.to_string(), "ZedToken(***)");
    assert_eq!(a.debug_string(), b.debug_string());
    assert_eq!(a.to_string(), b.to_string());
    assert!(!a.to_string().contains("secret-token"));
}

#[test]
fn equality_and_hash() {
    let a = ZedToken::new("tok1").unwrap();
    let b = ZedToken::new("tok1").unwrap();
    let c = ZedToken::new("tok2").unwrap();
    assert!(a == b);
    assert!(a != c);
    let mut set = HashSet::new();
    set.insert(a.clone());
    assert!(set.contains(&b));
}

#[test]
fn proto_roundtrip() {
    let orig = ZedToken::new("test-token").unwrap();
    let proto: proto::ZedToken = orig.to_proto();
    let back: ZedToken = ZedToken::from_proto(proto).ok().unwrap();
    assert!(orig == back);
}

#[test]
fn token_from_proto_rejects_empty() {
    let wire = proto::ZedToken { token: String::new() };
    assert_eq!(
        ZedToken::from_proto(wire).err().unwrap(),
        Error::Serialization("ZedToken must not be empty".to_string())
    );
}

#[test]
fn consistency_wire_forms() {
    let token = ZedToken::new("rev-7").unwrap();
    assert_eq!(
        Consistency::MinimizeLatency.to_proto(),
        proto::Consistency { requirement: Some(proto::Requirement::MinimizeLatency(true)) }
    );
    assert_eq!(
        Consistency::FullyConsistent.to_proto(),
        proto::Consistency { requirement: Some(proto::Requirement::FullyConsistent(true)) }
    );
    assert_eq!(
        Consistency::AtLeastAsFresh(token.clone()).to_proto(),
        proto::Consistency {
            requirement: Some(proto::Requirement::AtLeastAsFresh(proto::ZedToken {
                token: "rev-7".to_string()
            }))
        }
    );
    assert_eq!(
        Consistency::AtExactSnapshot(token).to_proto(),
        proto::Consistency {
            requirement: Some(proto::Requirement::AtExactSnapshot(proto::ZedToken {
                token: "rev-7".to_string()
            }))
        }
    );
}
