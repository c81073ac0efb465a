use prescience::{Code, Error, SpiceDbErrorDetails};

fn all_codes() -> Vec<Code> {
    vec![
        Code::Okay,
        Code::Cancelled,
        Code::Unknown,
        Code::InvalidArgument,
        Code::DeadlineExceeded,
        Code::NotFound,
        Code::AlreadyExists,
        Code::PermissionDenied,
        Code::ResourceExhausted,
        Code::FailedPrecondition,
        Code::Aborted,
        Code::OutOfRange,
        Code::Unimplemented,
        Code::Internal,
        Code::Unavailable,
        Code::DataLoss,
        Code::Unauthenticated,
    ]
}

#[test]
fn retryable_statuses() {
    for code in all_codes() {
        let e = Error::from_status(code, "m".to_string());
        let expected = code == Code::Unavailable || code == Code::DeadlineExceeded;
        assert_eq!(e.is_retryable(), expected, "{:?}", code);
        assert_eq!(e.code(), Some(code));
    }
}

#[test]
fn other_errors_are_not_retryable() {
    let errors = vec![
        Error::Transport("connection refused".to_string()),
        Error::InvalidArgument("x".to_string()),
        Error::Serialization("y".to_string()),
        Error::ConditionalPermission { missing_fields: vec!["ip".to_string()] },
    ];
    for e in errors {
        assert!(!e.is_retryable());
        assert_eq!(e.code(), None);
    }
}

#[test]
fn from_status_keeps_code_and_message() {
    assert_eq!(
        Error::from_status(Code::PermissionDenied, "no".to_string()),
        Error::Status { code: Code::PermissionDenied, message: "no".to_string(), details: None }
    );
    let with_details = Error::Status {
        code: Code::Unavailable,
        message: "later".to_string(),
        details: Some(SpiceDbErrorDetails {
            error_reason: Some("ERROR_REASON_X".to_string()),
            debug_message: None,
            retry_info: Some(std::time::Duration::from_millis(250)),
        }),
    };
    assert!(with_details.is_retryable());
    assert_eq!(with_details.code(), Some(Code::Unavailable));
}

#[test]
fn codes_and_numbers() {
    for (n, code) in all_codes().into_iter().enumerate() {
        assert_eq!(Code::from_i32(n as i32), code);
        assert_eq!(code.to_i32(), n as i32);
    }
    assert_eq!(Code::from_i32(17), Code::Unknown);
    assert_eq!(Code::from_i32(99), Code::Unknown);
    assert_eq!(Code::from_i32(-1), Code::Unknown);
    assert_eq!(Code::from_i32(i32::MAX), Code::Unknown);
    assert_eq!(Code::from_i32(i32::MIN), Code::Unknown);
}

#[test]
fn message_constructors() {
    assert_eq!(Error::invalid_argument("bad"), Error::InvalidArgument("bad".to_string()));
    assert_eq!(Error::serialization("worse"), Error::Serialization("worse".to_string()));
}
