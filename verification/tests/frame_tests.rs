use seersdk_rs::error::error_for_kind;
use seersdk_rs::{RbkError, RbkFrame, RbkRequestResult, RbkResultKind};

#[test]
fn test_error_for_each_failure_kind() {
    assert!(error_for_kind(RbkResultKind::Success, 1007, None).is_none());
    assert!(matches!(
        error_for_kind(RbkResultKind::Timeout, 1007, None),
        Some(RbkError::Timeout)
    ));
    assert!(matches!(
        error_for_kind(RbkResultKind::Disposed, 1007, None),
        Some(RbkError::Disposed)
    ));
    assert!(matches!(
        error_for_kind(RbkResultKind::NoSuchRobot, 1007, None),
        Some(RbkError::NoSuchRobot)
    ));
    assert!(matches!(
        error_for_kind(RbkResultKind::BadApiNo, 70000, None),
        Some(RbkError::BadApiNo(70000))
    ));
    match error_for_kind(
        RbkResultKind::ConnectFail,
        1007,
        Some("refused".to_string()),
    ) {
        Some(RbkError::ConnectionFailed(m)) => assert_eq!(m, "refused"),
        other => panic!("wrong mapping: {:?}", other),
    }
    match error_for_kind(RbkResultKind::WriteError, 1007, Some("broken pipe".to_string())) {
        Some(RbkError::WriteError(m)) => assert_eq!(m, "broken pipe"),
        other => panic!("wrong mapping: {:?}", other),
    }
    match error_for_kind(RbkResultKind::Interrupted, 1007, None) {
        Some(RbkError::WriteError(m)) => assert_eq!(m, ""),
        other => panic!("wrong mapping: {:?}", other),
    }
}

#[test]
fn test_frame_new_keeps_fields() {
    let frame = RbkFrame::new(42, 1007, "{\"x\":1}".to_string());
    assert_eq!(frame.flow_no, 42);
    assert_eq!(frame.api_no, 1007);
    assert_eq!(frame.body_str, "{\"x\":1}");
}

#[test]
fn test_request_result_builders() {
    let r = RbkRequestResult::new(
        RbkResultKind::Success,
        "robot".to_string(),
        1007,
        "".to_string(),
    );
    assert_eq!(r.kind, RbkResultKind::Success);
    assert_eq!(r.host, "robot");
    assert_eq!(r.api_no, 1007);
    assert_eq!(r.req_str, "");
    assert!(r.res_str.is_none());
    assert!(r.err_msg.is_none());

    let with_response = r.clone().with_response("{\"battery\":0.8}".to_string());
    assert_eq!(with_response.res_str.as_deref(), Some("{\"battery\":0.8}"));
    assert!(with_response.err_msg.is_none());

    let with_error = r.with_error("boom".to_string());
    assert_eq!(with_error.err_msg.as_deref(), Some("boom"));
    assert!(with_error.res_str.is_none());
}
