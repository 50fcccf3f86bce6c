use seersdk_rs::{BlockReason, ErrorCode, JackOperation, StatusCode, TaskState, TaskType};

#[test]
fn test_status_code_values() {
    assert_eq!(StatusCode::Success.as_u32(), 0);
    assert_eq!(StatusCode::ParamMissing.as_u32(), 40001);
    assert_eq!(StatusCode::RobotBusy.as_u32(), 40102);
    assert_eq!(StatusCode::RelocStatusError.as_u32(), 41002);
    assert_eq!(StatusCode::from_u32(0), StatusCode::Success);
    assert_eq!(StatusCode::from_u32(40001), StatusCode::ParamMissing);
    assert_eq!(StatusCode::from_u32(40000), StatusCode::Unavailable);
    // Every unlisted number decodes to Custom instead of failing.
    assert_eq!(StatusCode::from_u32(99999), StatusCode::Custom);
    assert_eq!(StatusCode::from_u32(1), StatusCode::Custom);
}

#[test]
fn test_error_code_values() {
    assert_eq!(ErrorCode::Unavailable.as_u32(), 40000);
    assert_eq!(ErrorCode::ParamMissing.as_u32(), 40001);
    assert_eq!(ErrorCode::ReqTimeout.as_u32(), 40100);
    assert_eq!(ErrorCode::RelocStatusError.as_u32(), 41002);
    assert_eq!(ErrorCode::from_u32(40001), Some(ErrorCode::ParamMissing));
    assert_eq!(ErrorCode::from_u32(41002), Some(ErrorCode::RelocStatusError));
    // The strict catalogue rejects unlisted numbers.
    assert_eq!(ErrorCode::from_u32(0), None);
    assert_eq!(ErrorCode::from_u32(99999), None);
}

#[test]
fn test_error_code_round_trip_all() {
    let all = [
        ErrorCode::Unavailable,
        ErrorCode::ParamMissing,
        ErrorCode::ParamTypeError,
        ErrorCode::ParamIllegal,
        ErrorCode::ModeError,
        ErrorCode::IllegalMapName,
        ErrorCode::ProgrammingDsp,
        ErrorCode::ProgramDspError,
        ErrorCode::ShutdownError,
        ErrorCode::RebootError,
        ErrorCode::MapParseError,
        ErrorCode::MapNotExists,
        ErrorCode::LoadMapError,
        ErrorCode::LoadMapobjError,
        ErrorCode::EmptyMap,
        ErrorCode::ReqTimeout,
        ErrorCode::ReqForbidden,
        ErrorCode::RobotBusy,
        ErrorCode::RobotInternalError,
        ErrorCode::InitStatusError,
        ErrorCode::LoadmapStatusError,
        ErrorCode::RelocStatusError,
    ];
    for code in all {
        assert_eq!(ErrorCode::from_u32(code.as_u32()), Some(code));
    }
}

#[test]
fn test_block_reason_values() {
    assert_eq!(BlockReason::from_u8(1), BlockReason::Laser);
    assert_eq!(BlockReason::from_u8(2), BlockReason::Fallingdown);
    assert_eq!(BlockReason::from_u8(3), BlockReason::Collision);
    assert_eq!(BlockReason::from_u8(4), BlockReason::Infrared);
    assert_eq!(BlockReason::from_u8(0), BlockReason::Custom);
    assert_eq!(BlockReason::from_u8(200), BlockReason::Custom);
    assert_eq!(BlockReason::Collision.as_u8(), 3);
}

#[test]
fn test_jack_operation_values() {
    assert_eq!(JackOperation::from_u32(0), JackOperation::Rising);
    assert_eq!(JackOperation::from_u32(3), JackOperation::LoweringInPlace);
    assert_eq!(JackOperation::from_u32(4), JackOperation::Stop);
    assert_eq!(JackOperation::from_u32(0xFF), JackOperation::Failed);
    assert_eq!(JackOperation::from_u32(12), JackOperation::Failed);
    assert_eq!(JackOperation::Failed.as_u32(), 0xFF);
}

#[test]
fn test_task_type_values() {
    assert_eq!(TaskType::from_u32(0), TaskType::NoNav);
    assert_eq!(TaskType::from_u32(3), TaskType::PathNavToSite);
    assert_eq!(TaskType::from_u32(7), TaskType::Manual);
    assert_eq!(TaskType::from_u32(4), TaskType::Other);
    assert_eq!(TaskType::Other.as_u32(), 100);
}

#[test]
fn test_task_state_values() {
    assert_eq!(TaskState::from_u32(0), TaskState::Idle);
    assert_eq!(TaskState::from_u32(2), TaskState::Running);
    assert_eq!(TaskState::from_u32(4), TaskState::Completed);
    assert_eq!(TaskState::from_u32(404), TaskState::NotFound);
    assert_eq!(TaskState::from_u32(9), TaskState::Idle);
    assert_eq!(TaskState::NotFound.as_u32(), 404);
}
