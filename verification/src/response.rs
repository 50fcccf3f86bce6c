//! Status and response types shared by the decoded response bodies, with
//! their numeric wire representations.
//!
//! A robot that answered but reported failure does so through the status
//! code inside the body; that is a different failure class from the client
//! errors in `error`, and the two are never conflated.

use vstd::prelude::*;

verus! {

/// The generic response envelope: the robot's status code and message.
#[derive(Debug, Clone)]
pub struct StatusMessage {
    pub code: StatusCode,
    pub message: String,
    pub timestamp: Option<String>,
}

/// Status codes a robot reports inside a response body. Every unlisted
/// number maps to `Custom`, so decoding a code never fails.
#[derive(Debug, Clone, Copy, PartialEq, Eq, Structural)]
pub enum StatusCode {
    /// Success
    Success,
    Unavailable,
    /// The request parameter is missing
    ParamMissing,
    /// The request parameter type is incorrect
    ParamTypeError,
    /// The request parameter is not legal
    ParamIllegal,
    /// Operating mode error
    ModeError,
    /// Illegal map name
    IllegalMapName,
    /// Programming firmware
    ProgrammingDsp,
    /// Programming firmware error
    ProgramDspError,
    /// An error occurred in the shutdown command
    ShutdownError,
    /// An error occurred in the restart command
    RebootError,
    /// Map analysis error
    MapParseError,
    /// The map does not exist
    MapNotExists,
    /// Loading map error
    LoadMapError,
    /// Overload map error
    LoadMapobjError,
    /// Open map
    EmptyMap,
    /// Request execution timeout
    ReqTimeout,
    /// Request is prohibited
    ReqForbidden,
    /// The robot is busy
    RobotBusy,
    /// Internal error
    RobotInternalError,
    /// Initialization status error
    InitStatusError,
    /// Map loading status error
    LoadmapStatusError,
    /// Relocation status error
    RelocStatusError,
    /// Unknown error code
    Custom,
}

/// The numeric value each status code is carried as.
pub open spec fn spec_status_code_value(c: StatusCode) -> u32 {
    match c {
        StatusCode::Success => 0,
        StatusCode::Unavailable => 40000,
        StatusCode::ParamMissing => 40001,
        StatusCode::ParamTypeError => 40002,
        StatusCode::ParamIllegal => 40003,
        StatusCode::ModeError => 40004,
        StatusCode::IllegalMapName => 40005,
        StatusCode::ProgrammingDsp => 40006,
        StatusCode::ProgramDspError => 40007,
        StatusCode::ShutdownError => 40010,
        StatusCode::RebootError => 40011,
        StatusCode::MapParseError => 40050,
        StatusCode::MapNotExists => 40051,
        StatusCode::LoadMapError => 40052,
        StatusCode::LoadMapobjError => 40053,
        StatusCode::EmptyMap => 40054,
        StatusCode::ReqTimeout => 40100,
        StatusCode::ReqForbidden => 40101,
        StatusCode::RobotBusy => 40102,
        StatusCode::RobotInternalError => 40199,
        StatusCode::InitStatusError => 41000,
        StatusCode::LoadmapStatusError => 41001,
        StatusCode::RelocStatusError => 41002,
        StatusCode::Custom => 41003,
    }
}

/// The status code a numeric value decodes to: `Custom` for the unlisted.
pub open spec fn spec_status_code_of(v: u32) -> StatusCode {
    if v == 0 {
        StatusCode::Success
    } else if v == 40000 {
        StatusCode::Unavailable
    } else if v == 40001 {
        StatusCode::ParamMissing
    } else if v == 40002 {
        StatusCode::ParamTypeError
    } else if v == 40003 {
        StatusCode::ParamIllegal
    } else if v == 40004 {
        StatusCode::ModeError
    } else if v == 40005 {
        StatusCode::IllegalMapName
    } else if v == 40006 {
        StatusCode::ProgrammingDsp
    } else if v == 40007 {
        StatusCode::ProgramDspError
    } else if v == 40010 {
        StatusCode::ShutdownError
    } else if v == 40011 {
        StatusCode::RebootError
    } else if v == 40050 {
        StatusCode::MapParseError
    } else if v == 40051 {
        StatusCode::MapNotExists
    } else if v == 40052 {
        StatusCode::LoadMapError
    } else if v == 40053 {
        StatusCode::LoadMapobjError
    } else if v == 40054 {
        StatusCode::EmptyMap
    } else if v == 40100 {
        StatusCode::ReqTimeout
    } else if v == 40101 {
        StatusCode::ReqForbidden
    } else if v == 40102 {
        StatusCode::RobotBusy
    } else if v == 40199 {
        StatusCode::RobotInternalError
    } else if v == 41000 {
        StatusCode::InitStatusError
    } else if v == 41001 {
        StatusCode::LoadmapStatusError
    } else if v == 41002 {
        StatusCode::RelocStatusError
    } else {
        StatusCode::Custom
    }
}

impl StatusCode {
    /// Decode a status code from its numeric value; unlisted values decode
    /// to `Custom` rather than failing.
    pub fn from_u32(v: u32) -> (r: Self)
        ensures
            r == spec_status_code_of(v),
    {
        if v == 0 {
            StatusCode::Success
        } else if v == 40000 {
            StatusCode::Unavailable
        } else if v == 40001 {
            StatusCode::ParamMissing
        } else if v == 40002 {
            StatusCode::ParamTypeError
        } else if v == 40003 {
            StatusCode::ParamIllegal
        } else if v == 40004 {
            StatusCode::ModeError
        } else if v == 40005 {
            StatusCode::IllegalMapName
        } else if v == 40006 {
            StatusCode::ProgrammingDsp
        } else if v == 40007 {
            StatusCode::ProgramDspError
        } else if v == 40010 {
            StatusCode::ShutdownError
        } else if v == 40011 {
            StatusCode::RebootError
        } else if v == 40050 {
            StatusCode::MapParseError
        } else if v == 40051 {
            StatusCode::MapNotExists
        } else if v == 40052 {
            StatusCode::LoadMapError
        } else if v == 40053 {
            StatusCode::LoadMapobjError
        } else if v == 40054 {
            StatusCode::EmptyMap
        } else if v == 40100 {
            StatusCode::ReqTimeout
        } else if v == 40101 {
            StatusCode::ReqForbidden
        } else if v == 40102 {
            StatusCode::RobotBusy
        } else if v == 40199 {
            StatusCode::RobotInternalError
        } else if v == 41000 {
            StatusCode::InitStatusError
        } else if v == 41001 {
            StatusCode::LoadmapStatusError
        } else if v == 41002 {
            StatusCode::RelocStatusError
        } else {
            StatusCode::Custom
        }
    }

    /// The numeric value this status code is carried as.
    pub fn as_u32(&self) -> (r: u32)
        ensures
            r == spec_status_code_value(*self),
    {
        match self {
            StatusCode::Success => 0,
            StatusCode::Unavailable => 40000,
            StatusCode::ParamMissing => 40001,
            StatusCode::ParamTypeError => 40002,
            StatusCode::ParamIllegal => 40003,
            StatusCode::ModeError => 40004,
            StatusCode::IllegalMapName => 40005,
            StatusCode::ProgrammingDsp => 40006,
            StatusCode::ProgramDspError => 40007,
            StatusCode::ShutdownError => 40010,
            StatusCode::RebootError => 40011,
            StatusCode::MapParseError => 40050,
            StatusCode::MapNotExists => 40051,
            StatusCode::LoadMapError => 40052,
            StatusCode::LoadMapobjError => 40053,
            StatusCode::EmptyMap => 40054,
            StatusCode::ReqTimeout => 40100,
            StatusCode::ReqForbidden => 40101,
            StatusCode::RobotBusy => 40102,
            StatusCode::RobotInternalError => 40199,
            StatusCode::InitStatusError => 41000,
            StatusCode::LoadmapStatusError => 41001,
            StatusCode::RelocStatusError => 41002,
            StatusCode::Custom => 41003,
        }
    }
}

/// Error codes as the strict (older) catalogue lists them: no success value
/// and no catch-all, so decoding an unlisted number is a reported failure.
#[derive(Debug, Clone, Copy, PartialEq, Eq, Structural)]
pub enum ErrorCode {
    Unavailable,
    /// The request parameter is missing
    ParamMissing,
    /// The request parameter type is incorrect
    ParamTypeError,
    /// The request parameter is not legal
    ParamIllegal,
    /// Operating mode error
    ModeError,
    /// Illegal map name
    IllegalMapName,
    /// Programming firmware
    ProgrammingDsp,
    /// Programming firmware error
    ProgramDspError,
    /// An error occurred in the shutdown command
    ShutdownError,
    /// An error occurred in the restart command
    RebootError,
    /// Map analysis error
    MapParseError,
    /// The map does not exist
    MapNotExists,
    /// Loading map error
    LoadMapError,
    /// Overload map error
    LoadMapobjError,
    /// Open map
    EmptyMap,
    /// Request execution timeout
    ReqTimeout,
    /// Request is prohibited
    ReqForbidden,
    /// The robot is busy
    RobotBusy,
    /// Internal error
    RobotInternalError,
    /// Initialization status error
    InitStatusError,
    /// Map loading status error
    LoadmapStatusError,
    /// Relocation status error
    RelocStatusError,
}

/// The numeric value each error code is carried as.
pub open spec fn spec_error_code_value(c: ErrorCode) -> u32 {
    match c {
        ErrorCode::Unavailable => 40000,
        ErrorCode::ParamMissing => 40001,
        ErrorCode::ParamTypeError => 40002,
        ErrorCode::ParamIllegal => 40003,
        ErrorCode::ModeError => 40004,
        ErrorCode::IllegalMapName => 40005,
        ErrorCode::ProgrammingDsp => 40006,
        ErrorCode::ProgramDspError => 40007,
        ErrorCode::ShutdownError => 40010,
        ErrorCode::RebootError => 40011,
        ErrorCode::MapParseError => 40050,
        ErrorCode::MapNotExists => 40051,
        ErrorCode::LoadMapError => 40052,
        ErrorCode::LoadMapobjError => 40053,
        ErrorCode::EmptyMap => 40054,
        ErrorCode::ReqTimeout => 40100,
        ErrorCode::ReqForbidden => 40101,
        ErrorCode::RobotBusy => 40102,
        ErrorCode::RobotInternalError => 40199,
        ErrorCode::InitStatusError => 41000,
        ErrorCode::LoadmapStatusError => 41001,
        ErrorCode::RelocStatusError => 41002,
    }
}

/// The error code a numeric value decodes to, where one is listed.
pub open spec fn spec_error_code_of(v: u32) -> Option<ErrorCode> {
    if v == 40000 {
        Some(ErrorCode::Unavailable)
    } else if v == 40001 {
        Some(ErrorCode::ParamMissing)
    } else if v == 40002 {
        Some(ErrorCode::ParamTypeError)
    } else if v == 40003 {
        Some(ErrorCode::ParamIllegal)
    } else if v == 40004 {
        Some(ErrorCode::ModeError)
    } else if v == 40005 {
        Some(ErrorCode::IllegalMapName)
    } else if v == 40006 {
        Some(ErrorCode::ProgrammingDsp)
    } else if v == 40007 {
        Some(ErrorCode::ProgramDspError)
    } else if v == 40010 {
        Some(ErrorCode::ShutdownError)
    } else if v == 40011 {
        Some(ErrorCode::RebootError)
    } else if v == 40050 {
        Some(ErrorCode::MapParseError)
    } else if v == 40051 {
        Some(ErrorCode::MapNotExists)
    } else if v == 40052 {
        Some(ErrorCode::LoadMapError)
    } else if v == 40053 {
        Some(ErrorCode::LoadMapobjError)
    } else if v == 40054 {
        Some(ErrorCode::EmptyMap)
    } else if v == 40100 {
        Some(ErrorCode::ReqTimeout)
    } else if v == 40101 {
        Some(ErrorCode::ReqForbidden)
    } else if v == 40102 {
        Some(ErrorCode::RobotBusy)
    } else if v == 40199 {
        Some(ErrorCode::RobotInternalError)
    } else if v == 41000 {
        Some(ErrorCode::InitStatusError)
    } else if v == 41001 {
        Some(ErrorCode::LoadmapStatusError)
    } else if v == 41002 {
        Some(ErrorCode::RelocStatusError)
    } else {
        None
    }
}

impl ErrorCode {
    /// Decode an error code from its numeric value; `None` exactly on the
    /// numbers the catalogue does not list.
    pub fn from_u32(v: u32) -> (r: Option<Self>)
        ensures
            r == spec_error_code_of(v),
    {
        if v == 40000 {
            Some(ErrorCode::Unavailable)
        } else if v == 40001 {
            Some(ErrorCode::ParamMissing)
        } else if v == 40002 {
            Some(ErrorCode::ParamTypeError)
        } else if v == 40003 {
            Some(ErrorCode::ParamIllegal)
        } else if v == 40004 {
            Some(ErrorCode::ModeError)
        } else if v == 40005 {
            Some(ErrorCode::IllegalMapName)
        } else if v == 40006 {
            Some(ErrorCode::ProgrammingDsp)
        } else if v == 40007 {
            Some(ErrorCode::ProgramDspError)
        } else if v == 40010 {
            Some(ErrorCode::ShutdownError)
        } else if v == 40011 {
            Some(ErrorCode::RebootError)
        } else if v == 40050 {
            Some(ErrorCode::MapParseError)
        } else if v == 40051 {
            Some(ErrorCode::MapNotExists)
        } else if v == 40052 {
            Some(ErrorCode::LoadMapError)
        } else if v == 40053 {
            Some(ErrorCode::LoadMapobjError)
        } else if v == 40054 {
            Some(ErrorCode::EmptyMap)
        } else if v == 40100 {
            Some(ErrorCode::ReqTimeout)
        } else if v == 40101 {
            Some(ErrorCode::ReqForbidden)
        } else if v == 40102 {
            Some(ErrorCode::RobotBusy)
        } else if v == 40199 {
            Some(ErrorCode::RobotInternalError)
        } else if v == 41000 {
            Some(ErrorCode::InitStatusError)
        } else if v == 41001 {
            Some(ErrorCode::LoadmapStatusError)
        } else if v == 41002 {
            Some(ErrorCode::RelocStatusError)
        } else {
            None
        }
    }

    /// The numeric value this error code is carried as.
    pub fn as_u32(&self) -> (r: u32)
        ensures
            r == spec_error_code_value(*self),
    {
        match self {
            ErrorCode::Unavailable => 40000,
            ErrorCode::ParamMissing => 40001,
            ErrorCode::ParamTypeError => 40002,
            ErrorCode::ParamIllegal => 40003,
            ErrorCode::ModeError => 40004,
            ErrorCode::IllegalMapName => 40005,
            ErrorCode::ProgrammingDsp => 40006,
            ErrorCode::ProgramDspError => 40007,
            ErrorCode::ShutdownError => 40010,
            ErrorCode::RebootError => 40011,
            ErrorCode::MapParseError => 40050,
            ErrorCode::MapNotExists => 40051,
            ErrorCode::LoadMapError => 40052,
            ErrorCode::LoadMapobjError => 40053,
            ErrorCode::EmptyMap => 40054,
            ErrorCode::ReqTimeout => 40100,
            ErrorCode::ReqForbidden => 40101,
            ErrorCode::RobotBusy => 40102,
            ErrorCode::RobotInternalError => 40199,
            ErrorCode::InitStatusError => 41000,
            ErrorCode::LoadmapStatusError => 41001,
            ErrorCode::RelocStatusError => 41002,
        }
    }
}

/// Robot identity and firmware information.
#[derive(Debug, Clone)]
pub struct CommonInfo {
    pub id: String,
    pub version: String,
    pub model: String,
    pub code: Option<StatusCode>,
    pub message: String,
}

/// Why the robot reports itself blocked. Unlisted values decode to `Custom`.
#[derive(Debug, Clone, Copy, PartialEq, Eq, Structural)]
pub enum BlockReason {
    Laser,
    Fallingdown,
    Collision,
    Infrared,
    Custom,
}

/// The numeric value each block reason is carried as.
pub open spec fn spec_block_reason_value(r: BlockReason) -> u8 {
    match r {
        BlockReason::Laser => 1,
        BlockReason::Fallingdown => 2,
        BlockReason::Collision => 3,
        BlockReason::Infrared => 4,
        BlockReason::Custom => 5,
    }
}

/// The block reason a numeric value decodes to: `Custom` for the unlisted.
pub open spec fn spec_block_reason_of(v: u8) -> BlockReason {
    if v == 1 {
        BlockReason::Laser
    } else if v == 2 {
        BlockReason::Fallingdown
    } else if v == 3 {
        BlockReason::Collision
    } else if v == 4 {
        BlockReason::Infrared
    } else {
        BlockReason::Custom
    }
}

impl BlockReason {
    /// Decode a block reason; unlisted values decode to `Custom`.
    pub fn from_u8(v: u8) -> (r: Self)
        ensures
            r == spec_block_reason_of(v),
    {
        if v == 1 {
            BlockReason::Laser
        } else if v == 2 {
            BlockReason::Fallingdown
        } else if v == 3 {
            BlockReason::Collision
        } else if v == 4 {
            BlockReason::Infrared
        } else {
            BlockReason::Custom
        }
    }

    /// The numeric value this block reason is carried as.
    pub fn as_u8(&self) -> (r: u8)
        ensures
            r == spec_block_reason_value(*self),
    {
        match self {
            BlockReason::Laser => 1,
            BlockReason::Fallingdown => 2,
            BlockReason::Collision => 3,
            BlockReason::Infrared => 4,
            BlockReason::Custom => 5,
        }
    }
}

/// What the robot's jack is doing. Unlisted values decode to `Failed`.
#[derive(Debug, Clone, Copy, PartialEq, Eq, Structural)]
pub enum JackOperation {
    Rising,
    RisingInPlace,
    Lowering,
    LoweringInPlace,
    Stop,
    Failed,
}

/// The numeric value each jack operation is carried as.
pub open spec fn spec_jack_operation_value(o: JackOperation) -> u32 {
    match o {
        JackOperation::Rising => 0,
        JackOperation::RisingInPlace => 1,
        JackOperation::Lowering => 2,
        JackOperation::LoweringInPlace => 3,
        JackOperation::Stop => 4,
        JackOperation::Failed => 255,
    }
}

/// The jack operation a numeric value decodes to: `Failed` for the unlisted.
pub open spec fn spec_jack_operation_of(v: u32) -> JackOperation {
    if v == 0 {
        JackOperation::Rising
    } else if v == 1 {
        JackOperation::RisingInPlace
    } else if v == 2 {
        JackOperation::Lowering
    } else if v == 3 {
        JackOperation::LoweringInPlace
    } else if v == 4 {
        JackOperation::Stop
    } else {
        JackOperation::Failed
    }
}

impl JackOperation {
    /// Decode a jack operation; unlisted values decode to `Failed`.
    pub fn from_u32(v: u32) -> (r: Self)
        ensures
            r == spec_jack_operation_of(v),
    {
        if v == 0 {
            JackOperation::Rising
        } else if v == 1 {
            JackOperation::RisingInPlace
        } else if v == 2 {
            JackOperation::Lowering
        } else if v == 3 {
            JackOperation::LoweringInPlace
        } else if v == 4 {
            JackOperation::Stop
        } else {
            JackOperation::Failed
        }
    }

    /// The numeric value this jack operation is carried as.
    pub fn as_u32(&self) -> (r: u32)
        ensures
            r == spec_jack_operation_value(*self),
    {
        match self {
            JackOperation::Rising => 0,
            JackOperation::RisingInPlace => 1,
            JackOperation::Lowering => 2,
            JackOperation::LoweringInPlace => 3,
            JackOperation::Stop => 4,
            JackOperation::Failed => 255,
        }
    }
}

/// The kind of navigation task the robot is running. Unlisted values decode
/// to `Other`.
#[derive(Debug, Clone, Copy, PartialEq, Eq, Structural)]
pub enum TaskType {
    NoNav,
    FreeNavToPoint,
    FreeNavToSite,
    PathNavToSite,
    Manual,
    Other,
}

/// The numeric value each task type is carried as.
pub open spec fn spec_task_type_value(t: TaskType) -> u32 {
    match t {
        TaskType::NoNav => 0,
        TaskType::FreeNavToPoint => 1,
        TaskType::FreeNavToSite => 2,
        TaskType::PathNavToSite => 3,
        TaskType::Manual => 7,
        TaskType::Other => 100,
    }
}

/// The task type a numeric value decodes to: `Other` for the unlisted.
pub open spec fn spec_task_type_of(v: u32) -> TaskType {
    if v == 0 {
        TaskType::NoNav
    } else if v == 1 {
        TaskType::FreeNavToPoint
    } else if v == 2 {
        TaskType::FreeNavToSite
    } else if v == 3 {
        TaskType::PathNavToSite
    } else if v == 7 {
        TaskType::Manual
    } else {
        TaskType::Other
    }
}

impl TaskType {
    /// Decode a task type; unlisted values decode to `Other`.
    pub fn from_u32(v: u32) -> (r: Self)
        ensures
            r == spec_task_type_of(v),
    {
        if v == 0 {
            TaskType::NoNav
        } else if v == 1 {
            TaskType::FreeNavToPoint
        } else if v == 2 {
            TaskType::FreeNavToSite
        } else if v == 3 {
            TaskType::PathNavToSite
        } else if v == 7 {
            TaskType::Manual
        } else {
            TaskType::Other
        }
    }

    /// The numeric value a `TaskType` is carried as.
    pub fn as_u32(&self) -> (r: u32)
        ensures
            r == spec_task_type_value(*self),
    {
        match self {
            TaskType::NoNav => 0,
            TaskType::FreeNavToPoint => 1,
            TaskType::FreeNavToSite => 2,
            TaskType::PathNavToSite => 3,
            TaskType::Manual => 7,
            TaskType::Other => 100,
        }
    }
}

/// Where a navigation task stands. Unlisted values decode to `Idle` (no
/// task), the catalogue's default.
#[derive(Debug, Clone, Copy, PartialEq, Eq, Structural)]
pub enum TaskState {
    /// No task (numeric 0; the decode default)
    Idle,
    Waiting,
    Running,
    Suspended,
    Completed,
    Failed,
    Canceled,
    OverTime,
    NotFound,
}

/// The numeric value each task state is carried as.
pub open spec fn spec_task_state_value(t: TaskState) -> u32 {
    match t {
        TaskState::Idle => 0,
        TaskState::Waiting => 1,
        TaskState::Running => 2,
        TaskState::Suspended => 3,
        TaskState::Completed => 4,
        TaskState::Failed => 5,
        TaskState::Canceled => 6,
        TaskState::OverTime => 7,
        TaskState::NotFound => 404,
    }
}

/// The task state a numeric value decodes to: `Idle` for the unlisted.
pub open spec fn spec_task_state_of(v: u32) -> TaskState {
    if v == 1 {
        TaskState::Waiting
    } else if v == 2 {
        TaskState::Running
    } else if v == 3 {
        TaskState::Suspended
    } else if v == 4 {
        TaskState::Completed
    } else if v == 5 {
        TaskState::Failed
    } else if v == 6 {
        TaskState::Canceled
    } else if v == 7 {
        TaskState::OverTime
    } else if v == 404 {
        TaskState::NotFound
    } else {
        TaskState::Idle
    }
}

impl TaskState {
    /// Decode a task state; unlisted values decode to `Idle`.
    pub fn from_u32(v: u32) -> (r: Self)
        ensures
            r == spec_task_state_of(v),
    {
        if v == 1 {
            TaskState::Waiting
        } else if v == 2 {
            TaskState::Running
        } else if v == 3 {
            TaskState::Suspended
        } else if v == 4 {
            TaskState::Completed
        } else if v == 5 {
            TaskState::Failed
        } else if v == 6 {
            TaskState::Canceled
        } else if v == 7 {
            TaskState::OverTime
        } else if v == 404 {
            TaskState::NotFound
        } else {
            TaskState::Idle
        }
    }

    /// The numeric value a `TaskState` is carried as.
    pub fn as_u32(&self) -> (r: u32)
        ensures
            r == spec_task_state_value(*self),
    {
        match self {
            TaskState::Idle => 0,
            TaskState::Waiting => 1,
            TaskState::Running => 2,
            TaskState::Suspended => 3,
            TaskState::Completed => 4,
            TaskState::Failed => 5,
            TaskState::Canceled => 6,
            TaskState::OverTime => 7,
            TaskState::NotFound => 404,
        }
    }
}

/// One entry of the robot's task chain: a task id and where it stands.
#[derive(Debug, Clone)]
pub struct TaskStateItem {
    pub task_id: String,
    pub state: TaskState,
}

} // verus!
