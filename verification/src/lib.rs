//! Client-side core of the RBK binary request/response protocol used to
//! control mobile robots over TCP: the frame codec, the incremental decoder,
//! and the per-port request/response correlation state machine.
//!
//! The modules here hold the pure, verified logic. Transport (sockets, tasks,
//! timers) lives with the caller, which drives the state machine in
//! `port_client` with the events it observes.

pub mod api;
pub mod client;
pub mod error;
pub mod frame;
pub mod port_client;
pub mod protocol;
pub mod response;

pub use api::{ApiRequest, ConfigApi, ControlApi, KernelApi, MiscApi, NavApi, StateApi};
pub use error::{RbkError, RbkResult};
pub use frame::{RbkFrame, RbkRequestResult, RbkResultKind};
pub use response::{
    BlockReason, CommonInfo, ErrorCode, JackOperation, StatusCode, StatusMessage, TaskState,
    TaskStateItem, TaskType,
};
