//! Error type for RBK client operations.
//!
//! Two failure classes never conflate: an error here means the client could
//! not complete the exchange; a robot that answered but reported failure
//! does so inside the decoded response body (see `response`).

use vstd::prelude::*;

use crate::frame::RbkResultKind;

verus! {

/// Why an RBK client operation failed. I/O-level causes carry the
/// underlying error rendered as text.
#[derive(Debug, Clone)]
pub enum RbkError {
    /// Socket-level read or write error
    Io(String),
    /// Connection timeout
    Timeout,
    /// Connection failed (refused or unreachable)
    ConnectionFailed(String),
    /// Write error
    WriteError(String),
    /// Client disposed
    Disposed,
    /// Bad API number: no category covers it
    BadApiNo(i32),
    /// No such robot
    NoSuchRobot,
    /// Response or request body could not be (de)serialized
    ParseError(String),
}

pub type RbkResult<T> = Result<T, RbkError>;

/// The typed error a finished request's outcome maps to, for a caller that
/// wants a plain result instead of the structured one: `None` exactly on
/// success, and each failure kind its own error, carrying the outcome's
/// message text where it has one.
pub fn error_for_kind(kind: RbkResultKind, api_no: i32, err_msg: Option<String>) -> (r: Option<
    RbkError,
>)
    ensures
        kind == RbkResultKind::Success <==> r is None,
        kind == RbkResultKind::Timeout ==> (r matches Some(e) && e is Timeout),
        kind == RbkResultKind::Disposed ==> (r matches Some(e) && e is Disposed),
        kind == RbkResultKind::NoSuchRobot ==> (r matches Some(e) && e is NoSuchRobot),
        kind == RbkResultKind::BadApiNo ==> (r matches Some(e) && (e matches RbkError::BadApiNo(n)
            && n == api_no)),
        kind == RbkResultKind::ConnectFail ==> (r matches Some(e) && (e matches
            RbkError::ConnectionFailed(m) && m@ == msg_text(err_msg))),
        (kind == RbkResultKind::WriteError || kind == RbkResultKind::Interrupted) ==> (r matches
            Some(e) && (e matches RbkError::WriteError(m) && m@ == msg_text(err_msg))),
{
    match kind {
        RbkResultKind::Success => None,
        RbkResultKind::Timeout => Some(RbkError::Timeout),
        RbkResultKind::Disposed => Some(RbkError::Disposed),
        RbkResultKind::NoSuchRobot => Some(RbkError::NoSuchRobot),
        RbkResultKind::BadApiNo => Some(RbkError::BadApiNo(api_no)),
        RbkResultKind::ConnectFail => Some(RbkError::ConnectionFailed(msg_or_empty(err_msg))),
        RbkResultKind::WriteError => Some(RbkError::WriteError(msg_or_empty(err_msg))),
        RbkResultKind::Interrupted => Some(RbkError::WriteError(msg_or_empty(err_msg))),
    }
}

/// The text of an optional message: its characters, or none at all.
pub open spec fn msg_text(msg: Option<String>) -> Seq<char> {
    match msg {
        Some(m) => m@,
        None => Seq::empty(),
    }
}

/// An optional message, or the empty text.
fn msg_or_empty(msg: Option<String>) -> (r: String)
    ensures
        r@ == msg_text(msg),
{
    match msg {
        Some(m) => m,
        None => String::new(),
    }
}

} // verus!
