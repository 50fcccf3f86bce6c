//! Frame and request-result types exchanged between the codec, the port
//! client state machine, and the caller.

use vstd::prelude::*;

verus! {

/// Result kind for RBK requests.
#[derive(Debug, Clone, Copy, PartialEq, Eq, Structural)]
pub enum RbkResultKind {
    /// Request succeeded
    Success,
    /// Robot not found
    NoSuchRobot,
    /// Connection failed
    ConnectFail,
    /// Write error
    WriteError,
    /// Client disposed
    Disposed,
    /// Bad API number
    BadApiNo,
    /// Request timeout
    Timeout,
    /// Request interrupted
    Interrupted,
}

/// One complete protocol message: correlation number, API number, and the
/// body text decoded from the wire.
#[derive(Debug, Clone)]
pub struct RbkFrame {
    pub flow_no: u16,
    pub api_no: u16,
    pub body_str: String,
}

impl RbkFrame {
    pub fn new(flow_no: u16, api_no: u16, body_str: String) -> (r: Self)
        ensures
            r.flow_no == flow_no,
            r.api_no == api_no,
            r.body_str == body_str,
    {
        Self { flow_no, api_no, body_str }
    }
}

/// Structured outcome of one request: what kind of ending it had, which call
/// it was, and, on success, the response body.
#[derive(Debug, Clone)]
pub struct RbkRequestResult {
    pub kind: RbkResultKind,
    pub host: String,
    pub api_no: i32,
    pub req_str: String,
    pub res_str: Option<String>,
    pub err_msg: Option<String>,
}

impl RbkRequestResult {
    pub fn new(kind: RbkResultKind, host: String, api_no: i32, req_str: String) -> (r: Self)
        ensures
            r.kind == kind,
            r.host == host,
            r.api_no == api_no,
            r.req_str == req_str,
            r.res_str is None,
            r.err_msg is None,
    {
        Self { kind, host, api_no, req_str, res_str: None, err_msg: None }
    }

    pub fn with_response(self, res_str: String) -> (r: Self)
        ensures
            r == (Self { res_str: Some(res_str), ..self }),
    {
        Self { res_str: Some(res_str), ..self }
    }

    pub fn with_error(self, err_msg: String) -> (r: Self)
        ensures
            r == (Self { err_msg: Some(err_msg), ..self }),
    {
        Self { err_msg: Some(err_msg), ..self }
    }
}

} // verus!
