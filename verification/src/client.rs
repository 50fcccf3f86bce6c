//! Routing of API calls to the per-category TCP ports.
//!
//! One robot host exposes a fixed small set of ports, one per API category.
//! The facade that owns the per-port clients routes each call here: a typed
//! request by its category, a raw call by the numeric range its API number
//! falls in. An API number outside every range is a reported error, never a
//! panic or a silent drop.

use vstd::prelude::*;

use crate::api::ApiRequest;

verus! {

/// Port for state queries (APIs 1000-1999).
pub const STATE_PORT: u16 = 19204;

/// Port for motion/control commands (APIs 2000-2999).
pub const CONTROL_PORT: u16 = 19205;

/// Port for navigation commands (APIs 3000-3999).
pub const NAV_PORT: u16 = 19206;

/// Port for configuration commands (APIs 4000-5999).
pub const CONFIG_PORT: u16 = 19207;

/// Port for kernel-level commands (APIs 7000-7999).
pub const KERNEL_PORT: u16 = 19208;

/// Port for peripheral/miscellaneous commands (APIs 6000-6998).
pub const MISC_PORT: u16 = 19210;

/// The port a typed request is routed to, by its category.
pub open spec fn spec_port_for_request(api: ApiRequest) -> u16 {
    match api {
        ApiRequest::State(_) => STATE_PORT,
        ApiRequest::Control(_) => CONTROL_PORT,
        ApiRequest::Nav(_) => NAV_PORT,
        ApiRequest::Config(_) => CONFIG_PORT,
        ApiRequest::Kernel(_) => KERNEL_PORT,
        ApiRequest::Misc(_) => MISC_PORT,
    }
}

/// Route a typed request to its category's port.
pub fn port_for_request(api: &ApiRequest) -> (r: u16)
    ensures
        r == spec_port_for_request(*api),
{
    match api {
        ApiRequest::State(_) => STATE_PORT,
        ApiRequest::Control(_) => CONTROL_PORT,
        ApiRequest::Nav(_) => NAV_PORT,
        ApiRequest::Config(_) => CONFIG_PORT,
        ApiRequest::Kernel(_) => KERNEL_PORT,
        ApiRequest::Misc(_) => MISC_PORT,
    }
}

/// The port a raw API number is routed to, by numeric range; `None` is the
/// "bad API number" case.
pub open spec fn spec_port_for_api_no(api_no: i32) -> Option<u16> {
    if 1000 <= api_no <= 1999 {
        Some(STATE_PORT)
    } else if 2000 <= api_no <= 2999 {
        Some(CONTROL_PORT)
    } else if 3000 <= api_no <= 3999 {
        Some(NAV_PORT)
    } else if 4000 <= api_no <= 5999 {
        Some(CONFIG_PORT)
    } else if 6000 <= api_no <= 6998 {
        Some(MISC_PORT)
    } else if 7000 <= api_no <= 7999 {
        Some(KERNEL_PORT)
    } else {
        None
    }
}

/// Route a raw API number to the port of the range it falls in, or `None`
/// for a number no category covers.
pub fn port_for_api_no(api_no: i32) -> (r: Option<u16>)
    ensures
        r == spec_port_for_api_no(api_no),
{
    if 1000 <= api_no && api_no <= 1999 {
        Some(STATE_PORT)
    } else if 2000 <= api_no && api_no <= 2999 {
        Some(CONTROL_PORT)
    } else if 3000 <= api_no && api_no <= 3999 {
        Some(NAV_PORT)
    } else if 4000 <= api_no && api_no <= 5999 {
        Some(CONFIG_PORT)
    } else if 6000 <= api_no && api_no <= 6998 {
        Some(MISC_PORT)
    } else if 7000 <= api_no && api_no <= 7999 {
        Some(KERNEL_PORT)
    } else {
        None
    }
}

} // verus!
