//! API request categories of the RBK protocol.
//!
//! The protocol organizes APIs into modules, each bound to its own TCP port:
//! - State APIs (1000-1999): robot state queries
//! - Control APIs (2000-2999): robot control commands
//! - Navigation APIs (3000-3999): navigation commands
//! - Config APIs (4000-5999): configuration management
//! - Kernel APIs (7000-7999): kernel operations
//! - Misc APIs (6000-6998): miscellaneous operations

use vstd::prelude::*;

verus! {

/// API request enum representing all RBK robot APIs, grouped by module.
#[derive(Debug, Clone, Copy, PartialEq, Eq, Structural)]
pub enum ApiRequest {
    /// State module APIs (1000-1999)
    State(StateApi),
    /// Control module APIs (2000-2999)
    Control(ControlApi),
    /// Navigation module APIs (3000-3999)
    Nav(NavApi),
    /// Config module APIs (4000-5999)
    Config(ConfigApi),
    /// Kernel module APIs (7000-7999)
    Kernel(KernelApi),
    /// Misc module APIs (6000-6998)
    Misc(MiscApi),
}

/// Whether a request's number lies inside its own module's range; the
/// named variants always do, and a `Custom` number must be given in range.
pub open spec fn spec_api_in_range(api: ApiRequest) -> bool {
    match api {
        ApiRequest::State(a) => spec_state_api_in_range(a),
        ApiRequest::Control(a) => spec_control_api_in_range(a),
        ApiRequest::Nav(a) => spec_nav_api_in_range(a),
        ApiRequest::Config(a) => spec_config_api_in_range(a),
        ApiRequest::Kernel(a) => spec_kernel_api_in_range(a),
        ApiRequest::Misc(a) => spec_misc_api_in_range(a),
    }
}

/// The API number of a request, by module.
pub open spec fn spec_api_no(api: ApiRequest) -> u16 {
    match api {
        ApiRequest::State(a) => spec_state_api_no(a),
        ApiRequest::Control(a) => spec_control_api_no(a),
        ApiRequest::Nav(a) => spec_nav_api_no(a),
        ApiRequest::Config(a) => spec_config_api_no(a),
        ApiRequest::Kernel(a) => spec_kernel_api_no(a),
        ApiRequest::Misc(a) => spec_misc_api_no(a),
    }
}

impl ApiRequest {
    /// Whether this request's number lies inside its module's range.
    pub fn in_range(&self) -> (r: bool)
        ensures
            r == spec_api_in_range(*self),
    {
        match self {
            ApiRequest::State(StateApi::Custom(no)) => 1000 <= *no && *no <= 1999,
            ApiRequest::State(_) => true,
            ApiRequest::Control(ControlApi::Custom(no)) => 2000 <= *no && *no <= 2999,
            ApiRequest::Control(_) => true,
            ApiRequest::Nav(NavApi::Custom(no)) => 3000 <= *no && *no <= 3999,
            ApiRequest::Nav(_) => true,
            ApiRequest::Config(ConfigApi::Custom(no)) => 4000 <= *no && *no <= 5999,
            ApiRequest::Config(_) => true,
            ApiRequest::Kernel(KernelApi::Custom(no)) => 7000 <= *no && *no <= 7999,
            ApiRequest::Misc(MiscApi::Custom(no)) => 6000 <= *no && *no <= 6998,
        }
    }

    /// Get the API number for this request.
    pub fn api_no(&self) -> (r: u16)
        requires
            spec_api_in_range(*self),
        ensures
            r == spec_api_no(*self),
    {
        match self {
            ApiRequest::State(api) => api.api_no(),
            ApiRequest::Control(api) => api.api_no(),
            ApiRequest::Nav(api) => api.api_no(),
            ApiRequest::Config(api) => api.api_no(),
            ApiRequest::Kernel(api) => api.api_no(),
            ApiRequest::Misc(api) => api.api_no(),
        }
    }
}

/// State module APIs (1000-1999): queries of the robot's current state.
#[derive(Debug, Clone, Copy, PartialEq, Eq, Structural)]
pub enum StateApi {
    /// Query robot battery level (API 1007)
    QueryBattery,
    /// Query robot pose and position (API 1004)
    QueryPose,
    /// Query robot speed (API 1005)
    QuerySpeed,
    /// Query robot status (API 1001)
    QueryStatus,
    /// Custom state API with explicit API number (must lie in 1000-1999)
    Custom(u16),
}

/// Whether a state API's number lies in the module's range 1000-1999;
/// only a `Custom` number can stray.
pub open spec fn spec_state_api_in_range(api: StateApi) -> bool {
    match api {
        StateApi::Custom(no) => 1000 <= no <= 1999,
        _ => true,
    }
}

/// The API number of a state API.
pub open spec fn spec_state_api_no(api: StateApi) -> u16 {
    match api {
        StateApi::QueryBattery => 1007,
        StateApi::QueryPose => 1004,
        StateApi::QuerySpeed => 1005,
        StateApi::QueryStatus => 1001,
        StateApi::Custom(no) => no,
    }
}

impl StateApi {
    pub fn api_no(&self) -> (r: u16)
        requires
            spec_state_api_in_range(*self),
        ensures
            r == spec_state_api_no(*self),
    {
        match self {
            StateApi::QueryBattery => 1007,
            StateApi::QueryPose => 1004,
            StateApi::QuerySpeed => 1005,
            StateApi::QueryStatus => 1001,
            StateApi::Custom(no) => *no,
        }
    }
}

/// Control module APIs (2000-2999): robot movement and behavior commands.
#[derive(Debug, Clone, Copy, PartialEq, Eq, Structural)]
pub enum ControlApi {
    /// Set robot speed (API 2001)
    SetSpeed,
    /// Stop robot (API 2002)
    Stop,
    /// Custom control API with explicit API number (must lie in 2000-2999)
    Custom(u16),
}

/// Whether a control API's number lies in the module's range 2000-2999;
/// only a `Custom` number can stray.
pub open spec fn spec_control_api_in_range(api: ControlApi) -> bool {
    match api {
        ControlApi::Custom(no) => 2000 <= no <= 2999,
        _ => true,
    }
}

/// The API number of a control API.
pub open spec fn spec_control_api_no(api: ControlApi) -> u16 {
    match api {
        ControlApi::SetSpeed => 2001,
        ControlApi::Stop => 2002,
        ControlApi::Custom(no) => no,
    }
}

impl ControlApi {
    pub fn api_no(&self) -> (r: u16)
        requires
            spec_control_api_in_range(*self),
        ensures
            r == spec_control_api_no(*self),
    {
        match self {
            ControlApi::SetSpeed => 2001,
            ControlApi::Stop => 2002,
            ControlApi::Custom(no) => *no,
        }
    }
}

/// Navigation module APIs (3000-3999): navigation and path planning.
#[derive(Debug, Clone, Copy, PartialEq, Eq, Structural)]
pub enum NavApi {
    /// Start navigation (API 3001)
    StartNav,
    /// Stop navigation (API 3002)
    StopNav,
    /// Pause navigation (API 3003)
    PauseNav,
    /// Resume navigation (API 3004)
    ResumeNav,
    /// Custom navigation API with explicit API number (must lie in 3000-3999)
    Custom(u16),
}

/// Whether a navigation API's number lies in the module's range 3000-3999;
/// only a `Custom` number can stray.
pub open spec fn spec_nav_api_in_range(api: NavApi) -> bool {
    match api {
        NavApi::Custom(no) => 3000 <= no <= 3999,
        _ => true,
    }
}

/// The API number of a navigation API.
pub open spec fn spec_nav_api_no(api: NavApi) -> u16 {
    match api {
        NavApi::StartNav => 3001,
        NavApi::StopNav => 3002,
        NavApi::PauseNav => 3003,
        NavApi::ResumeNav => 3004,
        NavApi::Custom(no) => no,
    }
}

impl NavApi {
    pub fn api_no(&self) -> (r: u16)
        requires
            spec_nav_api_in_range(*self),
        ensures
            r == spec_nav_api_no(*self),
    {
        match self {
            NavApi::StartNav => 3001,
            NavApi::StopNav => 3002,
            NavApi::PauseNav => 3003,
            NavApi::ResumeNav => 3004,
            NavApi::Custom(no) => *no,
        }
    }
}

/// Config module APIs (4000-5999): configuration management.
#[derive(Debug, Clone, Copy, PartialEq, Eq, Structural)]
pub enum ConfigApi {
    /// Get configuration (API 4001)
    GetConfig,
    /// Set configuration (API 4002)
    SetConfig,
    /// Custom config API with explicit API number (must lie in 4000-5999)
    Custom(u16),
}

/// Whether a config API's number lies in the module's range 4000-5999;
/// only a `Custom` number can stray.
pub open spec fn spec_config_api_in_range(api: ConfigApi) -> bool {
    match api {
        ConfigApi::Custom(no) => 4000 <= no <= 5999,
        _ => true,
    }
}

/// The API number of a config API.
pub open spec fn spec_config_api_no(api: ConfigApi) -> u16 {
    match api {
        ConfigApi::GetConfig => 4001,
        ConfigApi::SetConfig => 4002,
        ConfigApi::Custom(no) => no,
    }
}

impl ConfigApi {
    pub fn api_no(&self) -> (r: u16)
        requires
            spec_config_api_in_range(*self),
        ensures
            r == spec_config_api_no(*self),
    {
        match self {
            ConfigApi::GetConfig => 4001,
            ConfigApi::SetConfig => 4002,
            ConfigApi::Custom(no) => *no,
        }
    }
}

/// Kernel module APIs (7000-7999): the robot's kernel layer.
#[derive(Debug, Clone, Copy, PartialEq, Eq, Structural)]
pub enum KernelApi {
    /// Custom kernel API with explicit API number (must lie in 7000-7999)
    Custom(u16),
}

/// Whether a kernel API's number lies in the module's range 7000-7999;
/// only a `Custom` number can stray.
pub open spec fn spec_kernel_api_in_range(api: KernelApi) -> bool {
    match api {
        KernelApi::Custom(no) => 7000 <= no <= 7999,
        _ => true,
    }
}

/// The API number of a kernel API.
pub open spec fn spec_kernel_api_no(api: KernelApi) -> u16 {
    match api {
        KernelApi::Custom(no) => no,
    }
}

impl KernelApi {
    pub fn api_no(&self) -> (r: u16)
        requires
            spec_kernel_api_in_range(*self),
        ensures
            r == spec_kernel_api_no(*self),
    {
        match self {
            KernelApi::Custom(no) => *no,
        }
    }
}

/// Misc module APIs (6000-6998): miscellaneous functionality.
#[derive(Debug, Clone, Copy, PartialEq, Eq, Structural)]
pub enum MiscApi {
    /// Custom misc API with explicit API number (must lie in 6000-6998)
    Custom(u16),
}

/// Whether a misc API's number lies in the module's range 6000-6998;
/// only a `Custom` number can stray.
pub open spec fn spec_misc_api_in_range(api: MiscApi) -> bool {
    match api {
        MiscApi::Custom(no) => 6000 <= no <= 6998,
        _ => true,
    }
}

/// The API number of a misc API.
pub open spec fn spec_misc_api_no(api: MiscApi) -> u16 {
    match api {
        MiscApi::Custom(no) => no,
    }
}

impl MiscApi {
    pub fn api_no(&self) -> (r: u16)
        requires
            spec_misc_api_in_range(*self),
        ensures
            r == spec_misc_api_no(*self),
    {
        match self {
            MiscApi::Custom(no) => *no,
        }
    }
}

} // verus!
