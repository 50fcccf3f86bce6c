use seersdk_rs::client::{
    port_for_api_no, port_for_request, CONFIG_PORT, CONTROL_PORT, KERNEL_PORT, MISC_PORT,
    NAV_PORT, STATE_PORT,
};
use seersdk_rs::{ApiRequest, ConfigApi, ControlApi, KernelApi, MiscApi, NavApi, StateApi};

#[test]
fn test_api_numbers() {
    assert_eq!(ApiRequest::State(StateApi::QueryBattery).api_no(), 1007);
    assert_eq!(ApiRequest::State(StateApi::QueryPose).api_no(), 1004);
    assert_eq!(ApiRequest::Control(ControlApi::SetSpeed).api_no(), 2001);
    assert_eq!(ApiRequest::Nav(NavApi::StartNav).api_no(), 3001);
    assert_eq!(ApiRequest::Config(ConfigApi::GetConfig).api_no(), 4001);
}

#[test]
fn test_custom_apis() {
    assert_eq!(ApiRequest::State(StateApi::Custom(1999)).api_no(), 1999);
    assert_eq!(ApiRequest::Control(ControlApi::Custom(2500)).api_no(), 2500);
}

#[test]
fn test_more_api_numbers() {
    assert_eq!(ApiRequest::State(StateApi::QuerySpeed).api_no(), 1005);
    assert_eq!(ApiRequest::State(StateApi::QueryStatus).api_no(), 1001);
    assert_eq!(ApiRequest::Control(ControlApi::Stop).api_no(), 2002);
    assert_eq!(ApiRequest::Nav(NavApi::StopNav).api_no(), 3002);
    assert_eq!(ApiRequest::Nav(NavApi::PauseNav).api_no(), 3003);
    assert_eq!(ApiRequest::Nav(NavApi::ResumeNav).api_no(), 3004);
    assert_eq!(ApiRequest::Config(ConfigApi::SetConfig).api_no(), 4002);
    assert_eq!(ApiRequest::Kernel(KernelApi::Custom(7123)).api_no(), 7123);
    assert_eq!(ApiRequest::Misc(MiscApi::Custom(6042)).api_no(), 6042);
}

#[test]
fn test_routing_by_category() {
    assert_eq!(port_for_request(&ApiRequest::State(StateApi::QueryBattery)), STATE_PORT);
    assert_eq!(port_for_request(&ApiRequest::Control(ControlApi::Stop)), CONTROL_PORT);
    assert_eq!(port_for_request(&ApiRequest::Nav(NavApi::StartNav)), NAV_PORT);
    assert_eq!(port_for_request(&ApiRequest::Config(ConfigApi::GetConfig)), CONFIG_PORT);
    assert_eq!(port_for_request(&ApiRequest::Kernel(KernelApi::Custom(7000))), KERNEL_PORT);
    assert_eq!(port_for_request(&ApiRequest::Misc(MiscApi::Custom(6000))), MISC_PORT);
}

#[test]
fn test_routing_by_number() {
    assert_eq!(port_for_api_no(1000), Some(19204));
    assert_eq!(port_for_api_no(1999), Some(19204));
    assert_eq!(port_for_api_no(2500), Some(19205));
    assert_eq!(port_for_api_no(3999), Some(19206));
    assert_eq!(port_for_api_no(4000), Some(19207));
    assert_eq!(port_for_api_no(5999), Some(19207));
    assert_eq!(port_for_api_no(6000), Some(19210));
    assert_eq!(port_for_api_no(6998), Some(19210));
    assert_eq!(port_for_api_no(7000), Some(19208));
    assert_eq!(port_for_api_no(7999), Some(19208));
    // Out of every range: reported as bad, not routed.
    assert_eq!(port_for_api_no(0), None);
    assert_eq!(port_for_api_no(999), None);
    assert_eq!(port_for_api_no(6999), None);
    assert_eq!(port_for_api_no(8000), None);
    assert_eq!(port_for_api_no(-1), None);
}
