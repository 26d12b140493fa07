use epson_bridge::protocol::{Power, PowerStatus, Source};
use epson_bridge::routes::{
    EmptyResponse, ErrorResponse, GetStatusResponse, PostPowerRequest, PostSourceRequest,
    PowerStatusResponse,
};

#[test]
fn status_of_a_device_that_is_on() {
    let status = GetStatusResponse::new(PowerStatus::LampOn, Some(Source::Hdmi2));
    assert_eq!(status.power_status(), PowerStatus::LampOn);
    assert_eq!(status.power(), Power::On);
    assert_eq!(status.source(), Some(Source::Hdmi2));
    assert!(GetStatusResponse::wants_source(PowerStatus::LampOn));
    assert!(GetStatusResponse::wants_source(PowerStatus::Warmup));
}

#[test]
fn status_of_a_device_that_is_off_has_no_source() {
    let status = GetStatusResponse::new(PowerStatus::CoolDown, Some(Source::Hdmi2));
    assert_eq!(status.power(), Power::Off);
    assert_eq!(status.source(), None);
    assert!(!GetStatusResponse::wants_source(PowerStatus::CoolDown));
    assert!(!GetStatusResponse::wants_source(PowerStatus::StandbyModeNetworkOff));
    assert!(!GetStatusResponse::wants_source(PowerStatus::AbnormalityStandby));
    assert!(!GetStatusResponse::wants_source(PowerStatus::WirelessHdStandby));
}

#[test]
fn status_power_never_drifts_from_the_power_status() {
    let all = [
        PowerStatus::StandbyModeNetworkOff,
        PowerStatus::LampOn,
        PowerStatus::Warmup,
        PowerStatus::CoolDown,
        PowerStatus::AbnormalityStandby,
        PowerStatus::WirelessHdStandby,
    ];
    for power_status in all {
        for source in [None, Some(Source::Video)] {
            let status = GetStatusResponse::new(power_status, source);
            assert_eq!(status.power(), Power::from(power_status));
            assert_eq!(status.source().is_some(), source.is_some() && status.power() == Power::On);
        }
    }
}

#[test]
fn requests_and_responses_hold_what_they_were_given() {
    assert_eq!(PostPowerRequest::new(Power::Off).power(), Power::Off);
    assert_eq!(PostSourceRequest::new(Source::Input2Rgb).source(), Source::Input2Rgb);
    assert_eq!(PowerStatusResponse::new(PowerStatus::Warmup).status(), PowerStatus::Warmup);
    assert_eq!(EmptyResponse::new(), EmptyResponse {});
    let error = ErrorResponse { message: "timed out".to_string() };
    assert_eq!(error.clone().message, "timed out");
}
