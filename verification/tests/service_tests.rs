use artifexprocal::calibration::{
    format_target_space, format_tier, format_tone_curve, format_white_point, parse_diagram,
    parse_gamut, parse_target_space, parse_tier, GamutKind, parse_tone_curve, parse_white_point, uses_3d_lut,
    CalibrationTier, DiagramKind, TargetSpace, ToneCurve, WhitePoint,
};
use artifexprocal::ids::new_prefixed_id;
use artifexprocal::service::error::CalibrationError;
use artifexprocal::service::models::CalibrationState;
use artifexprocal::service::state::CalibrationService;

#[derive(Debug, Clone, PartialEq)]
struct SessionConfig {
    name: String,
    target_space: TargetSpace,
    tone_curve: ToneCurve,
    white_point: WhitePoint,
    patch_count: usize,
    reads_per_patch: usize,
    settle_time_ms: u64,
    stability_threshold: Option<f64>,
    tier: CalibrationTier,
}

fn test_session_config() -> SessionConfig {
    SessionConfig {
        name: "test".into(),
        target_space: TargetSpace::Bt709,
        tone_curve: ToneCurve::Gamma(240),
        white_point: WhitePoint::D65,
        patch_count: 21,
        reads_per_patch: 5,
        settle_time_ms: 1000,
        stability_threshold: None,
        tier: CalibrationTier::GrayscaleOnly,
    }
}

#[test]
fn test_connect_meter_known() {
    let mut service = CalibrationService::<SessionConfig>::new();
    let info = service.connect_meter("i1-display-pro").unwrap();
    assert_eq!(info.id, "i1-display-pro");
    assert!(info.connected);
    assert!(info.capabilities.contains(&"emissive".to_string()));
}

#[test]
fn test_connect_meter_unknown() {
    let mut service = CalibrationService::<SessionConfig>::new();
    let result = service.connect_meter("fake");
    assert!(result.is_err());
    let err = result.unwrap_err().to_string();
    assert!(err.contains("not found"));
}

#[test]
fn test_disconnect_meter() {
    let mut service = CalibrationService::<SessionConfig>::new();
    service.connect_meter("i1-display-pro").unwrap();
    assert_eq!(service.get_meter_info().len(), 1);
    service.disconnect_meter("i1-display-pro").unwrap();
    assert_eq!(service.get_meter_info().len(), 0);
}

#[test]
fn test_disconnect_meter_wrong_id() {
    let mut service = CalibrationService::<SessionConfig>::new();
    service.connect_meter("i1-display-pro").unwrap();
    let result = service.disconnect_meter("wrong");
    assert!(result.is_err());
}

#[test]
fn test_connect_display_known() {
    let mut service = CalibrationService::<SessionConfig>::new();
    let info = service.connect_display("lg-oled").unwrap();
    assert_eq!(info.id, "lg-oled");
    assert!(info.connected);
}

#[test]
fn test_connect_display_unknown() {
    let mut service = CalibrationService::<SessionConfig>::new();
    let result = service.connect_display("fake-display");
    assert!(result.is_err());
    let err = result.unwrap_err().to_string();
    assert!(err.contains("not found"));
}

#[test]
fn test_disconnect_display() {
    let mut service = CalibrationService::<SessionConfig>::new();
    service.connect_display("lg-oled").unwrap();
    assert_eq!(service.get_display_info().len(), 1);
    service.disconnect_display("lg-oled").unwrap();
    assert_eq!(service.get_display_info().len(), 0);
}

#[test]
fn test_disconnect_display_wrong_id() {
    let mut service = CalibrationService::<SessionConfig>::new();
    service.connect_display("lg-oled").unwrap();
    let result = service.disconnect_display("wrong");
    assert!(result.is_err());
}

#[test]
fn test_device_inventory() {
    let service = CalibrationService::<SessionConfig>::new();
    let devices = service.get_device_inventory();
    assert_eq!(devices.len(), 4);
    assert!(devices.iter().any(|d| d.id == "i1-display-pro"));
    assert!(devices.iter().any(|d| d.id == "lg-oled"));
}

#[test]
fn test_state_transitions() {
    let mut service = CalibrationService::<SessionConfig>::new();
    assert!(matches!(service.get_state(), CalibrationState::Idle));
    service.set_state(CalibrationState::Measuring);
    assert!(matches!(service.get_state(), CalibrationState::Measuring));
    service.set_state(CalibrationState::Idle);
    assert!(matches!(service.get_state(), CalibrationState::Idle));
}

#[test]
fn test_start_calibration_session_returns_id() {
    let mut service = CalibrationService::new();
    let id = service.start_calibration_session(test_session_config()).unwrap();
    assert!(!id.is_empty());
    assert!(id.starts_with("cal-"));
}

#[test]
fn test_second_session_returns_in_progress_error() {
    let mut service = CalibrationService::new();
    let _ = service.start_calibration_session(test_session_config()).unwrap();
    let result = service.start_calibration_session(test_session_config());
    assert!(result.is_err());
    let err = result.unwrap_err().to_string();
    assert!(err.contains("already in progress"));
}

#[test]
fn test_get_active_session_id() {
    let mut service = CalibrationService::new();
    assert_eq!(service.get_active_session_id(), None);
    let id = service.start_calibration_session(test_session_config()).unwrap();
    assert_eq!(service.get_active_session_id(), Some(id));
}

#[test]
fn test_end_session_clears_active() {
    let mut service = CalibrationService::new();
    let _ = service.start_calibration_session(test_session_config()).unwrap();
    assert!(service.get_active_session_id().is_some());
    service.end_session();
    assert_eq!(service.get_active_session_id(), None);
}

#[test]
fn test_full_calibration_with_mocks() {
    let mut service = CalibrationService::with_mocks(true);
    service.connect_meter("i1-display-pro").unwrap();
    service.connect_display("lg-oled").unwrap();
    let mut config = test_session_config();
    config.patch_count = 5;
    config.reads_per_patch = 3;
    config.settle_time_ms = 10;
    let session_id = service.start_calibration_session(config).unwrap();
    assert_eq!(service.get_active_session_id(), Some(session_id));
    service.end_session();
    assert_eq!(service.get_active_session_id(), None);
}

#[test]
fn session_ids_are_hyphenated_v4_uuids() {
    let id = new_prefixed_id("cal-");
    let u = &id[4..];
    assert_eq!(u.len(), 36);
    for (i, c) in u.chars().enumerate() {
        if [8, 13, 18, 23].contains(&i) {
            assert_eq!(c, '-');
        } else {
            assert!(c.is_ascii_hexdigit() && !c.is_ascii_uppercase());
        }
    }
    assert_eq!(u.chars().nth(14), Some('4'));
    assert!("89ab".contains(u.chars().nth(19).unwrap()));
    assert_ne!(new_prefixed_id("cal-"), id);
}

#[test]
fn run_needs_session_meter_and_display() {
    let mut service = CalibrationService::new();
    match service.begin_run("cal-x") {
        Err(CalibrationError::SessionNotFound(id)) => assert_eq!(id, "cal-x"),
        _ => panic!("expected a missing session"),
    }
    let id = service.start_calibration_session(test_session_config()).unwrap();
    match service.begin_run(&id) {
        Err(e) => assert_eq!(e.to_string(), "No meter connected"),
        _ => panic!("expected a missing meter"),
    }
    service.connect_meter("i1-pro-2").unwrap();
    match service.begin_run(&id) {
        Err(e) => assert_eq!(e.to_string(), "No display connected"),
        _ => panic!("expected a missing display"),
    }
    service.connect_display("sony-projector").unwrap();
    service.request_abort();
    service.begin_run(&id).unwrap();
    assert!(!service.is_aborted());
    assert_eq!(service.get_state(), CalibrationState::Connecting);
    assert_eq!(service.session_config(), Some(&test_session_config()));
    let ev = service.run_failure_event("meter timed out");
    assert_eq!((ev.severity.as_str(), ev.message.as_str()), ("error", "meter timed out"));
    service.abort_calibration(&id).unwrap();
    let ev = service.run_failure_event("meter timed out");
    assert_eq!((ev.severity.as_str(), ev.message.as_str()), ("warning", "Calibration aborted"));
    assert_eq!(ev.source, "run_calibration");
    service.finish_run();
    assert_eq!(service.get_active_session_id(), None);
    assert_eq!(service.get_state(), CalibrationState::Idle);
    assert_eq!(service.get_meter_info().len(), 1);
}

#[test]
fn abort_needs_the_active_session() {
    let mut service = CalibrationService::new();
    let id = service.start_calibration_session(test_session_config()).unwrap();
    assert!(service.abort_calibration("other").is_err());
    assert!(!service.is_aborted());
    service.abort_calibration(&id).unwrap();
    assert!(service.is_aborted());
    service.clear_abort();
    assert!(!service.is_aborted());
}

#[test]
fn real_drivers_cannot_drive_the_projector() {
    let mut service = CalibrationService::<SessionConfig>::with_mocks(false);
    assert!(!service.uses_mocks());
    match service.connect_display("sony-projector") {
        Err(e) => assert_eq!(
            e.to_string(),
            "Display sony-projector not found. Check network connection."
        ),
        _ => panic!("expected a refusal"),
    }
    assert!(service.connect_display("lg-oled").is_ok());
    let state = service.app_state();
    assert_eq!(state.displays.len(), 1);
    assert_eq!(state.meters.len(), 0);
    assert!(state.last_error.is_none());
}

#[test]
fn error_messages() {
    assert_eq!(
        CalibrationError::MeterNotFound("x".into()).to_string(),
        "Meter x not found. Is it plugged in?"
    );
    assert_eq!(
        CalibrationError::MeterInUse("x".into()).to_string(),
        "Meter x is already in use by another process."
    );
    assert_eq!(CalibrationError::Internal("e".into()).to_string(), "Operation failed: e");
    assert_eq!(CalibrationError::SessionNotFound("s".into()).to_string(), "Session s not found");
}

#[test]
fn front_end_names() {
    assert_eq!(parse_target_space("Rec.2020"), Ok(TargetSpace::Bt2020));
    assert_eq!(parse_target_space("sRGB"), Err("Invalid target_space: sRGB".to_string()));
    assert_eq!(parse_tone_curve("Gamma 2.2"), Ok(ToneCurve::Gamma(220)));
    assert_eq!(parse_tone_curve("PQ"), Ok(ToneCurve::Pq));
    assert_eq!(parse_tone_curve("Gamma 2.3"), Err("Invalid tone_curve: Gamma 2.3".to_string()));
    assert_eq!(parse_white_point("DCI"), Ok(WhitePoint::Dci));
    assert_eq!(parse_white_point("D93"), Err("Invalid white_point: D93".to_string()));
    assert_eq!(parse_tier("Full3D"), CalibrationTier::Full3D);
    assert_eq!(parse_tier("anything"), CalibrationTier::GrayscaleOnly);
    assert!(uses_3d_lut(CalibrationTier::GrayscalePlus3D));
    assert!(!uses_3d_lut(CalibrationTier::GrayscaleOnly));
    assert_eq!(parse_diagram("1976"), Ok(DiagramKind::Cie1976));
    assert_eq!(parse_diagram("2000"), Err("Invalid diagram: 2000".to_string()));
}

#[test]
fn report_labels() {
    assert_eq!(format_target_space(&TargetSpace::DciP3), "DCI-P3");
    assert_eq!(format_tone_curve(&ToneCurve::Gamma(240)), "Gamma 2.40");
    assert_eq!(format_tone_curve(&ToneCurve::Gamma(1005)), "Gamma 10.05");
    assert_eq!(format_tone_curve(&ToneCurve::Pq), "PQ (ST.2084)");
    assert_eq!(format_white_point(&WhitePoint::D50), "D50");
    assert_eq!(format_white_point(&WhitePoint::Custom { x: 3127, y: 3290 }), "Custom (0.3127, 0.3290)");
    assert_eq!(
        format_white_point(&WhitePoint::Custom { x: 950470, y: 1000000 }),
        "Custom (95.0470, 100.0000)"
    );
    assert_eq!(format_tier(&CalibrationTier::GrayscalePlus3D), "Grayscale + 3D LUT");
}

#[test]
fn gamut_names() {
    assert_eq!(parse_gamut("sRGB"), Ok(GamutKind::Rec709));
    assert_eq!(parse_gamut("Rec.709"), Ok(GamutKind::Rec709));
    assert_eq!(parse_gamut("Adobe RGB"), Ok(GamutKind::AdobeRgb));
    assert_eq!(parse_gamut("P3"), Err("Invalid target_space: P3".to_string()));
}
