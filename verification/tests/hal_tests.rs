use artifexprocal::hal::devices::lg_internal::LgInternalPatternGenerator;
use artifexprocal::hal::devices::lg_oled::LgOledController;
use artifexprocal::hal::devices::pgenerator::PGenerator;
use artifexprocal::hal::devices::sony_projector::SonyProjectorController;
use artifexprocal::hal::devices::util::{is_valid_ip, parse_u8};
use artifexprocal::hal::devices::xrite_i1_display_pro::I1DisplayPro;
use artifexprocal::hal::error::{DisplayError, MeterError, PatternGenError};
use artifexprocal::hal::meter;
use artifexprocal::hal::pattern_gen;
use artifexprocal::hal::pattern_gen::PatternGenerator;
use artifexprocal::hal::types::{Patch, PictureMode};

#[test]
fn transient_errors_classified() {
    assert!(meter::MeterError::Disconnected.is_transient());
    assert!(meter::MeterError::Timeout.is_transient());
    assert!(meter::MeterError::Saturated.is_transient());
    assert!(meter::MeterError::NoOutput.is_transient());
    assert!(meter::MeterError::JoinError("x".into()).is_transient());
    assert!(meter::MeterError::Other("x".into()).is_transient());
}

#[test]
fn fatal_errors_not_transient() {
    assert!(!meter::MeterError::UnlockFailed.is_transient());
    assert!(!meter::MeterError::NotInstalled.is_transient());
    assert!(!meter::MeterError::CalibrationRequired.is_transient());
    assert!(!meter::MeterError::InvalidMode.is_transient());
}

#[test]
fn sequence_exhausted_not_transient() {
    assert!(!meter::MeterError::SequenceExhausted.is_transient());
}

#[test]
fn meter_error_messages() {
    assert_eq!(meter::MeterError::Timeout.to_string(), "Measurement timed out");
    assert_eq!(meter::MeterError::JoinError("boom".into()).to_string(), "Task join error: boom");
    assert_eq!(meter::MeterError::Other("plain".into()).to_string(), "plain");
    assert_eq!(
        meter::MeterError::SequenceExhausted.to_string(),
        "Measurement sequence exhausted"
    );
}

#[test]
fn pattern_generator_error_messages() {
    assert_eq!(
        pattern_gen::PatternGenError::ConnectionFailed.to_string(),
        "Failed to connect to pattern generator"
    );
    assert_eq!(pattern_gen::PatternGenError::Timeout.to_string(), "Pattern generator timed out");
    assert_eq!(pattern_gen::PatternGenError::Other("odd".into()).to_string(), "odd");
}

struct RecordingGenerator {
    shown: Vec<Patch>,
}

impl PatternGenerator for RecordingGenerator {
    fn shows(&self, patch: Patch) -> bool {
        self.shown.last() == Some(&patch)
    }

    fn displays(
        &self,
        patch: Patch,
        after: &Self,
        r: Result<(), pattern_gen::PatternGenError>,
    ) -> bool {
        r.is_ok() && after.shown.len() == self.shown.len() + 1 && after.shows(patch)
    }

    fn probe(&mut self) -> Result<bool, pattern_gen::PatternGenError> {
        Ok(true)
    }

    fn display_patch(&mut self, patch: Patch) -> Result<(), pattern_gen::PatternGenError> {
        self.shown.push(patch);
        Ok(())
    }
}

#[test]
fn display_black_shows_the_black_patch() {
    let mut gen = RecordingGenerator { shown: Vec::new() };
    let before = RecordingGenerator { shown: gen.shown.clone() };
    let r = gen.display_black();
    assert!(before.displays(Patch { r: 0, g: 0, b: 0, bit_depth: 8 }, &gen, r.clone()));
    r.unwrap();
    assert!(gen.shows(Patch { r: 0, g: 0, b: 0, bit_depth: 8 }));
    assert!(gen.disconnect().is_ok());
    assert_eq!(gen.shown, vec![Patch { r: 0, g: 0, b: 0, bit_depth: 8 }]);
}

#[test]
fn test_meter_error_display() {
    let err = MeterError::ConnectionFailed("USB not found".to_string());
    assert_eq!(err.to_string(), "Connection failed: USB not found");
}

#[test]
fn test_meter_error_timeout() {
    let err = MeterError::ReadTimeout;
    assert_eq!(err.to_string(), "Read timeout");
}

#[test]
fn test_display_error_protocol() {
    let err = DisplayError::ProtocolError("Invalid response".to_string());
    assert_eq!(err.to_string(), "Protocol error: Invalid response");
}

#[test]
fn test_pattern_gen_error_display() {
    let err = PatternGenError::DisplayError("Patch failed".to_string());
    assert_eq!(err.to_string(), "Display error: Patch failed");
}

#[test]
fn test_sony_projector_connect_valid_ip() {
    let mut display = SonyProjectorController::new("192.168.1.50");
    assert!(display.connect().is_ok());
}

#[test]
fn test_sony_projector_connect_invalid_ip() {
    let mut display = SonyProjectorController::new("bad-ip");
    assert!(display.connect().is_err());
}

#[test]
fn test_lg_oled_connect_valid_ip() {
    let mut display = LgOledController::new("192.168.1.100");
    assert!(display.connect().is_ok());
}

#[test]
fn test_lg_oled_connect_invalid_ip() {
    let mut display = LgOledController::new("not-an-ip");
    assert!(display.connect().is_err());
}

#[test]
fn test_lg_oled_set_picture_mode_stub() {
    let mut display = LgOledController::new("192.168.1.100");
    display.connect().unwrap();
    assert!(display.set_picture_mode("Cinema").is_ok());
}

#[test]
fn lg_oled_refuses_commands_until_connected() {
    let mut display = LgOledController::new("192.168.1.100");
    match display.set_picture_mode("Cinema") {
        Err(DisplayError::ConnectionFailed(m)) => assert_eq!(m, "Not connected"),
        _ => panic!("expected a refusal"),
    }
    assert!(display.upload_1d_lut(&[0.0f32, 1.0]).is_err());
    assert!(display.upload_3d_lut(&vec![0.5f32]).is_err());
    assert!(display.set_white_balance((1.02f32, 1.0f32, 0.98f32)).is_err());
    display.connect().unwrap();
    assert!(display.upload_1d_lut(&[0.0f32, 1.0]).is_ok());
    assert!(display.upload_3d_lut(&vec![0.5f32]).is_ok());
    assert!(display.set_white_balance((1.02f32, 1.0f32, 0.98f32)).is_ok());
    display.disconnect();
    assert!(display.set_picture_mode("Cinema").is_err());
}

#[test]
fn invalid_address_error_names_the_address() {
    let mut display = LgOledController::new("10.0.0");
    match display.connect() {
        Err(DisplayError::ConnectionFailed(m)) => assert_eq!(m, "Invalid IP address: 10.0.0"),
        _ => panic!("expected a refusal"),
    }
}

#[test]
fn test_i1_display_pro_connect() {
    let mut meter = I1DisplayPro::new("/dev/hidraw0");
    assert!(meter.connect().is_ok());
    assert_eq!(meter.model(), "i1 Display Pro Rev.B");
}

#[test]
fn test_pgenerator_connect_valid_ip() {
    let mut gen = PGenerator::new("192.168.1.10");
    assert!(gen.connect().is_ok());
}

#[test]
fn test_pgenerator_connect_invalid_ip() {
    let mut gen = PGenerator::new("invalid");
    assert!(gen.connect().is_err());
}

#[test]
fn test_pgenerator_display_patch_stub() {
    let mut gen = PGenerator::new("192.168.1.10");
    gen.connect().unwrap();
    let color = Patch::rgb8(255, 128, 0);
    assert!(gen.display_patch(&color).is_ok());
}

#[test]
fn test_lg_internal_connect_valid_ip() {
    let mut gen = LgInternalPatternGenerator::new("192.168.1.100");
    assert!(gen.connect().is_ok());
}

#[test]
fn test_lg_internal_display_patch_stub() {
    let mut gen = LgInternalPatternGenerator::new("192.168.1.100");
    gen.connect().unwrap();
    let color = Patch::rgb8(0, 0, 0);
    assert!(gen.display_patch(&color).is_ok());
}

#[test]
fn pattern_generator_refuses_patch_when_disconnected() {
    let mut gen = LgInternalPatternGenerator::new("192.168.1.100");
    match gen.display_patch(&Patch::rgb8(1, 2, 3)) {
        Err(PatternGenError::ConnectionFailed(m)) => assert_eq!(m, "Not connected"),
        _ => panic!("expected a refusal"),
    }
    assert_eq!(
        PatternGenError::ConnectionFailed("x".into()).to_string(),
        "Connection failed: x"
    );
}

#[test]
fn test_picture_mode_enum() {
    let mode = PictureMode::Cinema;
    assert!(matches!(mode, PictureMode::Cinema));
    let custom = PictureMode::Custom("ISF Day".to_string());
    assert!(matches!(custom, PictureMode::Custom(_)));
}

#[test]
fn ip_address_rules() {
    assert!(is_valid_ip("0.0.0.0"));
    assert!(is_valid_ip("255.255.255.255"));
    assert!(is_valid_ip("+1.02.003.4"));
    assert!(!is_valid_ip("256.1.1.1"));
    assert!(!is_valid_ip("1.1.1"));
    assert!(!is_valid_ip("1.1.1.1.1"));
    assert!(!is_valid_ip("1..1.1"));
    assert!(!is_valid_ip("1.1.1.-1"));
    assert!(!is_valid_ip(""));
    assert!(!is_valid_ip(" 1.1.1.1"));
}

#[test]
fn u8_parsing_matches_std() {
    for text in ["0", "255", "256", "+7", "+", "", "-1", "007", "1000", "12a", "99999999999"] {
        assert_eq!(parse_u8(text), text.parse::<u8>().ok(), "input {:?}", text);
    }
}
