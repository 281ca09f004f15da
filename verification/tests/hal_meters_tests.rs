use artifexprocal::hal::error::MeterError;
use artifexprocal::hal_meters::commands::{
    check_initialize_reply, check_setting_reply, decode_spectrum_reply, decode_xyz_reply,
    XriteStatus, XyzWords, CMD_GET_FIRMWARE, CMD_SET_INTEGRATION_TIME,
};
use artifexprocal::hal_meters::hid_util::{i1_display_pro, i1_pro_2, XriteDevice};
use artifexprocal::hal_meters::i1_display_pro::{u32_le_bytes, I1DisplayPro};
use artifexprocal::hal_meters::i1_pro_2::I1Pro2;
use artifexprocal::hal_meters::profiling::{
    ccmx_document, ccmx_document_now, check_profiling_data, escape_xml, ProfilingError,
};
use artifexprocal::hal_meters::usb_util::{command_report, read_step, ReadStep, UsbUtilError};

#[test]
fn test_i1_display_pro_model() {
    let meter = I1DisplayPro::new();
    assert_eq!(meter.model(), "i1 Display Pro Rev.B");
}

#[test]
fn test_i1_display_pro_default_integration_time() {
    let meter = I1DisplayPro::new();
    assert_eq!(meter.integration_time_ms(), 200);
}

#[test]
fn test_i1_display_pro_set_integration_time() {
    let mut meter = I1DisplayPro::new();
    meter.set_integration_time(500);
    assert_eq!(meter.integration_time_ms(), 500);
}

#[test]
fn test_i1_display_pro_integration_time_clamped() {
    let mut meter = I1DisplayPro::new();
    meter.set_integration_time(10);
    assert_eq!(meter.integration_time_ms(), 80);
    meter.set_integration_time(10000);
    assert_eq!(meter.integration_time_ms(), 5000);
}

#[test]
fn test_i1_display_pro_not_connected_error() {
    let meter = I1DisplayPro::new();
    let result = meter.plan_measurement(200);
    assert!(result.is_err());
}

#[test]
fn measurement_plan_sends_integration_time_only_when_it_changes() {
    let mut meter = I1DisplayPro::new();
    assert_eq!(meter.serial(), None);
    meter.mark_connected();
    assert_eq!(meter.plan_measurement(200).unwrap(), None);
    assert_eq!(meter.plan_measurement(500).unwrap(), Some(vec![0xF4, 0x01, 0, 0]));
    meter.record_integration_time(500);
    assert_eq!(meter.plan_measurement(500).unwrap(), None);
    meter.mark_disconnected();
    assert!(meter.plan_measurement(500).is_err());
    assert_eq!(u32_le_bytes(0x0102_0304), vec![4, 3, 2, 1]);
    assert_eq!(u32_le_bytes(500), 500u32.to_le_bytes().to_vec());
}

#[test]
fn status_bytes() {
    assert_eq!(XriteStatus::from_byte(0x00), XriteStatus::Success);
    assert_eq!(XriteStatus::from_byte(0x01), XriteStatus::Busy);
    assert_eq!(XriteStatus::from_byte(0xFE), XriteStatus::InitializationRequired);
    assert_eq!(XriteStatus::from_byte(0x42), XriteStatus::Error);
    assert!(XriteStatus::Success.is_ok());
    assert!(!XriteStatus::Busy.is_ok());
    assert_eq!(XriteStatus::Error.to_byte(), 0xFF);
    assert_eq!(CMD_GET_FIRMWARE, 0x01);
    assert_eq!(CMD_SET_INTEGRATION_TIME, 0x07);
}

#[test]
fn setting_replies() {
    assert!(check_setting_reply(&[], "Failed to set emissive mode").is_ok());
    assert!(check_setting_reply(&[0x00, 0x02], "Failed to set emissive mode").is_ok());
    match check_setting_reply(&[0x01], "Failed to set emissive mode") {
        Err(MeterError::ConnectionFailed(m)) => assert_eq!(m, "Failed to set emissive mode"),
        _ => panic!("expected a failure"),
    }
    assert!(check_initialize_reply(&[]).is_err());
    assert!(check_initialize_reply(&[0xFE]).is_err());
    assert!(check_initialize_reply(&[0x00]).is_ok());
}

#[test]
fn xyz_reply_decoding() {
    let mut resp = vec![0u8; 14];
    resp[2..6].copy_from_slice(&95.047f32.to_le_bytes());
    resp[6..10].copy_from_slice(&100.0f32.to_le_bytes());
    resp[10..14].copy_from_slice(&108.883f32.to_le_bytes());
    let words = decode_xyz_reply(&resp).unwrap();
    assert_eq!(f32::from_bits(words.x), 95.047f32);
    assert_eq!(f32::from_bits(words.y), 100.0f32);
    assert_eq!(f32::from_bits(words.z), 108.883f32);
    assert_eq!(
        decode_xyz_reply(&[0, 0, 1, 0, 0, 0, 2, 0, 0, 0, 3, 0, 0, 0]).unwrap(),
        XyzWords { x: 1, y: 2, z: 3 }
    );
    match decode_xyz_reply(&resp[..13]) {
        Err(MeterError::InvalidResponse(m)) => assert_eq!(m, "Response too short"),
        _ => panic!("expected a short reply"),
    }
    resp[0] = 0xAB;
    match decode_xyz_reply(&resp) {
        Err(MeterError::InvalidResponse(m)) => assert_eq!(m, "Measurement failed: status AB"),
        _ => panic!("expected a failed status"),
    }
    resp[0] = 0x0C;
    match decode_xyz_reply(&resp) {
        Err(e) => assert_eq!(e.to_string(), "Invalid response: Measurement failed: status 0C"),
        _ => panic!("expected a failed status"),
    }
}

#[test]
fn spectrum_reply_decoding() {
    let mut resp = vec![0u8; 14 + 36 * 4];
    for i in 0..36 {
        resp[14 + i * 4..18 + i * 4].copy_from_slice(&(i as f32 * 0.5).to_le_bytes());
    }
    let words = decode_spectrum_reply(&resp).unwrap();
    assert_eq!(words.len(), 36);
    for i in 0..36 {
        assert_eq!(f32::from_bits(words[i]), i as f32 * 0.5);
    }
    match decode_spectrum_reply(&resp[..157]) {
        Err(MeterError::InvalidResponse(m)) => assert_eq!(m, "Spectrum response too short"),
        _ => panic!("expected a short reply"),
    }
    resp[0] = 0xFF;
    match decode_spectrum_reply(&resp) {
        Err(MeterError::InvalidResponse(m)) => assert_eq!(m, "Spectrum read failed: status FF"),
        _ => panic!("expected a failed status"),
    }
}

#[test]
fn command_reports() {
    let r = command_report(0x07, &[0xF4, 0x01, 0x00, 0x00]);
    assert_eq!(r.len(), 64);
    assert_eq!(&r[..5], &[0x07, 0xF4, 0x01, 0x00, 0x00]);
    assert!(r[5..].iter().all(|b| *b == 0));
    let long: Vec<u8> = (1..=100).collect();
    let r = command_report(0x03, &long);
    assert_eq!(r.len(), 64);
    assert_eq!(r[0], 0x03);
    assert_eq!(&r[1..], &long[..63]);
}

#[test]
fn reply_polling_steps() {
    assert_eq!(read_step(5, 0, 2000), ReadStep::Received(5));
    assert_eq!(read_step(0, 2001, 2000), ReadStep::TimedOut);
    assert_eq!(read_step(0, 2000, 2000), ReadStep::Wait);
    assert_eq!(read_step(0, 1_000_000, -1), ReadStep::Wait);
}

#[test]
fn usb_error_messages() {
    assert_eq!(
        UsbUtilError::DeviceNotFound { vid: 0x0971, pid: 0x2000 }.to_string(),
        "Device not found: VID 0971, PID 2000"
    );
    assert_eq!(
        UsbUtilError::DeviceNotFound { vid: 0xABCD, pid: 0x5 }.to_string(),
        "Device not found: VID ABCD, PID 0005"
    );
    assert_eq!(UsbUtilError::ReadFailed("Timeout".into()).to_string(), "Read failed: Timeout");
    assert_eq!(UsbUtilError::ContextInit("x".into()).to_string(), "USB context init failed: x");
}

#[test]
fn test_insufficient_data_error() {
    let c = vec![(1.0f64, 2.0f64, 3.0f64)];
    let r = vec![(1.0f64, 2.0f64, 3.0f64)];
    let result = check_profiling_data(c.len(), r.len());
    assert!(matches!(result, Err(ProfilingError::InsufficientData { got: 1, need: 3 })));
}

#[test]
fn test_mismatched_lengths_error() {
    let c = vec![(1.0f64, 2.0f64, 3.0f64); 3];
    let r = vec![(1.0f64, 2.0f64, 3.0f64); 2];
    let result = check_profiling_data(c.len(), r.len());
    assert!(matches!(result, Err(ProfilingError::MismatchedLengths)));
}

#[test]
fn profiling_messages() {
    assert!(check_profiling_data(4, 4).is_ok());
    assert_eq!(
        ProfilingError::InsufficientData { got: 1, need: 3 }.to_string(),
        "Insufficient data points: got 1, need at least 3"
    );
    assert_eq!(
        ProfilingError::InsufficientData { got: 120, need: 1005 }.to_string(),
        "Insufficient data points: got 120, need at least 1005"
    );
    assert_eq!(
        ProfilingError::SingularMatrix.to_string(),
        "Could not solve for correction matrix (singular system)"
    );
}

#[test]
fn test_export_ccmx_structure() {
    let rows = vec![
        "1.000000 0.000000 0.000000".to_string(),
        "0.000000 1.000000 0.000000".to_string(),
        "0.000000 0.000000 1.000000".to_string(),
    ];
    let xml = ccmx_document("i1 Display Pro", "i1 Pro 2", "2026-01-01T00:00:00Z", &rows);
    assert!(xml.contains("<ccmx>"));
    assert!(xml.contains("</ccmx>"));
    assert!(xml.contains("i1 Display Pro"));
    assert!(xml.contains("i1 Pro 2"));
    assert!(xml.contains("<matrix>"));
    assert!(xml.contains("1.000000"));
}

#[test]
fn ccmx_layout_is_exact() {
    let rows = vec!["1 2 3".to_string()];
    let xml = ccmx_document("A&B", "<ref>", "now", &rows);
    assert_eq!(
        xml,
        "<?xml version=\"1.0\" encoding=\"UTF-8\"?>\n<ccmx>\n  <instrument_make>A&amp;B</instrument_make>\n  <instrument_model>A&amp;B</instrument_model>\n  <reference_instrument_make>&lt;ref&gt;</reference_instrument_make>\n  <reference_instrument_model>&lt;ref&gt;</reference_instrument_model>\n  <created>now</created>\n  <matrix>\n    <row>1 2 3</row>\n  </matrix>\n</ccmx>\n"
    );
    assert_eq!(escape_xml("it's \"x\""), "it&apos;s &quot;x&quot;");
}

#[test]
fn test_vid_pid_constants() {
    let i1_display_pro: XriteDevice = i1_display_pro();
    let i1_pro_2: XriteDevice = i1_pro_2();
    assert_eq!(i1_display_pro.vid, 0x0765);
    assert_eq!(i1_display_pro.pid, 0x5020);
    assert_eq!(i1_pro_2.vid, 0x0765);
    assert_eq!(i1_pro_2.pid, 0x5034);
}

#[test]
fn test_xrite_device_name() {
    assert_eq!(i1_display_pro().name, "i1 Display Pro Rev.B");
    assert_eq!(i1_pro_2().name, "i1 Pro 2");
}

#[test]
fn test_i1_pro_2_model() {
    let meter = I1Pro2::new();
    assert_eq!(meter.model(), "i1 Pro 2");
}

#[test]
fn test_i1_pro_2_not_connected_error() {
    let meter = I1Pro2::new();
    let result = meter.plan_read_xyz(500);
    assert!(result.is_err());
}

#[test]
fn test_i1_pro_2_initialize_not_connected() {
    let meter = I1Pro2::new();
    let result = meter.plan_initialize();
    assert!(result.is_err());
}

#[test]
fn test_i1_pro_2_read_spectrum_not_connected() {
    let meter = I1Pro2::new();
    let result = meter.plan_read_spectrum();
    assert!(result.is_err());
}

#[test]
fn i1_pro_2_session_follows_emissive_reply() {
    let mut meter = I1Pro2::new();
    assert_eq!(meter.serial(), None);
    match meter.complete_connect(&[0x01]) {
        Err(MeterError::ConnectionFailed(m)) => assert_eq!(m, "Failed to set emissive mode"),
        other => panic!("unexpected {:?}", other),
    }
    assert!(meter.plan_initialize().is_err());
    assert!(meter.complete_connect(&[]).is_ok());
    assert_eq!(meter.plan_initialize().unwrap(), 0x06);
    assert_eq!(meter.plan_read_spectrum().unwrap(), 0x03);
    assert_eq!(meter.plan_read_xyz(500).unwrap(), 2500);
    assert_eq!(meter.plan_read_xyz(u32::MAX).unwrap(), 1999);
    match meter.plan_read_xyz(0) {
        Ok(t) => assert_eq!(t, 2000),
        Err(e) => panic!("unexpected {:?}", e),
    }
    meter.disconnect();
    match meter.plan_read_xyz(500) {
        Err(MeterError::ConnectionFailed(m)) => assert_eq!(m, "Not connected"),
        other => panic!("unexpected {:?}", other),
    }
    match meter.plan_read_spectrum() {
        Err(MeterError::ConnectionFailed(m)) => assert_eq!(m, "Device not open"),
        other => panic!("unexpected {:?}", other),
    }
}

#[test]
fn ccmx_created_now_is_stamped_in_utc() {
    let rows = vec!["1 0 0".to_string()];
    let xml = ccmx_document_now("Meter", "Ref", &rows);
    let start = xml.find("<created>").unwrap() + "<created>".len();
    let end = xml.find("</created>").unwrap();
    let created = &xml[start..end];
    assert_eq!(created.len(), 20);
    assert_eq!(&created[4..5], "-");
    assert_eq!(&created[10..11], "T");
    assert!(created.ends_with('Z'));
    assert_eq!(xml, ccmx_document("Meter", "Ref", created, &rows));
}
