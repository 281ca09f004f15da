use artifexprocal::module_meter::export::{
    csv_header, csv_row, export_csv, ExportRow, RgbSpace, CSV_COLUMNS, HISTORY_CAPACITY,
};
use artifexprocal::module_meter::meter_module::{
    check_instrument, parse_command, CommandError, MeterCommand, MeterModule, ModuleCapability,
};

#[test]
fn command_names() {
    assert_eq!(parse_command("detect").unwrap(), MeterCommand::Detect);
    assert_eq!(parse_command("read").unwrap(), MeterCommand::Read);
    match parse_command("calibrate") {
        Err(CommandError::UnknownCommand(c)) => assert_eq!(c, "calibrate"),
        _ => panic!("expected an unknown command"),
    }
}

#[test]
fn only_the_mock_instrument_connects() {
    assert!(check_instrument("fake-meter-1").is_ok());
    match check_instrument("i1-pro-2") {
        Err(CommandError::ExecutionFailed(m)) => assert_eq!(m, "instrument i1-pro-2 not found"),
        _ => panic!("expected a refusal"),
    }
}

#[test]
fn meters_connect_read_and_disconnect() {
    let mut module: MeterModule<&'static str> = MeterModule::new();
    assert_eq!(module.module_id(), "meter");
    assert_eq!(module.display_name(), "Colorimeter / Spectrophotometer");
    assert_eq!(
        module.capabilities(),
        vec![
            ModuleCapability::Measurement,
            ModuleCapability::Standalone,
            ModuleCapability::HardwareProbe
        ]
    );
    let a = module.register("fake-meter-1".into(), "FakeMeter".into(), "driver a");
    let b = module.register("fake-meter-1".into(), "FakeMeter".into(), "driver b");
    assert_ne!(a, b);
    assert_eq!(a.len(), 36);
    assert_eq!(module.active_count(), 2);
    assert_eq!(module.get(&a).unwrap().driver, "driver a");
    assert_eq!(module.get(&b).unwrap().instrument_model, "FakeMeter");
    let removed = module.unregister(&a).unwrap();
    assert_eq!(removed.driver, "driver a");
    assert_eq!(module.active_count(), 1);
    match module.unregister(&a) {
        Err(CommandError::ExecutionFailed(m)) => assert_eq!(m, "meter not found"),
        _ => panic!("expected a missing meter"),
    }
    assert!(module.get("nope").is_err());
    assert_eq!(module.position(&b), Some(0));
}

fn sample_row(space: Option<RgbSpace>, label: Option<&str>) -> ExportRow {
    let t = |v: &str| v.to_string();
    ExportRow {
        measurement_uuid: t("9b1d-77"),
        schema_version: t("1.0.0"),
        software_version: t("0.1.0"),
        timestamp: t("2025-01-01T00:00:00Z"),
        instrument_model: t("FakeMeter"),
        instrument_id: t("fake-meter-1"),
        xyz: (t("95.047"), t("100"), t("108.883")),
        xy: (t("0.3127"), t("0.329")),
        lab: (t("100"), t("0"), t("0")),
        lch: (t("100"), t("0"), t("0")),
        uv_prime: (t("0.1978"), t("0.4683")),
        cct: Some(t("6504")),
        duv: None,
        delta_e_2000: None,
        target_xy: None,
        patch_rgb: (940, 512, 64),
        patch_bit_depth: 10,
        patch_colorspace: space,
        reference_white: t("D65"),
        session_id: None,
        sequence_index: Some(12),
        label: label.map(|l| l.to_string()),
    }
}

#[test]
fn csv_columns_follow_the_header() {
    let header = csv_header();
    assert_eq!(header.len(), CSV_COLUMNS);
    assert_eq!(header[0], "measurement_uuid");
    assert_eq!(header[33], "label");
    let row = csv_row(&sample_row(Some(RgbSpace::Rec2020), None));
    assert_eq!(row.len(), CSV_COLUMNS);
    assert_eq!(row[4], "Emissive");
    assert_eq!(row[20], "6504");
    assert_eq!(row[21], "");
    assert_eq!(&row[25..29], &["940", "512", "64", "10"]);
    assert_eq!(row[29], "BT.2020");
    assert_eq!(row[32], "12");
    let bare = csv_row(&sample_row(None, Some("white")));
    assert_eq!(&bare[25..30], &["", "", "", "", ""]);
    assert_eq!(bare[33], "white");
}

#[test]
fn csv_export_writes_header_and_rows() {
    let empty = export_csv(&[]).unwrap();
    assert_eq!(empty, format!("{}\n", csv_header().join(",")));
    let text = export_csv(&[sample_row(Some(RgbSpace::Srgb), Some("grey, 50%"))]).unwrap();
    let lines: Vec<&str> = text.lines().collect();
    assert_eq!(lines.len(), 2);
    assert_eq!(
        lines[1],
        "9b1d-77,1.0.0,0.1.0,2025-01-01T00:00:00Z,Emissive,FakeMeter,fake-meter-1,95.047,100,108.883,0.3127,0.329,100,0,0,100,0,0,0.1978,0.4683,6504,,,,,940,512,64,10,sRGB,D65,,12,\"grey, 50%\""
    );
}

#[test]
fn module_lists_commands_and_the_mock_instrument() {
    let module: MeterModule<()> = MeterModule::new();
    let names: Vec<&str> = module.commands().iter().map(|c| c.name).collect();
    assert_eq!(names, vec!["detect", "connect", "disconnect", "read"]);
    assert_eq!(module.commands()[3].description, "Take a single measurement");
    let found = module.detect();
    assert_eq!(found.len(), 1);
    assert_eq!(found[0].id, "fake-meter-1");
    assert_eq!(found[0].model, "FakeMeter");
    assert!(found[0].native_driver_available);
}

#[test]
fn history_commands_are_known() {
    assert_eq!(parse_command("export_json").unwrap(), MeterCommand::ExportJson);
    assert_eq!(parse_command("export_csv").unwrap(), MeterCommand::ExportCsv);
    assert_eq!(parse_command("clear_history").unwrap(), MeterCommand::ClearHistory);
}

#[test]
fn recorded_measurements_reach_the_csv_export() {
    let mut module: MeterModule<()> = MeterModule::new();
    assert_eq!(module.history_len(), 0);
    module.record_measurement(sample_row(None, None));
    let csv = module.export_history_csv();
    let lines: Vec<&str> = csv.lines().collect();
    assert_eq!(lines.len(), 2, "expected header + 1 data row");
    assert!(lines[0].starts_with("measurement_uuid"));
    assert!(lines[1].contains("FakeMeter"));
    assert_eq!(csv, export_csv(&[sample_row(None, None)]).unwrap());
}

#[test]
fn cleared_history_exports_only_the_header() {
    let mut module: MeterModule<()> = MeterModule::new();
    module.record_measurement(sample_row(None, None));
    module.clear_history();
    assert_eq!(module.history_len(), 0);
    let csv = module.export_history_csv();
    let lines: Vec<&str> = csv.lines().collect();
    assert_eq!(lines.len(), 1, "expected only header row after clear");
    let cols: Vec<&str> = lines[0].split(',').collect();
    assert_eq!(cols.len(), 34, "CSV header must have exactly 34 columns");
    assert_eq!(cols[0], "measurement_uuid");
}

#[test]
fn history_keeps_the_newest_entries() {
    let mut module: MeterModule<()> = MeterModule::new();
    for i in 0..HISTORY_CAPACITY + 2 {
        let mut row = sample_row(None, None);
        row.sequence_index = Some(i);
        module.record_measurement(row);
    }
    assert_eq!(module.history_len(), HISTORY_CAPACITY);
    assert_eq!(module.history_entries()[0].sequence_index, Some(2));
    assert_eq!(module.history_entries()[HISTORY_CAPACITY - 1].sequence_index, Some(HISTORY_CAPACITY + 1));
}
