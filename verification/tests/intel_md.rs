use gpu_info::gpu_info::{GpuError, GpuRecord};
use gpu_info::providers::windows::pdh::{
    expanded_path_ranges, MEMORY_PATH, PDH_COLLECTION_INTERVAL_MS, UTILIZATION_PATH,
};
use gpu_info::providers::windows::intel_md::{
    apply_md_readings, close_device_outcome, find_metric_index, is_md_driver_dir, map_md_error,
    md_start, md_step, metric_name, open_device_outcome, pick_calculated_metric, reading_keys,
    MdAction, MdEvent, MdKind, MdStage, MdState, MetricGroupNames,
};

fn message(e: &GpuError) -> String {
    match e {
        GpuError::FeatureNotEnabled(m) => m.clone(),
        other => panic!("not a FeatureNotEnabled error: {:?}", other),
    }
}

fn fail_message(a: &MdAction) -> String {
    match a {
        MdAction::Fail(e) => message(e),
        _ => panic!("the action does not fail"),
    }
}

fn deactivate_message(a: &MdAction) -> String {
    match a {
        MdAction::DeactivateAndFail(e) => message(e),
        _ => panic!("the action does not deactivate and fail"),
    }
}

fn names(ns: &[Option<&str>]) -> Vec<Option<String>> {
    ns.iter().map(|n| n.map(|s| s.to_string())).collect()
}

fn sample_groups() -> Vec<MetricGroupNames> {
    vec![
        MetricGroupNames { sets: vec![names(&[Some("GpuTime"), None, Some("GpuCoreClocks")])] },
        MetricGroupNames { sets: vec![] },
        MetricGroupNames {
            sets: vec![
                names(&[Some("AvgGpuCoreFrequencyMHz")]),
                names(&[Some("GpuPower"), Some("GtTemperature"), Some("PackagePower")]),
            ],
        },
    ]
}

#[test]
fn md_error_codes_map_to_errors() {
    assert!(matches!(map_md_error(0, "X"), GpuError::GpuNotActive));
    assert!(matches!(map_md_error(42, "X"), GpuError::DriverNotInstalled));
    assert!(matches!(map_md_error(-1, "X"), GpuError::DriverNotInstalled));
    assert_eq!(message(&map_md_error(40, "OpenMetricsDevice")), "Invalid parameter in OpenMetricsDevice");
    assert_eq!(message(&map_md_error(-2, "X")), "Invalid parameter in X");
    assert_eq!(message(&map_md_error(44, "X")), "Not supported: X");
    assert_eq!(message(&map_md_error(-3, "Activate")), "Not supported: Activate");
    assert_eq!(message(&map_md_error(7, "X")), "MD API error 7 in X");
    assert_eq!(message(&map_md_error(-9, "Y")), "MD API error -9 in Y");
    assert_eq!(
        message(&map_md_error(i32::MIN, "Z")),
        "MD API error -2147483648 in Z"
    );
}

#[test]
fn md_driver_directories_are_recognised() {
    assert!(is_md_driver_dir("iigd_dch.inf_amd64_0123456789abcdef"));
    assert!(is_md_driver_dir("igdlh64.inf_amd64_fedcba"));
    assert!(!is_md_driver_dir("nv_dispi.inf_amd64_1234"));
    assert!(!is_md_driver_dir("x_iigd_dch"));
    assert!(!is_md_driver_dir(""));
}

#[test]
fn opening_and_closing_the_metrics_device() {
    assert!(open_device_outcome(0, true).is_ok());
    assert!(matches!(open_device_outcome(0, false), Err(GpuError::GpuNotFound)));
    assert!(matches!(open_device_outcome(42, true), Err(GpuError::DriverNotInstalled)));
    match open_device_outcome(44, true) {
        Err(e) => assert_eq!(message(&e), "Not supported: OpenMetricsDevice"),
        Ok(()) => panic!("a failed status opened the device"),
    }
    assert!(close_device_outcome(false, 5).is_ok());
    assert!(close_device_outcome(true, 0).is_ok());
    assert!(matches!(close_device_outcome(true, 5), Err(GpuError::GpuNotActive)));
}

#[test]
fn the_first_matching_metric_is_found() {
    let groups = sample_groups();
    assert_eq!(find_metric_index(Some(&groups), "Power").unwrap(), (2, 1, 0));
    assert_eq!(find_metric_index(Some(&groups), "Temperature").unwrap(), (2, 1, 1));
    assert_eq!(find_metric_index(Some(&groups), "Clocks").unwrap(), (0, 0, 2));
    assert_eq!(find_metric_index(Some(&groups), "Gpu").unwrap(), (0, 0, 0));
}

#[test]
fn a_missing_metric_is_reported() {
    let groups = sample_groups();
    match find_metric_index(Some(&groups), "Fan") {
        Err(e) => assert_eq!(message(&e), "Metric 'Fan' not found"),
        Ok(t) => panic!("found {:?}", t),
    }
    match find_metric_index(Some(&Vec::new()), "Power") {
        Err(e) => assert_eq!(message(&e), "Metric 'Power' not found"),
        Ok(t) => panic!("found {:?}", t),
    }
    assert!(matches!(find_metric_index(None, "Power"), Err(GpuError::GpuNotFound)));
}

#[test]
fn the_reading_is_picked_among_calculated_values() {
    let set = names(&[Some("GpuTime"), Some("GtTemp"), None, Some("GpuTemperature")]);
    let temp = reading_keys(MdKind::Temperature);
    assert_eq!(pick_calculated_metric(&set, &vec![0, 3, 0, 2], &temp), Some(3));
    assert_eq!(pick_calculated_metric(&set, &vec![0, 1, 0, 2], &temp), Some(1));
    assert_eq!(pick_calculated_metric(&set, &vec![0, 4, 0, 5], &temp), None);
    assert_eq!(pick_calculated_metric(&set, &vec![0, 0], &temp), Some(1));
    assert_eq!(pick_calculated_metric(&set, &vec![0], &temp), None);
    let power = reading_keys(MdKind::Power);
    let set = names(&[Some("GpuPowerLimit"), Some("PackagePower")]);
    assert_eq!(pick_calculated_metric(&set, &vec![6, 2], &power), Some(1));
    assert_eq!(metric_name(MdKind::Temperature), "Temperature");
    assert_eq!(metric_name(MdKind::Power), "Power");
    assert_eq!(temp, vec!["Temperature".to_string(), "Temp".to_string()]);
    assert_eq!(power, vec!["Power".to_string()]);
}

#[test]
fn a_reading_goes_through_every_step() {
    let (s, a) = md_start(MdKind::Power);
    assert_eq!(s.stage, MdStage::AwaitFind);
    assert!(matches!(a, MdAction::FindMetric));
    let (s, a) = md_step(s, MdEvent::Found { outcome: Ok((2, 1, 0)), interfaces_present: true });
    assert_eq!(s.stage, MdStage::AwaitActivate);
    assert!(matches!(a, MdAction::Activate));
    let (s, a) = md_step(s, MdEvent::Activated(0));
    assert_eq!(s.stage, MdStage::AwaitOpen);
    assert!(matches!(a, MdAction::OpenStream));
    let (s, a) = md_step(s, MdEvent::StreamOpened(0));
    assert_eq!(s.stage, MdStage::AwaitRead);
    assert!(matches!(a, MdAction::ReadStream));
    let (s, a) = md_step(s, MdEvent::StreamRead { code: 0, reports: 1 });
    assert_eq!(s.stage, MdStage::AwaitCalculate);
    assert!(matches!(a, MdAction::Calculate));
    let (s, a) = md_step(
        s,
        MdEvent::Calculated { extension_present: true, params_present: true, code: 0 },
    );
    assert_eq!(s.stage, MdStage::AwaitPick);
    assert!(matches!(a, MdAction::PickValue));
    let (s, a) = md_step(s, MdEvent::Picked(Some(4)));
    assert_eq!(s.stage, MdStage::Finished);
    assert_eq!(s.kind, MdKind::Power);
    assert!(matches!(a, MdAction::Done(4)));
}

fn at(kind: MdKind, stage: MdStage) -> MdState {
    MdState { kind, stage }
}

#[test]
fn each_failed_step_gives_its_error() {
    let t = MdKind::Temperature;
    let p = MdKind::Power;
    let (_, a) = md_step(
        at(t, MdStage::AwaitFind),
        MdEvent::Found { outcome: Err(GpuError::DriverNotInstalled), interfaces_present: true },
    );
    assert!(matches!(a, MdAction::Fail(GpuError::DriverNotInstalled)));
    let (_, a) = md_step(
        at(t, MdStage::AwaitFind),
        MdEvent::Found { outcome: Ok((0, 0, 0)), interfaces_present: false },
    );
    assert!(matches!(a, MdAction::Fail(GpuError::GpuNotFound)));
    let (s, a) = md_step(at(t, MdStage::AwaitActivate), MdEvent::Activated(42));
    assert_eq!(s.stage, MdStage::Finished);
    assert_eq!(deactivate_message(&a), "Failed to activate temperature metric set");
    let (_, a) = md_step(at(p, MdStage::AwaitOpen), MdEvent::StreamOpened(-1));
    assert_eq!(deactivate_message(&a), "Failed to open IoStream for power");
    let (_, a) = md_step(at(t, MdStage::AwaitRead), MdEvent::StreamRead { code: 3, reports: 1 });
    assert_eq!(fail_message(&a), "Failed to read temperature data");
    let (_, a) = md_step(at(p, MdStage::AwaitRead), MdEvent::StreamRead { code: 0, reports: 0 });
    assert_eq!(fail_message(&a), "No power data available");
    let (_, a) = md_step(
        at(p, MdStage::AwaitCalculate),
        MdEvent::Calculated { extension_present: false, params_present: true, code: 0 },
    );
    assert_eq!(fail_message(&a), "CalculateMetrics not available");
    let (_, a) = md_step(
        at(p, MdStage::AwaitCalculate),
        MdEvent::Calculated { extension_present: true, params_present: false, code: 0 },
    );
    assert!(matches!(a, MdAction::Fail(GpuError::GpuNotFound)));
    let (_, a) = md_step(
        at(t, MdStage::AwaitCalculate),
        MdEvent::Calculated { extension_present: true, params_present: true, code: 1 },
    );
    assert_eq!(fail_message(&a), "Failed to calculate temperature metrics");
    let (_, a) = md_step(at(t, MdStage::AwaitPick), MdEvent::Picked(None));
    assert_eq!(fail_message(&a), "Temperature metric not found in results");
    let (_, a) = md_step(at(p, MdStage::AwaitPick), MdEvent::Picked(None));
    assert_eq!(fail_message(&a), "Power metric not found in results");
}

#[test]
fn md_clocks_replace_only_what_was_read() {
    let mut gpu = GpuRecord::unknown();
    gpu.core_clock = Some(300);
    gpu.memory_clock = Some(1000);
    apply_md_readings(&mut gpu, Some(2100), Some(2400), None);
    assert_eq!(gpu.core_clock, Some(2100));
    assert_eq!(gpu.max_clock_speed, Some(2400));
    assert_eq!(gpu.memory_clock, Some(1000));
    apply_md_readings(&mut gpu, None, None, Some(1750));
    assert_eq!(gpu.core_clock, Some(2100));
    assert_eq!(gpu.max_clock_speed, Some(2400));
    assert_eq!(gpu.memory_clock, Some(1750));
}

fn units(s: &str) -> Vec<u16> {
    s.encode_utf16().collect()
}

#[test]
fn expanded_path_lists_are_split_into_paths() {
    let buf = units("ab\0cd\0\0");
    assert_eq!(expanded_path_ranges(&buf), vec![(0, 2), (3, 5)]);
    assert_eq!(expanded_path_ranges(&units("\0\0")), vec![]);
    assert_eq!(expanded_path_ranges(&units("ab\0\0cd\0")), vec![(0, 2)]);
    assert_eq!(expanded_path_ranges(&units("\0ab\0")), vec![(1, 3)]);
    assert_eq!(expanded_path_ranges(&units("ab")), vec![]);
    assert_eq!(expanded_path_ranges(&Vec::new()), vec![]);
    assert_eq!(UTILIZATION_PATH, r"\GPU Engine(*engtype_3D)\Utilization Percentage");
    assert_eq!(MEMORY_PATH, r"\GPU Process Memory(*)\Dedicated Usage");
    assert_eq!(PDH_COLLECTION_INTERVAL_MS, 500);
}
