use gpu_info::metric_value::MetricValue;

#[test]
fn test_metric_value_available() {
    let metric = MetricValue::Available(42);
    assert!(metric.is_available());
    assert!(!metric.is_unavailable());
    assert!(!metric.is_not_supported());
    assert_eq!(metric.value(), Some(&42));
}

#[test]
fn test_metric_value_unavailable() {
    let metric: MetricValue<i32> = MetricValue::Unavailable;
    assert!(!metric.is_available());
    assert!(metric.is_unavailable());
    assert!(!metric.is_not_supported());
    assert_eq!(metric.value(), None);
}

#[test]
fn test_metric_value_not_supported() {
    let metric: MetricValue<i32> = MetricValue::NotSupported;
    assert!(!metric.is_available());
    assert!(!metric.is_unavailable());
    assert!(metric.is_not_supported());
    assert_eq!(metric.value(), None);
}

#[test]
fn test_format_with_unit() {
    let temp = MetricValue::Available(65.5);
    assert_eq!(temp.format_with_unit("°C"), "65.5°C");
    let unavailable: MetricValue<f32> = MetricValue::Unavailable;
    assert_eq!(unavailable.format_with_unit("°C"), "N/A");
    let not_supported: MetricValue<f32> = MetricValue::NotSupported;
    assert_eq!(
        not_supported.format_with_unit("°C"),
        "N/A (not supported by driver)"
    );
}

#[test]
fn test_from_option() {
    let some_value = MetricValue::from(Some(42));
    assert!(some_value.is_available());
    assert_eq!(some_value.value(), Some(&42));
    let none_value: MetricValue<i32> = MetricValue::from(None);
    assert!(none_value.is_unavailable());
}

#[test]
fn test_map() {
    let metric = MetricValue::Available(10);
    let doubled = metric.map(|v| v * 2);
    assert_eq!(doubled.value(), Some(&20));
    let unavailable: MetricValue<i32> = MetricValue::Unavailable;
    let mapped = unavailable.map(|v| v * 2);
    assert!(mapped.is_unavailable());
}

#[test]
fn metric_value_test_default() {
    let metric: MetricValue<i32> = MetricValue::default();
    assert!(metric.is_unavailable());
    assert_eq!(metric, MetricValue::Unavailable);
}

#[test]
fn format_value_gives_the_bare_value_or_the_missing_texts() {
    assert_eq!(MetricValue::Available(1200).format_value(), "1200");
    let unavailable: MetricValue<u32> = MetricValue::Unavailable;
    assert_eq!(unavailable.format_value(), "N/A");
    let not_supported: MetricValue<u32> = MetricValue::NotSupported;
    assert_eq!(not_supported.format_value(), "N/A (not supported by driver)");
}

#[test]
fn into_option_round_trips_with_from() {
    assert_eq!(MetricValue::from(Some(7u32)).into_option(), Some(7));
    assert_eq!(MetricValue::<u32>::from(None).into_option(), None);
    let not_supported: MetricValue<u32> = MetricValue::NotSupported;
    assert_eq!(not_supported.into_option(), None);
    let mapped = MetricValue::<u32>::NotSupported.map(|v| v + 1);
    assert!(mapped.is_not_supported());
}

#[test]
fn clone_keeps_the_state_and_value() {
    let available = MetricValue::Available("7 W".to_string());
    assert_eq!(available.clone().into_option(), Some("7 W".to_string()));
    let missing: MetricValue<String> = MetricValue::NotSupported;
    assert!(missing.clone().is_not_supported());
    assert_eq!(
        MetricValue::Available(42u32).format_value(),
        MetricValue::Available(42u32).format_with_unit("")
    );
}

#[test]
fn a_clone_gives_back_what_the_metric_gives() {
    let metrics = [MetricValue::Available(65u32), MetricValue::Unavailable, MetricValue::NotSupported];
    for m in metrics.iter() {
        assert_eq!(m.clone().into_option().as_ref(), m.value());
        assert_eq!(m.clone(), *m);
        assert_eq!(m.format_value(), m.format_with_unit(""));
    }
}
