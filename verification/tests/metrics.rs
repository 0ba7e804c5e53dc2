use hive_gateway::routes::assess_metrics;
use hive_gateway::telemetry::{InputMetric, MetricFactory};

fn metric(name: &str, unit: &str, description: Option<&str>) -> InputMetric {
    InputMetric { name: name.to_string(), unit: unit.to_string(), description: description.map(|d| d.to_string()) }
}

#[test]
fn one_gauge_per_configured_metric() {
    let catalog = MetricFactory::create(vec![
        metric("cpu_usage", "percent", Some("CPU usage of the system")),
        metric("temperature", "celsius", None),
    ]);
    let defs = catalog.definitions();
    assert_eq!(defs.len(), 2);
    assert_eq!(defs[0].name, "cpu_usage");
    assert_eq!(defs[0].unit, "percent");
    assert_eq!(defs[0].description, "CPU usage of the system");
    assert_eq!(defs[1].name, "temperature");
    assert_eq!(defs[1].description, "");
    assert_eq!(catalog.names(), &vec!["cpu_usage".to_string(), "temperature".to_string()]);
}

#[test]
fn a_name_configured_twice_is_registered_once() {
    let catalog = MetricFactory::create(vec![
        metric("cpu_usage", "percent", None),
        metric("cpu_usage", "ratio", None),
    ]);
    assert_eq!(catalog.definitions().len(), 2);
    assert_eq!(catalog.names().len(), 1);
    assert!(catalog.contains(&"cpu_usage".to_string()));
    assert!(!catalog.contains(&"memory".to_string()));
}

#[test]
fn known_metrics_are_accepted() {
    let catalog = MetricFactory::create(vec![metric("cpu_usage", "percent", None), metric("humidity", "%", None)]);
    let report = assess_metrics(&catalog, &vec!["cpu_usage".to_string(), "humidity".to_string()]);
    assert_eq!(report.recorded, vec![true, true]);
    assert_eq!(report.status, 202);
    assert_eq!(report.response.message, None);
}

#[test]
fn unknown_metrics_are_refused_and_listed() {
    let catalog = MetricFactory::create(vec![metric("cpu_usage", "percent", None)]);
    let report = assess_metrics(
        &catalog,
        &vec!["weight".to_string(), "cpu_usage".to_string(), "noise".to_string()],
    );
    assert_eq!(report.recorded, vec![false, true, false]);
    assert_eq!(report.status, 400);
    assert_eq!(report.response.message, Some("Unsupported metrics:weight\nnoise".to_string()));
}

#[test]
fn empty_report_is_accepted() {
    let catalog = MetricFactory::create(Vec::new());
    let report = assess_metrics(&catalog, &Vec::new());
    assert!(report.recorded.is_empty());
    assert_eq!(report.status, 202);
    assert_eq!(report.response.message, None);
}

#[test]
fn end_to_end_proxy_test() {
    let metrics_config = r#"
        [
            {
                "name": "cpu_usage",
                "unit": "percent",
                "description": "CPU usage of the system"
            }
        ]
        "#;
    let parsed: serde_json::Value = serde_json::from_str(metrics_config).unwrap();
    let inputs: Vec<InputMetric> = parsed
        .as_array()
        .unwrap()
        .iter()
        .map(|m| {
            metric(
                m["name"].as_str().unwrap(),
                m["unit"].as_str().unwrap(),
                m["description"].as_str(),
            )
        })
        .collect();

    let catalog = MetricFactory::create(inputs);
    assert!(catalog.contains(&"cpu_usage".to_string()));
    assert_eq!(catalog.names().len(), 1);

    let report = assess_metrics(&catalog, &vec!["cpu_usage".to_string()]);
    assert!(hive_gateway::http::is_success_status(report.status));
    assert_eq!(report.recorded, vec![true]);
}

#[test]
fn a_repeated_name_keeps_its_last_definition() {
    let catalog = MetricFactory::create(vec![
        metric("cpu_usage", "percent", None),
        metric("humidity", "%", None),
        metric("cpu_usage", "ratio", Some("second")),
    ]);
    assert_eq!(catalog.names(), &vec!["cpu_usage".to_string(), "humidity".to_string()]);
    assert_eq!(catalog.kept(), &vec![2, 1]);
    let kept = &catalog.definitions()[catalog.kept()[0]];
    assert_eq!(kept.unit, "ratio");
    assert_eq!(kept.description, "second");
}
