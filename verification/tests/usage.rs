use mimir_cardinality_analyzer::config::Grafana as GrafanaConfig;
use mimir_cardinality_analyzer::exporter::usage::{
    classify_metric, classify_tenant, decide_usage,
};
use mimir_cardinality_analyzer::grafana::alert::{Alert, AlertData, AlertDataModel};
use mimir_cardinality_analyzer::grafana::datasource::Datasource;
use mimir_cardinality_analyzer::grafana::matcher::PatternError;
use mimir_cardinality_analyzer::grafana::Grafana;
use mimir_cardinality_analyzer::metrics::registry::Registry;

fn grafana() -> Grafana {
    Grafana::new(GrafanaConfig::new("http://grafana".to_string(), String::new(), false))
}

fn names(list: &[&str]) -> Vec<String> {
    list.iter().map(|name| name.to_string()).collect()
}

fn alert_on(datasource: &str, expression: &str) -> Alert {
    Alert {
        id: 1,
        uid: "u".to_string(),
        title: "t".to_string(),
        data: vec![AlertData {
            datasource_uid: Some(datasource.to_string()),
            model: vec![AlertDataModel { expr: Some(expression.to_string()) }],
        }],
    }
}

fn datasources() -> Vec<Datasource> {
    vec![
        Datasource { id: 1, uid: "ds-a".to_string(), name: "Mimir - team-a".to_string() },
        Datasource { id: 2, uid: "ds-b".to_string(), name: "Mimir - team-b".to_string() },
    ]
}

fn activity(registry: &Registry, metric: &str, tenant: &str) -> Option<u64> {
    registry.gauge(
        "metric_active",
        &vec![
            ("metric".to_string(), metric.to_string()),
            ("tenant".to_string(), tenant.to_string()),
        ],
    )
}

fn refused() -> Result<bool, PatternError> {
    Err(PatternError { message: "too big".to_string() })
}

#[test]
fn usage_is_decided_from_dashboards_and_alerts() {
    assert!(decide_usage(true, true, &Ok(true)));
    assert!(decide_usage(true, true, &Ok(false)));
    assert!(decide_usage(true, false, &Ok(true)));
    assert!(decide_usage(true, false, &Ok(false)));
    assert!(decide_usage(false, true, &Ok(true)));
    assert!(!decide_usage(false, true, &Ok(false)));
    assert!(!decide_usage(false, false, &Ok(true)));
    assert!(!decide_usage(false, false, &Ok(false)));
}

#[test]
fn failed_search_counts_as_nothing_found() {
    assert!(decide_usage(true, true, &refused()));
    assert!(decide_usage(true, false, &refused()));
    assert!(!decide_usage(false, true, &refused()));
    assert!(!decide_usage(false, false, &refused()));
}

#[test]
fn metric_in_dashboards_is_in_use_whatever_the_alerts_say() {
    let used = names(&["m1"]);
    let g = grafana();
    let with_alert = vec![alert_on("ds-a", "m1 > 0")];
    let without_alert = vec![alert_on("ds-a", "other > 0")];
    for alerts in [&Vec::new(), &with_alert, &without_alert] {
        for enabled in [true, false] {
            assert!(classify_metric(&g, "m1", "team-a", &used, alerts, &datasources(), enabled));
        }
    }
}

#[test]
fn metric_outside_dashboards_is_in_use_when_an_alert_of_the_tenant_refers_to_it() {
    let g = grafana();
    let alerts = vec![alert_on("ds-a", "rate(m2[5m]) > 0")];
    assert!(classify_metric(&g, "m2", "team-a", &names(&["m1"]), &alerts, &datasources(), true));
    assert!(!classify_metric(&g, "m2", "team-b", &names(&["m1"]), &alerts, &datasources(), true));
    assert!(!classify_metric(&g, "m3", "team-a", &names(&["m1"]), &alerts, &datasources(), true));
    assert!(!classify_metric(&g, "m", "team-a", &names(&["m1"]), &alerts, &datasources(), true));
}

#[test]
fn disabled_correlation_makes_usage_the_dashboard_test() {
    let g = grafana();
    let alerts = vec![alert_on("ds-a", "m1 + m2 + m3")];
    let used = names(&["m1", "m3"]);
    for (metric, expected) in [("m1", true), ("m2", false), ("m3", true), ("m4", false)] {
        assert_eq!(
            classify_metric(&g, metric, "team-a", &used, &alerts, &datasources(), false),
            expected
        );
        assert_eq!(
            classify_metric(&g, metric, "team-a", &used, &Vec::new(), &Vec::new(), false),
            expected
        );
    }
}

#[test]
fn disabled_correlation_does_not_even_try_the_pattern() {
    let g = grafana();
    let name = "a".repeat(4_000_000);
    assert!(!classify_metric(&g, &name, "team-a", &Vec::new(), &Vec::new(), &Vec::new(), false));
    assert!(classify_metric(&g, &name, "team-a", &vec![name.clone()], &Vec::new(), &Vec::new(), true));
}

#[test]
fn refused_pattern_leaves_the_dashboard_test() {
    let g = grafana();
    let name = "a".repeat(4_000_000);
    let alerts = vec![alert_on("ds-a", &name)];
    assert!(!classify_metric(&g, &name, "team-a", &Vec::new(), &alerts, &datasources(), true));
}

#[test]
fn dashboard_usage_is_by_the_whole_name() {
    let g = grafana();
    let used = names(&["http_requests_total"]);
    assert!(!classify_metric(&g, "http_requests", "a", &used, &Vec::new(), &Vec::new(), true));
    assert!(!classify_metric(&g, "HTTP_REQUESTS_TOTAL", "a", &used, &Vec::new(), &Vec::new(), true));
    assert!(classify_metric(&g, "http_requests_total", "a", &used, &Vec::new(), &Vec::new(), true));
}

#[test]
fn tenant_is_classified_metric_by_metric_and_published() {
    let g = grafana();
    let mut registry = Registry::new();
    let alerts = vec![alert_on("ds-a", "sum(m3)")];
    let records = classify_tenant(
        &g,
        &mut registry,
        "team-a",
        &names(&["m1", "m2", "m3"]),
        &names(&["m1"]),
        &alerts,
        &datasources(),
        true,
    );
    assert_eq!(records.len(), 3);
    assert_eq!(records[0].tenant, "team-a");
    assert_eq!(records[0].metric, "m1");
    assert!(records[0].in_use);
    assert_eq!(records[1].metric, "m2");
    assert!(!records[1].in_use);
    assert_eq!(records[2].metric, "m3");
    assert!(records[2].in_use);
    assert_eq!(activity(&registry, "m1", "team-a"), Some(1));
    assert_eq!(activity(&registry, "m2", "team-a"), Some(0));
    assert_eq!(activity(&registry, "m3", "team-a"), Some(1));
    assert_eq!(registry.gauge_series().len(), 3);
    assert!(registry.counter_series().is_empty());
}

#[test]
fn classification_overwrites_the_gauges_of_the_cycle_before() {
    let g = grafana();
    let mut registry = Registry::new();
    let none = Vec::new();
    classify_tenant(&g, &mut registry, "a", &names(&["m1", "m2"]), &names(&["m1"]), &none, &Vec::new(), true);
    assert_eq!(activity(&registry, "m1", "a"), Some(1));
    assert_eq!(activity(&registry, "m2", "a"), Some(0));
    classify_tenant(&g, &mut registry, "a", &names(&["m2", "m3"]), &names(&["m2"]), &none, &Vec::new(), true);
    assert_eq!(activity(&registry, "m1", "a"), Some(1));
    assert_eq!(activity(&registry, "m2", "a"), Some(1));
    assert_eq!(activity(&registry, "m3", "a"), Some(0));
    assert_eq!(registry.gauge_series().len(), 3);
}

#[test]
fn tenant_without_top_metrics_publishes_nothing() {
    let mut registry = Registry::new();
    let records = classify_tenant(
        &grafana(),
        &mut registry,
        "a",
        &Vec::new(),
        &names(&["m1"]),
        &Vec::new(),
        &Vec::new(),
        true,
    );
    assert!(records.is_empty());
    assert!(registry.gauge_series().is_empty());
}

#[test]
fn metric_listed_twice_is_published_once() {
    let mut registry = Registry::new();
    let records = classify_tenant(
        &grafana(),
        &mut registry,
        "a",
        &names(&["m1", "m1"]),
        &names(&["m1"]),
        &Vec::new(),
        &Vec::new(),
        false,
    );
    assert_eq!(records.len(), 2);
    assert_eq!(registry.gauge_series().len(), 1);
    assert_eq!(activity(&registry, "m1", "a"), Some(1));
}
