use mimir_cardinality_analyzer::config::{Config, Grafana, Http, Mimir as MimirConfig};
use mimir_cardinality_analyzer::exchange::{Error, ProcessOutput, Reply};
use mimir_cardinality_analyzer::metrics::registry::Registry;
use mimir_cardinality_analyzer::mimir::cardinality::{Cardinality, Label, Response};
use mimir_cardinality_analyzer::mimir::{listed_names, Mimir};

fn config(output_dir: &str) -> Config {
    Config {
        grafana: Grafana::new("https://grafana.example".to_string(), "secret".to_string(), false),
        mimir: MimirConfig {
            store_gateway_url: "http://store-gateway:8080".to_string(),
            querier_url: "http://querier:8080".to_string(),
        },
        http: Http { host: "0.0.0.0".to_string(), port: 9090 },
        output_dir: output_dir.to_string(),
    }
}

fn mimir() -> Mimir {
    Mimir::new(config("/var/lib/analyzer"))
}

fn pair(key: &str, value: &str) -> (String, String) {
    (key.to_string(), value.to_string())
}

fn page(rows: &[&str]) -> String {
    let mut body = String::from("<html><body><h1>Tenants</h1><table><thead><tr><th>Tenant</th></tr></thead><tbody>");
    for row in rows {
        body.push_str("<tr><td>");
        body.push_str(row);
        body.push_str("</td></tr>");
    }
    body.push_str("</tbody></table><a href=\"/\">home</a></body></html>");
    body
}

fn answered(status: u16, body: &str) -> Result<Reply<String>, String> {
    Ok(Reply { status, payload: Ok(body.to_string()) })
}

fn ended(success: bool, stderr: &str) -> Result<ProcessOutput, String> {
    Ok(ProcessOutput { success, stderr: stderr.to_string() })
}

fn cardinality(names: &[&str]) -> Label {
    Label {
        cardinality: names
            .iter()
            .map(|name| Cardinality { label_value: name.to_string(), series_count: 10 })
            .collect(),
    }
}

#[test]
fn request_for_tenants_goes_to_the_store_gateway() {
    let request = mimir().tenants_request();
    assert_eq!(request.url, "http://store-gateway:8080/store-gateway/tenants");
    assert!(request.headers.is_empty());
    assert_eq!(request.bearer, None);
}

#[test]
fn tenants_are_the_anchor_texts_of_the_table_rows() {
    let mut registry = Registry::new();
    let body = page(&[
        "<a href=\"tenant/team-a\">team-a</a>",
        "<a href=\"tenant/team-b\">team-b</a>",
    ]);
    let tenants = mimir().get_tenants(&mut registry, answered(200, &body)).unwrap();
    assert_eq!(tenants, vec!["team-a".to_string(), "team-b".to_string()]);
}

#[test]
fn tenants_are_listed_once_in_the_order_of_the_page() {
    let mut registry = Registry::new();
    let body = page(&[
        "<a>b</a>",
        "<a>a</a>",
        "<a>b</a>",
        "<a>c</a>",
        "<a>a</a>",
    ]);
    let tenants = mimir().get_tenants(&mut registry, answered(200, &body)).unwrap();
    assert_eq!(tenants, vec!["b".to_string(), "a".to_string(), "c".to_string()]);
    assert_eq!(registry.gauge("tenants_discovered_total", &Vec::new()), Some(3));
}

#[test]
fn anchors_without_text_and_anchors_outside_the_table_name_no_tenant() {
    let mut registry = Registry::new();
    let body = page(&["<a href=\"x\"></a>", "plain text", "<a><b>bold</b> tail</a>"]);
    let tenants = mimir().get_tenants(&mut registry, answered(200, &body)).unwrap();
    assert_eq!(tenants, vec!["bold".to_string()]);
}

#[test]
fn page_without_table_names_no_tenant() {
    let mut registry = Registry::new();
    let tenants = mimir()
        .get_tenants(&mut registry, answered(200, "<html><body><a>x</a></body></html>"))
        .unwrap();
    assert!(tenants.is_empty());
    assert_eq!(registry.gauge("tenants_discovered_total", &Vec::new()), Some(0));
}

#[test]
fn number_of_discovered_tenants_is_overwritten() {
    let mut registry = Registry::new();
    let m = mimir();
    m.get_tenants(&mut registry, answered(200, &page(&["<a>a</a>", "<a>b</a>"]))).unwrap();
    assert_eq!(registry.gauge("tenants_discovered_total", &Vec::new()), Some(2));
    m.get_tenants(&mut registry, answered(200, &page(&["<a>a</a>"]))).unwrap();
    assert_eq!(registry.gauge("tenants_discovered_total", &Vec::new()), Some(1));
}

#[test]
fn refused_request_for_tenants_is_counted() {
    let mut registry = Registry::new();
    let error = mimir().get_tenants(&mut registry, answered(503, "busy")).unwrap_err();
    assert!(matches!(error, Error::Status(503)));
    let labels = vec![pair("target", "store-gateway")];
    assert_eq!(registry.counter("external_request_failures_total", &labels), Some(1));
    assert_eq!(registry.gauge("tenants_discovered_total", &Vec::new()), None);
}

#[test]
fn status_below_and_above_the_success_class_is_a_refusal() {
    let mut registry = Registry::new();
    let m = mimir();
    assert!(matches!(m.get_tenants(&mut registry, answered(199, "")), Err(Error::Status(199))));
    assert!(matches!(m.get_tenants(&mut registry, answered(300, "")), Err(Error::Status(300))));
    assert!(m.get_tenants(&mut registry, answered(299, "")).is_ok());
    assert!(m.get_tenants(&mut registry, answered(200, "")).is_ok());
    let labels = vec![pair("target", "store-gateway")];
    assert_eq!(registry.counter("external_request_failures_total", &labels), Some(2));
}

#[test]
fn unanswered_request_for_tenants_is_a_request_failure() {
    let mut registry = Registry::new();
    let error = mimir().get_tenants(&mut registry, Err("timed out".to_string())).unwrap_err();
    assert!(matches!(error, Error::Request(detail) if detail == "timed out"));
    let labels = vec![pair("target", "store-gateway")];
    assert_eq!(registry.counter("external_request_failures_total", &labels), None);
}

#[test]
fn unreadable_tenant_page_is_a_payload_failure() {
    let mut registry = Registry::new();
    let fetched = Ok(Reply { status: 200, payload: Err("invalid utf-8".to_string()) });
    let error = mimir().get_tenants(&mut registry, fetched).unwrap_err();
    assert!(matches!(error, Error::Payload(detail) if detail == "invalid utf-8"));
}

#[test]
fn listed_names_follow_the_selector() {
    let body = "<ul><li class=\"t\">x</li><li>y</li><li class=\"t\">z</li><li class=\"t\">x</li></ul>";
    assert_eq!(listed_names(body, "li.t").unwrap(), vec!["x".to_string(), "z".to_string()]);
    assert_eq!(
        listed_names(body, "li").unwrap(),
        vec!["x".to_string(), "y".to_string(), "z".to_string()]
    );
    assert!(listed_names(body, "table tbody tr td a").unwrap().is_empty());
}

#[test]
fn refused_selector_is_a_selector_failure() {
    let error = listed_names("<a>x</a>", "a[").unwrap_err();
    assert!(matches!(error, Error::Selector(detail) if !detail.is_empty()));
}

#[test]
fn analyzer_is_mimirtool() {
    assert_eq!(mimir().analyzer(), "mimirtool");
}

#[test]
fn arguments_of_the_dashboard_analysis() {
    let expected: Vec<String> = [
        "analyze",
        "grafana",
        "--address",
        "https://grafana.example",
        "--key",
        "secret",
        "--output",
        "/var/lib/analyzer/grafana.json",
    ]
    .iter()
    .map(|argument| argument.to_string())
    .collect();
    assert_eq!(mimir().analyze_grafana_arguments(), expected);
}

#[test]
fn arguments_of_the_tenant_analysis() {
    let expected: Vec<String> = [
        "analyze",
        "prometheus",
        "--address",
        "http://querier:8080",
        "--id",
        "team-a",
        "--prometheus-http-prefix",
        "prometheus",
        "--grafana-metrics-file",
        "/var/lib/analyzer/grafana.json",
        "--output",
        "/var/lib/analyzer/prometheus-metrics.json",
    ]
    .iter()
    .map(|argument| argument.to_string())
    .collect();
    assert_eq!(mimir().analyze_tenant_arguments("team-a"), expected);
}

#[test]
fn artifacts_lie_in_the_output_directory() {
    assert_eq!(
        Mimir::new(config(".")).usage_artifact_path(),
        "./prometheus-metrics.json"
    );
    assert_eq!(
        Mimir::new(config("/tmp/out/")).usage_artifact_path(),
        "/tmp/out/prometheus-metrics.json"
    );
    assert_eq!(Mimir::new(config("")).usage_artifact_path(), "prometheus-metrics.json");
    assert_eq!(
        Mimir::new(config("relative/dir")).analyze_grafana_arguments()[7],
        "relative/dir/grafana.json"
    );
}

#[test]
fn successful_dashboard_analysis_is_counted_as_success() {
    let mut registry = Registry::new();
    assert!(mimir().analyze_grafana(&mut registry, ended(true, "warning")).is_ok());
    let success = vec![pair("command", "analyze_grafana"), pair("status", "success")];
    let failure = vec![pair("command", "analyze_grafana"), pair("status", "failure")];
    assert_eq!(registry.counter("mimirtool_executions_total", &success), Some(1));
    assert_eq!(registry.counter("mimirtool_executions_total", &failure), None);
}

#[test]
fn failed_dashboard_analysis_reports_the_error_stream() {
    let mut registry = Registry::new();
    let error = mimir().analyze_grafana(&mut registry, ended(false, "401 Unauthorized\n")).unwrap_err();
    assert!(matches!(error, Error::Analyzer(detail) if detail == "401 Unauthorized\n"));
    let failure = vec![pair("command", "analyze_grafana"), pair("status", "failure")];
    assert_eq!(registry.counter("mimirtool_executions_total", &failure), Some(1));
}

#[test]
fn dashboard_analysis_that_does_not_start_is_a_spawn_failure() {
    let mut registry = Registry::new();
    let error = mimir()
        .analyze_grafana(&mut registry, Err("No such file or directory".to_string()))
        .unwrap_err();
    assert!(matches!(error, Error::Spawn(detail) if detail == "No such file or directory"));
    let failure = vec![pair("command", "analyze_grafana"), pair("status", "failure")];
    assert_eq!(registry.counter("mimirtool_executions_total", &failure), Some(1));
}

#[test]
fn failed_tenant_analysis_is_counted_at_once() {
    let mut registry = Registry::new();
    let error = mimir().analyze_tenant_exit(&mut registry, ended(false, "exit status 1")).unwrap_err();
    assert!(matches!(error, Error::Analyzer(detail) if detail == "exit status 1"));
    let failure = vec![pair("command", "analyze_prometheus"), pair("status", "failure")];
    assert_eq!(registry.counter("mimirtool_executions_total", &failure), Some(1));
}

#[test]
fn tenant_analysis_that_does_not_start_is_counted_at_once() {
    let mut registry = Registry::new();
    let error = mimir().analyze_tenant_exit(&mut registry, Err("not found".to_string())).unwrap_err();
    assert!(matches!(error, Error::Spawn(detail) if detail == "not found"));
    let failure = vec![pair("command", "analyze_prometheus"), pair("status", "failure")];
    assert_eq!(registry.counter("mimirtool_executions_total", &failure), Some(1));
}

#[test]
fn successful_tenant_analysis_is_counted_when_its_artifact_was_read() {
    let mut registry = Registry::new();
    let m = mimir();
    assert!(m.analyze_tenant_exit(&mut registry, ended(true, "")).is_ok());
    let success = vec![pair("command", "analyze_prometheus"), pair("status", "success")];
    assert_eq!(registry.counter("mimirtool_executions_total", &success), None);
    let artifact = Ok("{\"in_use_metric_counts\":[]}".to_string());
    assert!(m.analyze_tenant(&mut registry, artifact).unwrap().is_empty());
    assert_eq!(registry.counter("mimirtool_executions_total", &success), Some(1));
}

#[test]
fn used_metrics_are_read_from_the_artifact_in_order() {
    let mut registry = Registry::new();
    let content = r#"{
        "metric_counts": [{"metric": "unused", "count": 1}],
        "in_use_metric_counts": [
            {"metric": "m2", "count": 30, "job_counts": []},
            {"metric": "m1", "count": 12},
            {"count": 3},
            {"metric": 17},
            {"metric": null},
            "m9",
            {"metric": "m2"}
        ]
    }"#;
    let used = mimir().analyze_tenant(&mut registry, Ok(content.to_string())).unwrap();
    assert_eq!(used, vec!["m2".to_string(), "m1".to_string(), "m2".to_string()]);
}

#[test]
fn artifact_without_the_usage_field_is_refused() {
    let mut registry = Registry::new();
    let m = mimir();
    for content in [
        "{}",
        "{\"in_use_metric_counts\": null}",
        "{\"in_use_metric_counts\": {\"metric\": \"m\"}}",
        "{\"in_use_metric_counts\": \"m\"}",
        "[{\"metric\": \"m\"}]",
        "null",
        "3",
    ] {
        let error = m.analyze_tenant(&mut registry, Ok(content.to_string())).unwrap_err();
        assert!(matches!(error, Error::MissingUsage));
    }
    let success = vec![pair("command", "analyze_prometheus"), pair("status", "success")];
    assert_eq!(registry.counter("mimirtool_executions_total", &success), None);
}

#[test]
fn artifact_that_is_no_json_document_is_refused() {
    let mut registry = Registry::new();
    let m = mimir();
    for content in ["", "{", "{\"in_use_metric_counts\": [}", "not json"] {
        let error = m.analyze_tenant(&mut registry, Ok(content.to_string())).unwrap_err();
        assert!(matches!(error, Error::Json(detail) if !detail.is_empty()));
    }
}

#[test]
fn artifact_that_cannot_be_read_is_refused() {
    let mut registry = Registry::new();
    let error = mimir()
        .analyze_tenant(&mut registry, Err("permission denied".to_string()))
        .unwrap_err();
    assert!(matches!(error, Error::Artifact(detail) if detail == "permission denied"));
}

#[test]
fn request_for_top_metrics_names_the_tenant_in_a_header() {
    let request = mimir().top_metrics_request("team-a");
    assert_eq!(
        request.url,
        "http://querier:8080/prometheus/api/v1/cardinality/label_values?label_names[]=__name__&limit=100"
    );
    assert_eq!(request.headers, vec![pair("X-Scope-OrgID", "team-a")]);
    assert_eq!(request.bearer, None);
}

#[test]
fn top_metrics_are_the_label_values_in_the_ranking_of_the_backend() {
    let mut registry = Registry::new();
    let response = Response {
        labels: vec![cardinality(&["m3", "m1"]), cardinality(&[]), cardinality(&["m2", "m3"])],
    };
    let fetched = Ok(Reply { status: 200, payload: Ok(response) });
    let top = mimir().get_tenant_top_metrics(&mut registry, fetched).unwrap();
    assert_eq!(
        top,
        vec!["m3".to_string(), "m1".to_string(), "m2".to_string(), "m3".to_string()]
    );
}

#[test]
fn answer_without_labels_lists_no_top_metric() {
    let mut registry = Registry::new();
    let fetched = Ok(Reply { status: 200, payload: Ok(Response { labels: Vec::new() }) });
    assert!(mimir().get_tenant_top_metrics(&mut registry, fetched).unwrap().is_empty());
    assert!(Response { labels: vec![cardinality(&[])] }.into_label_values().is_empty());
}

#[test]
fn refused_request_for_top_metrics_is_counted() {
    let mut registry = Registry::new();
    let fetched: Result<Reply<Response>, String> =
        Ok(Reply { status: 429, payload: Err("too many requests".to_string()) });
    let error = mimir().get_tenant_top_metrics(&mut registry, fetched).unwrap_err();
    assert!(matches!(error, Error::Status(429)));
    let labels = vec![pair("target", "querier")];
    assert_eq!(registry.counter("external_request_failures_total", &labels), Some(1));
}

#[test]
fn unanswered_and_unreadable_top_metrics_are_not_counted_as_refused() {
    let mut registry = Registry::new();
    let m = mimir();
    let unanswered: Result<Reply<Response>, String> = Err("reset".to_string());
    assert!(matches!(
        m.get_tenant_top_metrics(&mut registry, unanswered),
        Err(Error::Request(detail)) if detail == "reset"
    ));
    let unreadable: Result<Reply<Response>, String> =
        Ok(Reply { status: 200, payload: Err("missing field `labels`".to_string()) });
    assert!(matches!(
        m.get_tenant_top_metrics(&mut registry, unreadable),
        Err(Error::Payload(detail)) if detail == "missing field `labels`"
    ));
    let labels = vec![pair("target", "querier")];
    assert_eq!(registry.counter("external_request_failures_total", &labels), None);
}
