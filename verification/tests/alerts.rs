use mimir_cardinality_analyzer::config::Grafana as GrafanaConfig;
use mimir_cardinality_analyzer::exchange::{Error, Reply};
use mimir_cardinality_analyzer::grafana::alert::{Alert, AlertData, AlertDataModel};
use mimir_cardinality_analyzer::grafana::datasource::{is_bound_to_tenant, Datasource};
use mimir_cardinality_analyzer::grafana::matcher::MetricMatcher;
use mimir_cardinality_analyzer::grafana::Grafana;
use mimir_cardinality_analyzer::metrics::registry::Registry;

fn grafana() -> Grafana {
    Grafana::new(GrafanaConfig::new(
        "https://grafana.example".to_string(),
        "secret".to_string(),
        false,
    ))
}

fn model(expr: Option<&str>) -> AlertDataModel {
    AlertDataModel { expr: expr.map(String::from) }
}

fn query(datasource: Option<&str>, exprs: Vec<Option<&str>>) -> AlertData {
    AlertData {
        datasource_uid: datasource.map(String::from),
        model: exprs.into_iter().map(model).collect(),
    }
}

fn alert(id: usize, data: Vec<AlertData>) -> Alert {
    Alert { id, uid: format!("uid-{}", id), title: format!("alert {}", id), data }
}

fn datasource(id: usize, uid: &str, name: &str) -> Datasource {
    Datasource { id, uid: uid.to_string(), name: name.to_string() }
}

fn label(key: &str, value: &str) -> (String, String) {
    (key.to_string(), value.to_string())
}

#[test]
fn alert_without_any_expression_is_excluded() {
    let listing = vec![
        alert(1, vec![query(Some("ds"), vec![None, None]), query(None, vec![None])]),
        alert(2, vec![query(Some("ds"), vec![Some("up")])]),
    ];
    let working = grafana().working_set(listing);
    assert_eq!(working.len(), 1);
    assert_eq!(working[0].id, 2);
    assert_eq!(working[0].uid, "uid-2");
    assert_eq!(working[0].title, "alert 2");
}

#[test]
fn alert_without_rule_queries_is_excluded() {
    let working = grafana().working_set(vec![alert(1, vec![])]);
    assert!(working.is_empty());
}

#[test]
fn rule_query_without_fragments_is_excluded() {
    let listing = vec![alert(1, vec![query(Some("ds"), vec![]), query(Some("ds"), vec![None])])];
    assert!(grafana().working_set(listing).is_empty());
}

#[test]
fn fragments_without_expression_are_dropped_from_kept_alerts() {
    let listing = vec![alert(
        7,
        vec![
            query(Some("a"), vec![None, Some("up"), None, Some("down")]),
            query(Some("b"), vec![None]),
            query(None, vec![Some("sum(up)")]),
        ],
    )];
    let working = grafana().working_set(listing);
    assert_eq!(working.len(), 1);
    let data = &working[0].data;
    assert_eq!(data.len(), 2);
    assert_eq!(data[0].datasource_uid.as_deref(), Some("a"));
    assert_eq!(data[0].model.len(), 2);
    assert_eq!(data[0].model[0].expr.as_deref(), Some("up"));
    assert_eq!(data[0].model[1].expr.as_deref(), Some("down"));
    assert_eq!(data[1].datasource_uid, None);
    assert_eq!(data[1].model.len(), 1);
    assert_eq!(data[1].model[0].expr.as_deref(), Some("sum(up)"));
}

#[test]
fn working_set_keeps_the_order_of_the_listing() {
    let listing = vec![
        alert(3, vec![query(None, vec![Some("c")])]),
        alert(1, vec![query(None, vec![None])]),
        alert(2, vec![query(None, vec![Some("b")])]),
        alert(5, vec![query(None, vec![Some("a")])]),
    ];
    let ids: Vec<usize> = grafana().working_set(listing).iter().map(|a| a.id).collect();
    assert_eq!(ids, vec![3, 2, 5]);
}

#[test]
fn every_kept_alert_has_a_rule_query_with_an_expression() {
    let listing = vec![
        alert(1, vec![query(None, vec![None]), query(Some("x"), vec![Some("up"), None])]),
        alert(2, vec![]),
        alert(3, vec![query(None, vec![Some("")])]),
    ];
    let working = grafana().working_set(listing);
    assert_eq!(working.len(), 2);
    for kept in &working {
        assert!(!kept.data.is_empty());
        for data in &kept.data {
            assert!(!data.model.is_empty());
            for fragment in &data.model {
                assert!(fragment.expr.is_some());
            }
        }
    }
}

#[test]
fn empty_listing_gives_an_empty_working_set() {
    assert!(grafana().working_set(Vec::new()).is_empty());
}

#[test]
fn excluded_alert_takes_no_part_in_the_search() {
    let g = grafana();
    let datasources = vec![datasource(1, "ds", "Mimir - team-a")];
    let listing = vec![alert(1, vec![query(Some("ds"), vec![None])])];
    let before = g.find_metric_in_alerts(&listing, &datasources, "team-a", "up").unwrap();
    let working = g.working_set(listing);
    let after = g.find_metric_in_alerts(&working, &datasources, "team-a", "up").unwrap();
    assert!(!before);
    assert!(!after);
}

#[test]
fn pruning_does_not_change_what_the_alerts_refer_to() {
    let g = grafana();
    let datasources = vec![datasource(1, "ds", "Mimir - team-a")];
    let listing = vec![
        alert(1, vec![query(Some("ds"), vec![None])]),
        alert(2, vec![query(Some("ds"), vec![None, Some("rate(up[5m])")]), query(None, vec![])]),
    ];
    for metric in ["up", "down", "rate"] {
        let before = g.find_metric_in_alerts(&listing, &datasources, "team-a", metric).unwrap();
        let working = g.working_set(listing.clone());
        let after = g.find_metric_in_alerts(&working, &datasources, "team-a", metric).unwrap();
        assert_eq!(before, after);
    }
}

#[test]
fn tenant_is_associated_with_a_datasource_whose_name_contains_it() {
    assert!(datasource(1, "u", "Mimir - team-a (prod)").belongs_to("team-a"));
    assert!(!datasource(1, "u", "Mimir - team-a (prod)").belongs_to("team-b"));
}

#[test]
fn short_tenant_id_is_associated_with_any_datasource_that_contains_it() {
    assert!(datasource(1, "u", "Mimir - team-a").belongs_to("a"));
    assert!(datasource(1, "u", "Mimir - team-b").belongs_to("a"));
    assert!(datasource(1, "u", "Mimir - team-ab").belongs_to("team-a"));
}

#[test]
fn association_is_by_case_and_position_of_the_text_only() {
    assert!(!datasource(1, "u", "Mimir - Team-A").belongs_to("team-a"));
    assert!(datasource(1, "u", "team-a").belongs_to("team-a"));
    assert!(datasource(1, "u", "anything").belongs_to(""));
    assert!(!datasource(1, "u", "").belongs_to("a"));
}

#[test]
fn rule_query_is_bound_through_the_identifier_of_its_datasource() {
    let datasources =
        vec![datasource(1, "uid-a", "Mimir - team-a"), datasource(2, "uid-b", "Mimir - team-b")];
    assert!(is_bound_to_tenant(&datasources, &Some("uid-a".to_string()), "team-a"));
    assert!(!is_bound_to_tenant(&datasources, &Some("uid-b".to_string()), "team-a"));
    assert!(!is_bound_to_tenant(&datasources, &Some("uid-c".to_string()), "team-a"));
    assert!(!is_bound_to_tenant(&datasources, &None, "team-a"));
    assert!(!is_bound_to_tenant(&Vec::new(), &Some("uid-a".to_string()), "team-a"));
}

#[test]
fn one_of_two_datasources_with_the_same_identifier_suffices() {
    let datasources = vec![datasource(1, "dup", "Loki"), datasource(2, "dup", "Mimir - team-a")];
    assert!(is_bound_to_tenant(&datasources, &Some("dup".to_string()), "team-a"));
}

#[test]
fn metric_is_found_in_an_alert_bound_to_the_tenant() {
    let datasources = vec![datasource(1, "uid-a", "Mimir - team-a (prod)")];
    let alerts = vec![alert(1, vec![query(Some("uid-a"), vec![Some("rate(errors_total[5m]) > 0")])])];
    let g = grafana();
    assert!(g.find_metric_in_alerts(&alerts, &datasources, "team-a", "errors_total").unwrap());
    assert!(!g.find_metric_in_alerts(&alerts, &datasources, "team-a", "errors").unwrap());
    assert!(!g.find_metric_in_alerts(&alerts, &datasources, "team-a", "requests_total").unwrap());
}

#[test]
fn metric_is_not_found_in_an_alert_of_another_tenant() {
    let datasources =
        vec![datasource(1, "uid-a", "Mimir - team-a"), datasource(2, "uid-b", "Mimir - team-b")];
    let alerts = vec![alert(1, vec![query(Some("uid-b"), vec![Some("errors_total > 0")])])];
    let g = grafana();
    assert!(!g.find_metric_in_alerts(&alerts, &datasources, "team-a", "errors_total").unwrap());
    assert!(g.find_metric_in_alerts(&alerts, &datasources, "team-b", "errors_total").unwrap());
}

#[test]
fn metric_is_not_found_in_a_rule_query_without_datasource() {
    let datasources = vec![datasource(1, "uid-a", "Mimir - team-a")];
    let alerts = vec![alert(1, vec![query(None, vec![Some("errors_total > 0")])])];
    assert!(!grafana()
        .find_metric_in_alerts(&alerts, &datasources, "team-a", "errors_total")
        .unwrap());
}

#[test]
fn metric_is_not_found_when_the_datasource_is_unknown() {
    let alerts = vec![alert(1, vec![query(Some("uid-a"), vec![Some("errors_total > 0")])])];
    assert!(!grafana()
        .find_metric_in_alerts(&alerts, &Vec::new(), "team-a", "errors_total")
        .unwrap());
}

#[test]
fn metric_is_found_in_a_later_alert_and_a_later_rule_query() {
    let datasources = vec![datasource(1, "uid-a", "Mimir - team-a")];
    let alerts = vec![
        alert(1, vec![query(Some("uid-a"), vec![Some("up == 0")])]),
        alert(
            2,
            vec![
                query(Some("uid-x"), vec![Some("errors_total")]),
                query(Some("uid-a"), vec![None, Some("down"), Some("sum(errors_total)")]),
            ],
        ),
    ];
    assert!(grafana()
        .find_metric_in_alerts(&alerts, &datasources, "team-a", "errors_total")
        .unwrap());
}

#[test]
fn nothing_is_found_without_alerts() {
    let datasources = vec![datasource(1, "uid-a", "Mimir - team-a")];
    assert!(!grafana().find_metric_in_alerts(&Vec::new(), &datasources, "team-a", "up").unwrap());
}

#[test]
fn substring_association_lets_a_short_tenant_see_the_alerts_of_others() {
    let datasources = vec![datasource(1, "uid-a", "Mimir - team-a")];
    let alerts = vec![alert(1, vec![query(Some("uid-a"), vec![Some("errors_total > 0")])])];
    assert!(grafana().find_metric_in_alerts(&alerts, &datasources, "a", "errors_total").unwrap());
}

#[test]
fn search_fails_when_the_engine_refuses_the_name() {
    let name = "a".repeat(4_000_000);
    let datasources = vec![datasource(1, "uid-a", "Mimir - team-a")];
    let alerts = vec![alert(1, vec![query(Some("uid-a"), vec![Some("up")])])];
    let outcome = grafana().find_metric_in_alerts(&alerts, &datasources, "team-a", &name);
    assert!(!outcome.unwrap_err().message.is_empty());
}

#[test]
fn search_without_candidates_does_not_ask_the_engine() {
    let name = "a".repeat(4_000_000);
    let g = grafana();
    let datasources = vec![datasource(1, "uid-a", "Mimir - team-a")];
    let alerts = vec![alert(1, vec![query(Some("uid-a"), vec![Some("up")])])];
    assert!(!g.find_metric_in_alerts(&Vec::new(), &datasources, "team-a", &name).unwrap());
    assert!(!g.find_metric_in_alerts(&alerts, &datasources, "team-b", &name).unwrap());
    assert!(!g.find_metric_in_alerts(&alerts, &Vec::new(), "team-a", &name).unwrap());
}

#[test]
fn single_alert_is_searched_like_the_listing() {
    let g = grafana();
    let datasources = vec![datasource(1, "uid-a", "Mimir - team-a")];
    let hit = alert(1, vec![query(Some("uid-a"), vec![Some("sum(errors_total)")])]);
    let miss = alert(2, vec![query(Some("uid-b"), vec![Some("sum(errors_total)")])]);
    let matcher = MetricMatcher::new("errors_total");
    assert!(g.alert_contains_metric(&hit, &datasources, "team-a", &matcher).unwrap());
    assert!(!g.alert_contains_metric(&miss, &datasources, "team-a", &matcher).unwrap());
    let both = vec![miss, hit];
    assert!(g.find_metric_in_alerts(&both, &datasources, "team-a", "errors_total").unwrap());
}

#[test]
fn request_for_alert_rules_carries_the_token() {
    let request = grafana().alert_rules_request();
    assert_eq!(request.url, "https://grafana.example/api/v1/provisioning/alert-rules");
    assert_eq!(request.bearer.as_deref(), Some("secret"));
    assert!(request.headers.is_empty());
}

#[test]
fn request_for_datasources_carries_the_token() {
    let request = grafana().datasources_request();
    assert_eq!(request.url, "https://grafana.example/api/datasources");
    assert_eq!(request.bearer.as_deref(), Some("secret"));
    assert!(request.headers.is_empty());
}

#[test]
fn fetched_alert_rules_are_pruned() {
    let mut registry = Registry::new();
    let listing = vec![
        alert(1, vec![query(None, vec![None])]),
        alert(2, vec![query(None, vec![Some("up")])]),
    ];
    let fetched = Ok(Reply { status: 200, payload: Ok(listing) });
    let alerts = grafana().get_alert_rules(&mut registry, fetched).unwrap();
    assert_eq!(alerts.len(), 1);
    assert_eq!(alerts[0].id, 2);
    let labels = vec![label("target", "grafana")];
    assert_eq!(registry.counter("external_request_failures_total", &labels), None);
}

#[test]
fn refused_request_for_alert_rules_is_counted() {
    let mut registry = Registry::new();
    let fetched: Result<Reply<Vec<Alert>>, String> =
        Ok(Reply { status: 403, payload: Err("no body".to_string()) });
    let error = grafana().get_alert_rules(&mut registry, fetched).unwrap_err();
    assert!(matches!(error, Error::Status(403)));
    let labels = vec![label("target", "grafana")];
    assert_eq!(registry.counter("external_request_failures_total", &labels), Some(1));
}

#[test]
fn unanswered_request_for_alert_rules_is_not_counted_as_refused() {
    let mut registry = Registry::new();
    let fetched: Result<Reply<Vec<Alert>>, String> = Err("connection refused".to_string());
    let error = grafana().get_alert_rules(&mut registry, fetched).unwrap_err();
    assert!(matches!(error, Error::Request(detail) if detail == "connection refused"));
    let labels = vec![label("target", "grafana")];
    assert_eq!(registry.counter("external_request_failures_total", &labels), None);
}

#[test]
fn unreadable_alert_rules_are_a_payload_failure() {
    let mut registry = Registry::new();
    let fetched: Result<Reply<Vec<Alert>>, String> =
        Ok(Reply { status: 200, payload: Err("expected value".to_string()) });
    let error = grafana().get_alert_rules(&mut registry, fetched).unwrap_err();
    assert!(matches!(error, Error::Payload(detail) if detail == "expected value"));
}

#[test]
fn fetched_datasources_are_handed_on_as_listed() {
    let mut registry = Registry::new();
    let listing = vec![datasource(1, "a", "A"), datasource(2, "b", "B")];
    let fetched = Ok(Reply { status: 200, payload: Ok(listing) });
    let datasources = grafana().get_datasources(&mut registry, fetched).unwrap();
    assert_eq!(datasources.len(), 2);
    assert_eq!(datasources[0].uid, "a");
    assert_eq!(datasources[1].name, "B");
}

#[test]
fn refused_request_for_datasources_is_counted() {
    let mut registry = Registry::new();
    let fetched: Result<Reply<Vec<Datasource>>, String> =
        Ok(Reply { status: 500, payload: Ok(Vec::new()) });
    let error = grafana().get_datasources(&mut registry, fetched).unwrap_err();
    assert!(matches!(error, Error::Status(500)));
    let labels = vec![label("target", "grafana")];
    assert_eq!(registry.counter("external_request_failures_total", &labels), Some(1));
}
