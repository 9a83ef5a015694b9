//! The dashboard and alerting system: its alert rules and how they refer to
//! the metrics of a tenant.

pub mod alert;
pub mod datasource;
pub mod laws;
pub mod matcher;

use crate::config::Grafana as GrafanaConfig;
use crate::exchange::{settle, settled, was_refused, Error, ErrorView, Reply, Request, RequestView};
use crate::grafana::alert::{
    working_alerts, Alert, AlertData, AlertDataModel, AlertDataModelView, AlertDataView, AlertView,
};
use crate::grafana::datasource::{bound_to_tenant, is_bound_to_tenant, Datasource, DatasourceView};
use crate::grafana::matcher::{
    any_hit, mentions_metric, pattern_accepted, word_pattern, MetricMatcher, PatternError,
};
use crate::metrics::external::{record_external_request_failure, request_failure_key, Target};
use crate::metrics::registry::{counted, Registry};
use vstd::prelude::*;
use vstd::string::StringExecFns;

verus! {

/// The expressions that the fragments of one rule query carry, in order.
pub open spec fn model_expressions(models: Seq<AlertDataModelView>) -> Seq<Seq<char>>
    decreases models.len(),
{
    if models.len() == 0 {
        Seq::empty()
    } else {
        let before = model_expressions(models.drop_last());
        match models.last().expr {
            Some(expression) => before.push(expression),
            None => before,
        }
    }
}

/// The expressions of one rule query that count for `tenant`: all of them
/// when the query is bound to the tenant, none otherwise.
pub open spec fn query_candidates(
    query: AlertDataView,
    datasources: Seq<DatasourceView>,
    tenant: Seq<char>,
) -> Seq<Seq<char>> {
    if bound_to_tenant(datasources, query.datasource_uid, tenant) {
        model_expressions(query.model)
    } else {
        Seq::empty()
    }
}

/// The expressions of the rule queries `data` that count for `tenant`, in
/// order.
pub open spec fn alert_candidates(
    data: Seq<AlertDataView>,
    datasources: Seq<DatasourceView>,
    tenant: Seq<char>,
) -> Seq<Seq<char>>
    decreases data.len(),
{
    if data.len() == 0 {
        Seq::empty()
    } else {
        alert_candidates(data.drop_last(), datasources, tenant) + query_candidates(
            data.last(),
            datasources,
            tenant,
        )
    }
}

/// The expressions of all `alerts` that count for `tenant`, in the order of
/// the listing.
pub open spec fn candidate_expressions(
    alerts: Seq<AlertView>,
    datasources: Seq<DatasourceView>,
    tenant: Seq<char>,
) -> Seq<Seq<char>>
    decreases alerts.len(),
{
    if alerts.len() == 0 {
        Seq::empty()
    } else {
        candidate_expressions(alerts.drop_last(), datasources, tenant) + alert_candidates(
            alerts.last().data,
            datasources,
            tenant,
        )
    }
}

/// Some text of `texts` mentions `metric` as a whole token.
pub open spec fn some_mentions(texts: Seq<Seq<char>>, metric: Seq<char>) -> bool {
    exists|c: int| 0 <= c < texts.len() && mentions_metric(#[trigger] texts[c], metric)
}

/// `alert` refers to `metric` for `tenant`: an expression of one of its rule
/// queries that are bound to the tenant mentions the metric.
pub open spec fn alert_mentions(
    alert: AlertView,
    datasources: Seq<DatasourceView>,
    tenant: Seq<char>,
    metric: Seq<char>,
) -> bool {
    some_mentions(alert_candidates(alert.data, datasources, tenant), metric)
}

/// Some alert of `alerts` refers to `metric` for `tenant`.
pub open spec fn alerts_mention(
    alerts: Seq<AlertView>,
    datasources: Seq<DatasourceView>,
    tenant: Seq<char>,
    metric: Seq<char>,
) -> bool {
    some_mentions(candidate_expressions(alerts, datasources, tenant), metric)
}

/// Appends to `out` the expressions that the fragments `models` carry.
fn push_model_expressions(models: &Vec<AlertDataModel>, out: &mut Vec<String>)
    ensures
        final(out).deep_view() == old(out).deep_view() + model_expressions(models.deep_view()),
{
    let mut k: usize = 0;
    while k < models.len()
        invariant
            k <= models.len(),
            out.deep_view() == old(out).deep_view() + model_expressions(
                models.deep_view().take(k as int),
            ),
        decreases models.len() - k,
    {
        let ghost before = out.deep_view();
        proof {
            let upto = models.deep_view().take(k + 1);
            assert(upto.drop_last() =~= models.deep_view().take(k as int));
            assert(upto.last() == models[k as int]@);
        }
        match &models[k].expr {
            Some(expression) => {
                out.push(expression.clone());
                assert(out.deep_view() =~= before.push(expression@));
            },
            None => {},
        }
        k += 1;
    }
    assert(models.deep_view().take(models.len() as int) =~= models.deep_view());
}

/// Appends to `out` the expressions of `alert` that count for `tenant_id`.
fn push_alert_candidates(
    alert: &Alert,
    datasources: &Vec<Datasource>,
    tenant_id: &str,
    out: &mut Vec<String>,
)
    ensures
        final(out).deep_view() == old(out).deep_view() + alert_candidates(
            alert@.data,
            datasources.deep_view(),
            tenant_id@,
        ),
{
    let mut j: usize = 0;
    while j < alert.data.len()
        invariant
            j <= alert.data.len(),
            out.deep_view() == old(out).deep_view() + alert_candidates(
                alert@.data.take(j as int),
                datasources.deep_view(),
                tenant_id@,
            ),
        decreases alert.data.len() - j,
    {
        let query = &alert.data[j];
        proof {
            let upto = alert@.data.take(j + 1);
            assert(upto.drop_last() =~= alert@.data.take(j as int));
            assert(upto.last() == query@);
        }
        if is_bound_to_tenant(datasources, &query.datasource_uid, tenant_id) {
            push_model_expressions(&query.model, out);
        }
        j += 1;
    }
    assert(alert@.data.take(alert.data.len() as int) =~= alert@.data);
}

/// The fragments of `models` that carry an expression, in order.
fn retain_models(models: &Vec<AlertDataModel>) -> (kept: Vec<AlertDataModel>)
    ensures
        kept.deep_view() == models.deep_view().filter(|m: AlertDataModelView| m.has_expression()),
{
    let ghost carries = |m: AlertDataModelView| m.has_expression();
    let mut kept: Vec<AlertDataModel> = Vec::new();
    let mut k: usize = 0;
    proof {
        reveal(Seq::filter);
        assert(models.deep_view().take(0) =~= Seq::empty());
    }
    while k < models.len()
        invariant
            k <= models.len(),
            carries == |m: AlertDataModelView| m.has_expression(),
            kept.deep_view() == models.deep_view().take(k as int).filter(carries),
        decreases models.len() - k,
    {
        let ghost before = kept.deep_view();
        proof {
            let upto = models.deep_view().take(k as int);
            assert(models.deep_view().take(k + 1) =~= upto.push(models[k as int]@));
            upto.lemma_filter_push(models[k as int]@, carries);
        }
        match &models[k].expr {
            Some(expression) => {
                kept.push(AlertDataModel { expr: Some(expression.clone()) });
                assert(kept.deep_view() =~= before.push(models[k as int]@));
            },
            None => {},
        }
        k += 1;
    }
    assert(models.deep_view().take(models.len() as int) =~= models.deep_view());
    kept
}

/// The rule queries of `data` that keep a fragment, each pruned, in order.
fn retain_data(data: &Vec<AlertData>) -> (kept: Vec<AlertData>)
    ensures
        kept.deep_view() == data.deep_view().map_values(|d: AlertDataView| d.pruned()).filter(
            |d: AlertDataView| d.model.len() > 0,
        ),
{
    let ghost prune = |d: AlertDataView| d.pruned();
    let ghost keeps = |d: AlertDataView| d.model.len() > 0;
    let mut kept: Vec<AlertData> = Vec::new();
    let mut j: usize = 0;
    proof {
        reveal(Seq::filter);
        assert(data.deep_view().take(0).map_values(prune) =~= Seq::empty());
    }
    while j < data.len()
        invariant
            j <= data.len(),
            prune == |d: AlertDataView| d.pruned(),
            keeps == |d: AlertDataView| d.model.len() > 0,
            kept.deep_view() == data.deep_view().take(j as int).map_values(prune).filter(keeps),
        decreases data.len() - j,
    {
        let ghost before = kept.deep_view();
        let query = &data[j];
        let models = retain_models(&query.model);
        proof {
            let upto = data.deep_view().take(j as int);
            assert(data.deep_view().take(j + 1).map_values(prune) =~= upto.map_values(prune).push(
                query@.pruned(),
            ));
            upto.map_values(prune).lemma_filter_push(query@.pruned(), keeps);
        }
        if models.len() > 0 {
            let reference = match &query.datasource_uid {
                Some(uid) => Some(uid.clone()),
                None => None,
            };
            let pruned = AlertData { datasource_uid: reference, model: models };
            assert(pruned@ == query@.pruned());
            kept.push(pruned);
            assert(kept.deep_view() =~= before.push(query@.pruned()));
        }
        j += 1;
    }
    assert(data.deep_view().take(data.len() as int) =~= data.deep_view());
    kept
}

/// The request that lists the provisioned alert rules.
pub open spec fn alert_rules_request(config: GrafanaConfig) -> RequestView {
    RequestView {
        url: config.url@ + "/api/v1/provisioning/alert-rules"@,
        headers: Seq::empty(),
        bearer: Some(config.token@),
    }
}

/// The request that lists the datasources.
pub open spec fn datasources_request(config: GrafanaConfig) -> RequestView {
    RequestView {
        url: config.url@ + "/api/datasources"@,
        headers: Seq::empty(),
        bearer: Some(config.token@),
    }
}

/// A list of alerts, or the reason why there is none, as plain values.
pub open spec fn alerts_view(outcome: Result<Vec<Alert>, Error>) -> Result<
    Seq<AlertView>,
    ErrorView,
> {
    match outcome {
        Ok(alerts) => Ok(alerts.deep_view()),
        Err(error) => Err(error@),
    }
}

/// A list of datasources, or the reason why there is none, as plain values.
pub open spec fn datasources_view(outcome: Result<Vec<Datasource>, Error>) -> Result<
    Seq<DatasourceView>,
    ErrorView,
> {
    match outcome {
        Ok(datasources) => Ok(datasources.deep_view()),
        Err(error) => Err(error@),
    }
}

/// The working alert set that the answer to the listing request gives.
pub open spec fn fetched_alerts(fetched: Result<Reply<Vec<Alert>>, String>) -> Result<
    Seq<AlertView>,
    ErrorView,
> {
    match settled(fetched) {
        Ok(listing) => Ok(working_alerts(listing.deep_view())),
        Err(error) => Err(error),
    }
}

/// The datasources that the answer to the listing request gives.
pub open spec fn fetched_datasources(fetched: Result<Reply<Vec<Datasource>>, String>) -> Result<
    Seq<DatasourceView>,
    ErrorView,
> {
    match settled(fetched) {
        Ok(listing) => Ok(listing.deep_view()),
        Err(error) => Err(error),
    }
}

/// The dashboard and alerting system as the analysis sees it.
pub struct Grafana {
    config: GrafanaConfig,
}

impl Grafana {
    /// The settings that this instance was made with.
    pub closed spec fn config(&self) -> GrafanaConfig {
        self.config
    }

    /// The dashboard system reached with `config`.
    pub fn new(config: GrafanaConfig) -> (grafana: Grafana)
        ensures
            grafana.config() == config,
    {
        Grafana { config }
    }

    /// The request that lists the provisioned alert rules.
    pub fn alert_rules_request(&self) -> (request: Request)
        ensures
            request@ == alert_rules_request(self.config()),
    {
        let url = self.config.url.clone().concat("/api/v1/provisioning/alert-rules");
        let request = Request {
            url,
            headers: Vec::new(),
            bearer: Some(self.config.token.clone()),
        };
        assert(request.headers.deep_view() =~= Seq::empty());
        request
    }

    /// The request that lists the datasources.
    pub fn datasources_request(&self) -> (request: Request)
        ensures
            request@ == datasources_request(self.config()),
    {
        let url = self.config.url.clone().concat("/api/datasources");
        let request = Request {
            url,
            headers: Vec::new(),
            bearer: Some(self.config.token.clone()),
        };
        assert(request.headers.deep_view() =~= Seq::empty());
        request
    }

    /// The working alert set that the answer to the listing request gives.
    /// A refused request is counted.
    pub fn get_alert_rules(
        &self,
        registry: &mut Registry,
        fetched: Result<Reply<Vec<Alert>>, String>,
    ) -> (outcome: Result<Vec<Alert>, Error>)
        ensures
            alerts_view(outcome) == fetched_alerts(fetched),
            final(registry).counters() == (if was_refused(fetched) {
                counted(old(registry).counters(), request_failure_key(Target::Grafana))
            } else {
                old(registry).counters()
            }),
            final(registry).gauges() == old(registry).gauges(),
            final(registry).descriptions() == old(registry).descriptions(),
            final(registry).observations() == old(registry).observations(),
    {
        match settle(fetched) {
            Ok(listing) => Ok(self.working_set(listing)),
            Err(error) => {
                match error {
                    Error::Status(_) => record_external_request_failure(registry, Target::Grafana),
                    _ => {},
                }
                Err(error)
            },
        }
    }

    /// The datasources that the answer to the listing request gives. A
    /// refused request is counted.
    pub fn get_datasources(
        &self,
        registry: &mut Registry,
        fetched: Result<Reply<Vec<Datasource>>, String>,
    ) -> (outcome: Result<Vec<Datasource>, Error>)
        ensures
            datasources_view(outcome) == fetched_datasources(fetched),
            final(registry).counters() == (if was_refused(fetched) {
                counted(old(registry).counters(), request_failure_key(Target::Grafana))
            } else {
                old(registry).counters()
            }),
            final(registry).gauges() == old(registry).gauges(),
            final(registry).descriptions() == old(registry).descriptions(),
            final(registry).observations() == old(registry).observations(),
    {
        match settle(fetched) {
            Ok(listing) => Ok(listing),
            Err(error) => {
                match error {
                    Error::Status(_) => record_external_request_failure(registry, Target::Grafana),
                    _ => {},
                }
                Err(error)
            },
        }
    }

    /// The working alert set of a `listing` of provisioned alert rules:
    /// fragments without an expression are dropped, then rule queries
    /// without a fragment, then alerts without a rule query. What is kept
    /// stays in the order of the listing.
    pub fn working_set(&self, listing: Vec<Alert>) -> (alerts: Vec<Alert>)
        ensures
            alerts.deep_view() == working_alerts(listing.deep_view()),
    {
        let ghost prune = |a: AlertView| a.pruned();
        let ghost keeps = |a: AlertView| a.data.len() > 0;
        let mut alerts: Vec<Alert> = Vec::new();
        let mut i: usize = 0;
        proof {
            reveal(Seq::filter);
            assert(listing.deep_view().take(0).map_values(prune) =~= Seq::empty());
        }
        while i < listing.len()
            invariant
                i <= listing.len(),
                prune == |a: AlertView| a.pruned(),
                keeps == |a: AlertView| a.data.len() > 0,
                alerts.deep_view() == listing.deep_view().take(i as int).map_values(prune).filter(
                    keeps,
                ),
            decreases listing.len() - i,
        {
            let ghost before = alerts.deep_view();
            let alert = &listing[i];
            let data = retain_data(&alert.data);
            proof {
                let upto = listing.deep_view().take(i as int);
                assert(listing.deep_view().take(i + 1).map_values(prune) =~= upto.map_values(
                    prune,
                ).push(alert@.pruned()));
                upto.map_values(prune).lemma_filter_push(alert@.pruned(), keeps);
            }
            if data.len() > 0 {
                let pruned = Alert {
                    id: alert.id,
                    uid: alert.uid.clone(),
                    title: alert.title.clone(),
                    data,
                };
                assert(pruned@ == alert@.pruned());
                alerts.push(pruned);
                assert(alerts.deep_view() =~= before.push(alert@.pruned()));
            }
            i += 1;
        }
        assert(listing.deep_view().take(listing.len() as int) =~= listing.deep_view());
        alerts
    }

    /// Whether `alert` refers to the metric of `matcher` for the tenant
    /// `tenant_id`. When no expression of the alert counts for the tenant,
    /// the answer is no; else this fails exactly when the engine refuses the
    /// pattern.
    pub fn alert_contains_metric(
        &self,
        alert: &Alert,
        datasources: &Vec<Datasource>,
        tenant_id: &str,
        matcher: &MetricMatcher,
    ) -> (outcome: Result<bool, PatternError>)
        ensures
            outcome is Ok <==> alert_candidates(
                alert@.data,
                datasources.deep_view(),
                tenant_id@,
            ).len() == 0 || pattern_accepted(matcher.pattern()),
            outcome matches Ok(found) ==> found == alert_mentions(
                alert@,
                datasources.deep_view(),
                tenant_id@,
                matcher.metric(),
            ),
    {
        let mut candidates: Vec<String> = Vec::new();
        push_alert_candidates(alert, datasources, tenant_id, &mut candidates);
        assert(candidates.deep_view() =~= alert_candidates(
            alert@.data,
            datasources.deep_view(),
            tenant_id@,
        ));
        decide_mention(matcher, &candidates)
    }

    /// Whether some alert of `alerts` refers to the metric `metric_name` for
    /// the tenant `tenant_id`: whether an expression of a rule query that is
    /// bound to one of the tenant's datasources mentions the metric as a
    /// whole token. When no expression counts for the tenant, the answer is
    /// no; else this fails exactly when the engine refuses the pattern of the
    /// metric name.
    pub fn find_metric_in_alerts(
        &self,
        alerts: &Vec<Alert>,
        datasources: &Vec<Datasource>,
        tenant_id: &str,
        metric_name: &str,
    ) -> (outcome: Result<bool, PatternError>)
        ensures
            outcome is Ok <==> candidate_expressions(
                alerts.deep_view(),
                datasources.deep_view(),
                tenant_id@,
            ).len() == 0 || pattern_accepted(word_pattern(metric_name@)),
            outcome matches Ok(found) ==> found == alerts_mention(
                alerts.deep_view(),
                datasources.deep_view(),
                tenant_id@,
                metric_name@,
            ),
    {
        let matcher = MetricMatcher::new(metric_name);
        let mut candidates: Vec<String> = Vec::new();
        let mut i: usize = 0;
        assert(candidates.deep_view() =~= Seq::<Seq<char>>::empty());
        while i < alerts.len()
            invariant
                i <= alerts.len(),
                candidates.deep_view() == candidate_expressions(
                    alerts.deep_view().take(i as int),
                    datasources.deep_view(),
                    tenant_id@,
                ),
            decreases alerts.len() - i,
        {
            proof {
                let upto = alerts.deep_view().take(i + 1);
                assert(upto.drop_last() =~= alerts.deep_view().take(i as int));
                assert(upto.last() == alerts[i as int]@);
            }
            push_alert_candidates(&alerts[i], datasources, tenant_id, &mut candidates);
            i += 1;
        }
        assert(alerts.deep_view().take(alerts.len() as int) =~= alerts.deep_view());
        decide_mention(&matcher, &candidates)
    }
}

/// Whether some text of `candidates` mentions the metric of `matcher`.
/// Without candidates the answer is no; else this fails exactly when the
/// engine refuses the pattern.
fn decide_mention(matcher: &MetricMatcher, candidates: &Vec<String>) -> (outcome: Result<
    bool,
    PatternError,
>)
    ensures
        outcome is Ok <==> candidates.deep_view().len() == 0 || pattern_accepted(
            matcher.pattern(),
        ),
        outcome matches Ok(found) ==> found == some_mentions(
            candidates.deep_view(),
            matcher.metric(),
        ),
{
    match matcher.match_each(candidates) {
        Ok(hits) => {
            let found = any_hit(&hits);
            proof {
                if found {
                    let c = choose|c: int| 0 <= c < hits@.len() && #[trigger] hits@[c];
                    assert(candidates.deep_view()[c] == candidates@[c]@);
                    assert(mentions_metric(candidates.deep_view()[c], matcher.metric()));
                }
                if some_mentions(candidates.deep_view(), matcher.metric()) {
                    let c = choose|c: int|
                        0 <= c < candidates.deep_view().len() && mentions_metric(
                            #[trigger] candidates.deep_view()[c],
                            matcher.metric(),
                        );
                    assert(candidates.deep_view()[c] == candidates@[c]@);
                    assert(hits@[c]);
                }
            }
            Ok(found)
        },
        Err(error) => Err(error),
    }
}

} // verus!
