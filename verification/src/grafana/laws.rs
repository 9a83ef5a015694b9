//! What holds of the search through the alerts, stated over alerts, rule
//! queries and fragments.

use crate::grafana::alert::{working_alerts, AlertDataModelView, AlertDataView, AlertView};
use crate::grafana::datasource::{bound_to_tenant, DatasourceView};
use crate::grafana::matcher::mentions_metric;
use crate::grafana::{
    alert_candidates, alert_mentions, alerts_mention, candidate_expressions, model_expressions,
    query_candidates, some_mentions,
};
use vstd::prelude::*;

verus! {

/// The rule query `query` refers to `metric` for `tenant`: it is bound to
/// the tenant, and the expression of one of its fragments mentions the
/// metric as a whole token.
pub open spec fn query_mentions(
    query: AlertDataView,
    datasources: Seq<DatasourceView>,
    tenant: Seq<char>,
    metric: Seq<char>,
) -> bool {
    &&& bound_to_tenant(datasources, query.datasource_uid, tenant)
    &&& exists|k: int|
        0 <= k < query.model.len() && fragment_mentions(#[trigger] query.model[k], metric)
}

/// The fragment carries an expression that mentions `metric` as a whole
/// token.
pub open spec fn fragment_mentions(fragment: AlertDataModelView, metric: Seq<char>) -> bool {
    fragment.expr matches Some(expression) && mentions_metric(expression, metric)
}

/// A text is in a concatenation exactly when it is in one of the parts.
proof fn lemma_concat_contains(a: Seq<Seq<char>>, b: Seq<Seq<char>>, e: Seq<char>)
    ensures
        (a + b).contains(e) <==> a.contains(e) || b.contains(e),
{
    if a.contains(e) {
        let i = choose|i: int| 0 <= i < a.len() && a[i] == e;
        assert((a + b)[i] == e);
    }
    if b.contains(e) {
        let i = choose|i: int| 0 <= i < b.len() && b[i] == e;
        assert((a + b)[a.len() + i] == e);
    }
    if (a + b).contains(e) {
        let i = choose|i: int| 0 <= i < (a + b).len() && (a + b)[i] == e;
        if i < a.len() {
            assert(a[i] == e);
        } else {
            assert(b[i - a.len()] == e);
        }
    }
}

/// Some text of a list mentions the metric exactly when the list holds a
/// text that mentions it.
proof fn lemma_some_mentions(texts: Seq<Seq<char>>, metric: Seq<char>)
    ensures
        some_mentions(texts, metric) <==> exists|e: Seq<char>|
            #[trigger] texts.contains(e) && mentions_metric(e, metric),
{
    if some_mentions(texts, metric) {
        let c = choose|c: int|
            0 <= c < texts.len() && mentions_metric(#[trigger] texts[c], metric);
        assert(texts.contains(texts[c]));
    }
    if exists|e: Seq<char>| #[trigger] texts.contains(e) && mentions_metric(e, metric) {
        let e = choose|e: Seq<char>| #[trigger] texts.contains(e) && mentions_metric(e, metric);
        let c = choose|c: int| 0 <= c < texts.len() && texts[c] == e;
        assert(mentions_metric(texts[c], metric));
    }
}

/// The expressions of fragments are the expressions that some fragment
/// carries.
proof fn lemma_model_expressions(models: Seq<AlertDataModelView>, e: Seq<char>)
    ensures
        model_expressions(models).contains(e) <==> exists|k: int|
            0 <= k < models.len() && (#[trigger] models[k]).expr == Some(e),
    decreases models.len(),
{
    if models.len() > 0 {
        let init = models.drop_last();
        lemma_model_expressions(init, e);
        let before = model_expressions(init);
        if model_expressions(models).contains(e) {
            if before.contains(e) {
                let k = choose|k: int| 0 <= k < init.len() && (#[trigger] init[k]).expr == Some(e);
                assert(models[k].expr == Some(e));
            } else {
                let c = choose|c: int|
                    0 <= c < model_expressions(models).len() && model_expressions(models)[c] == e;
                if c < before.len() {
                    assert(before[c] == e);
                }
                assert(models[models.len() - 1].expr == Some(e));
            }
        }
        if exists|k: int| 0 <= k < models.len() && (#[trigger] models[k]).expr == Some(e) {
            let k = choose|k: int| 0 <= k < models.len() && (#[trigger] models[k]).expr == Some(e);
            if k < models.len() - 1 {
                assert(init[k].expr == Some(e));
                let c = choose|c: int| 0 <= c < before.len() && before[c] == e;
                assert(model_expressions(models)[c] == e);
            } else {
                assert(model_expressions(models)[before.len() as int] == e);
            }
        }
    }
}

/// The candidates of rule queries are the candidates of some rule query.
proof fn lemma_alert_candidates(
    data: Seq<AlertDataView>,
    datasources: Seq<DatasourceView>,
    tenant: Seq<char>,
    e: Seq<char>,
)
    ensures
        alert_candidates(data, datasources, tenant).contains(e) <==> exists|j: int|
            0 <= j < data.len() && query_candidates(
                #[trigger] data[j],
                datasources,
                tenant,
            ).contains(e),
    decreases data.len(),
{
    if data.len() > 0 {
        let init = data.drop_last();
        lemma_alert_candidates(init, datasources, tenant, e);
        lemma_concat_contains(
            alert_candidates(init, datasources, tenant),
            query_candidates(data.last(), datasources, tenant),
            e,
        );
        if alert_candidates(data, datasources, tenant).contains(e) {
            if alert_candidates(init, datasources, tenant).contains(e) {
                let j = choose|j: int|
                    0 <= j < init.len() && query_candidates(
                        #[trigger] init[j],
                        datasources,
                        tenant,
                    ).contains(e);
                assert(query_candidates(data[j], datasources, tenant).contains(e));
            } else {
                assert(query_candidates(data[data.len() - 1], datasources, tenant).contains(e));
            }
        }
        if exists|j: int|
            0 <= j < data.len() && query_candidates(
                #[trigger] data[j],
                datasources,
                tenant,
            ).contains(e) {
            let j = choose|j: int|
                0 <= j < data.len() && query_candidates(
                    #[trigger] data[j],
                    datasources,
                    tenant,
                ).contains(e);
            if j < data.len() - 1 {
                assert(query_candidates(init[j], datasources, tenant).contains(e));
            }
        }
    }
}

/// The candidates of alerts are the candidates of some alert.
proof fn lemma_candidate_expressions(
    alerts: Seq<AlertView>,
    datasources: Seq<DatasourceView>,
    tenant: Seq<char>,
    e: Seq<char>,
)
    ensures
        candidate_expressions(alerts, datasources, tenant).contains(e) <==> exists|i: int|
            0 <= i < alerts.len() && alert_candidates(
                (#[trigger] alerts[i]).data,
                datasources,
                tenant,
            ).contains(e),
    decreases alerts.len(),
{
    if alerts.len() > 0 {
        let init = alerts.drop_last();
        lemma_candidate_expressions(init, datasources, tenant, e);
        lemma_concat_contains(
            candidate_expressions(init, datasources, tenant),
            alert_candidates(alerts.last().data, datasources, tenant),
            e,
        );
        if candidate_expressions(alerts, datasources, tenant).contains(e) {
            if candidate_expressions(init, datasources, tenant).contains(e) {
                let i = choose|i: int|
                    0 <= i < init.len() && alert_candidates(
                        (#[trigger] init[i]).data,
                        datasources,
                        tenant,
                    ).contains(e);
                assert(alert_candidates(alerts[i].data, datasources, tenant).contains(e));
            } else {
                assert(alert_candidates(
                    alerts[alerts.len() - 1].data,
                    datasources,
                    tenant,
                ).contains(e));
            }
        }
        if exists|i: int|
            0 <= i < alerts.len() && alert_candidates(
                (#[trigger] alerts[i]).data,
                datasources,
                tenant,
            ).contains(e) {
            let i = choose|i: int|
                0 <= i < alerts.len() && alert_candidates(
                    (#[trigger] alerts[i]).data,
                    datasources,
                    tenant,
                ).contains(e);
            if i < alerts.len() - 1 {
                assert(alert_candidates(init[i].data, datasources, tenant).contains(e));
            }
        }
    }
}

/// Alerts refer to a metric for a tenant exactly when one of them does.
pub proof fn lemma_alerts_mention(
    alerts: Seq<AlertView>,
    datasources: Seq<DatasourceView>,
    tenant: Seq<char>,
    metric: Seq<char>,
)
    ensures
        alerts_mention(alerts, datasources, tenant, metric) <==> exists|i: int|
            0 <= i < alerts.len() && alert_mentions(
                #[trigger] alerts[i],
                datasources,
                tenant,
                metric,
            ),
{
    let all = candidate_expressions(alerts, datasources, tenant);
    lemma_some_mentions(all, metric);
    if alerts_mention(alerts, datasources, tenant, metric) {
        let e = choose|e: Seq<char>| #[trigger] all.contains(e) && mentions_metric(e, metric);
        lemma_candidate_expressions(alerts, datasources, tenant, e);
        let i = choose|i: int|
            0 <= i < alerts.len() && alert_candidates(
                (#[trigger] alerts[i]).data,
                datasources,
                tenant,
            ).contains(e);
        lemma_some_mentions(alert_candidates(alerts[i].data, datasources, tenant), metric);
        assert(alert_mentions(alerts[i], datasources, tenant, metric));
    }
    if exists|i: int|
        0 <= i < alerts.len() && alert_mentions(#[trigger] alerts[i], datasources, tenant, metric) {
        let i = choose|i: int|
            0 <= i < alerts.len() && alert_mentions(
                #[trigger] alerts[i],
                datasources,
                tenant,
                metric,
            );
        let own = alert_candidates(alerts[i].data, datasources, tenant);
        lemma_some_mentions(own, metric);
        let e = choose|e: Seq<char>| #[trigger] own.contains(e) && mentions_metric(e, metric);
        lemma_candidate_expressions(alerts, datasources, tenant, e);
        assert(all.contains(e));
    }
}

/// An alert refers to a metric for a tenant exactly when one of its rule
/// queries is bound to the tenant and carries an expression that mentions
/// the metric as a whole token.
pub proof fn lemma_alert_mentions(
    alert: AlertView,
    datasources: Seq<DatasourceView>,
    tenant: Seq<char>,
    metric: Seq<char>,
)
    ensures
        alert_mentions(alert, datasources, tenant, metric) <==> exists|j: int|
            0 <= j < alert.data.len() && query_mentions(
                #[trigger] alert.data[j],
                datasources,
                tenant,
                metric,
            ),
{
    let own = alert_candidates(alert.data, datasources, tenant);
    lemma_some_mentions(own, metric);
    if alert_mentions(alert, datasources, tenant, metric) {
        let e = choose|e: Seq<char>| #[trigger] own.contains(e) && mentions_metric(e, metric);
        lemma_alert_candidates(alert.data, datasources, tenant, e);
        let j = choose|j: int|
            0 <= j < alert.data.len() && query_candidates(
                #[trigger] alert.data[j],
                datasources,
                tenant,
            ).contains(e);
        let query = alert.data[j];
        assert(bound_to_tenant(datasources, query.datasource_uid, tenant)) by {
            if !bound_to_tenant(datasources, query.datasource_uid, tenant) {
                assert(query_candidates(query, datasources, tenant) =~= Seq::empty());
            }
        }
        lemma_model_expressions(query.model, e);
        let k = choose|k: int| 0 <= k < query.model.len() && (#[trigger] query.model[k]).expr == Some(e);
        assert(fragment_mentions(query.model[k], metric));
        assert(query_mentions(alert.data[j], datasources, tenant, metric));
    }
    if exists|j: int|
        0 <= j < alert.data.len() && query_mentions(
            #[trigger] alert.data[j],
            datasources,
            tenant,
            metric,
        ) {
        let j = choose|j: int|
            0 <= j < alert.data.len() && query_mentions(
                #[trigger] alert.data[j],
                datasources,
                tenant,
                metric,
            );
        let query = alert.data[j];
        let k = choose|k: int|
            0 <= k < query.model.len() && fragment_mentions(#[trigger] query.model[k], metric);
        let e = query.model[k].expr->0;
        lemma_model_expressions(query.model, e);
        assert(query_candidates(query, datasources, tenant).contains(e));
        lemma_alert_candidates(alert.data, datasources, tenant, e);
        assert(own.contains(e));
    }
}

/// Without any alert, no metric is referred to.
pub proof fn lemma_no_alerts_mention_nothing(
    datasources: Seq<DatasourceView>,
    tenant: Seq<char>,
    metric: Seq<char>,
)
    ensures
        !alerts_mention(Seq::empty(), datasources, tenant, metric),
{
}

/// Dropping the fragments without an expression drops no expression.
proof fn lemma_retained_models_expressions(models: Seq<AlertDataModelView>)
    ensures
        model_expressions(models.filter(|m: AlertDataModelView| m.has_expression()))
            == model_expressions(models),
    decreases models.len(),
{
    let carries = |m: AlertDataModelView| m.has_expression();
    reveal(Seq::filter);
    if models.len() > 0 {
        let init = models.drop_last();
        lemma_retained_models_expressions(init);
        assert(models =~= init.push(models.last()));
        init.lemma_filter_push(models.last(), carries);
        if carries(models.last()) {
            let kept = init.filter(carries).push(models.last());
            assert(kept.drop_last() =~= init.filter(carries));
            assert(kept.last() == models.last());
        }
    }
}

/// A pruned rule query has the candidates of the rule query.
proof fn lemma_pruned_query_candidates(
    query: AlertDataView,
    datasources: Seq<DatasourceView>,
    tenant: Seq<char>,
)
    ensures
        query_candidates(query.pruned(), datasources, tenant) == query_candidates(
            query,
            datasources,
            tenant,
        ),
        query.pruned().model.len() == 0 ==> query_candidates(query, datasources, tenant)
            == Seq::<Seq<char>>::empty(),
{
    lemma_retained_models_expressions(query.model);
}

/// The retained rule queries of an alert have the candidates of all its
/// rule queries.
proof fn lemma_retained_data_candidates(
    data: Seq<AlertDataView>,
    datasources: Seq<DatasourceView>,
    tenant: Seq<char>,
)
    ensures
        alert_candidates(
            data.map_values(|d: AlertDataView| d.pruned()).filter(
                |d: AlertDataView| d.model.len() > 0,
            ),
            datasources,
            tenant,
        ) == alert_candidates(data, datasources, tenant),
    decreases data.len(),
{
    let prune = |d: AlertDataView| d.pruned();
    let keeps = |d: AlertDataView| d.model.len() > 0;
    reveal(Seq::filter);
    if data.len() > 0 {
        let init = data.drop_last();
        let last = data.last();
        lemma_retained_data_candidates(init, datasources, tenant);
        lemma_pruned_query_candidates(last, datasources, tenant);
        assert(data.map_values(prune) =~= init.map_values(prune).push(last.pruned()));
        init.map_values(prune).lemma_filter_push(last.pruned(), keeps);
        if keeps(last.pruned()) {
            let kept = init.map_values(prune).filter(keeps).push(last.pruned());
            assert(kept.drop_last() =~= init.map_values(prune).filter(keeps));
            assert(kept.last() == last.pruned());
        } else {
            assert(alert_candidates(data, datasources, tenant) =~= alert_candidates(
                init,
                datasources,
                tenant,
            ));
        }
    } else {
        assert(data.map_values(prune) =~= Seq::empty());
    }
}

/// The working alert set has the candidates of the listing: what is dropped
/// from the listing carries no expression, so it takes no part in the search
/// for a metric.
pub proof fn lemma_working_alerts_candidates(
    alerts: Seq<AlertView>,
    datasources: Seq<DatasourceView>,
    tenant: Seq<char>,
)
    ensures
        candidate_expressions(working_alerts(alerts), datasources, tenant)
            == candidate_expressions(alerts, datasources, tenant),
    decreases alerts.len(),
{
    let prune = |a: AlertView| a.pruned();
    let keeps = |a: AlertView| a.data.len() > 0;
    reveal(Seq::filter);
    if alerts.len() > 0 {
        let init = alerts.drop_last();
        let last = alerts.last();
        lemma_working_alerts_candidates(init, datasources, tenant);
        lemma_retained_data_candidates(last.data, datasources, tenant);
        assert(alerts.map_values(prune) =~= init.map_values(prune).push(last.pruned()));
        init.map_values(prune).lemma_filter_push(last.pruned(), keeps);
        if keeps(last.pruned()) {
            let kept = init.map_values(prune).filter(keeps).push(last.pruned());
            assert(kept.drop_last() =~= init.map_values(prune).filter(keeps));
            assert(kept.last() == last.pruned());
        } else {
            assert(last.pruned().data =~= Seq::empty());
            assert(candidate_expressions(alerts, datasources, tenant) =~= candidate_expressions(
                init,
                datasources,
                tenant,
            ));
        }
    } else {
        assert(alerts.map_values(prune) =~= Seq::empty());
    }
}

/// The working alert set refers to a metric for a tenant exactly when the
/// listing does.
pub proof fn lemma_working_alerts_mention(
    alerts: Seq<AlertView>,
    datasources: Seq<DatasourceView>,
    tenant: Seq<char>,
    metric: Seq<char>,
)
    ensures
        alerts_mention(working_alerts(alerts), datasources, tenant, metric) == alerts_mention(
            alerts,
            datasources,
            tenant,
            metric,
        ),
{
    lemma_working_alerts_candidates(alerts, datasources, tenant);
}

} // verus!
