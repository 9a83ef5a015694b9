//! The classification of a tenant's metrics and the gauges that publish it.

use crate::grafana::alert::{Alert, AlertView};
use crate::grafana::datasource::{Datasource, DatasourceView};
use crate::grafana::matcher::{pattern_accepted, word_pattern, PatternError};
use crate::grafana::{alerts_mention, Grafana};
use crate::metrics::analysis::set_metric;
use crate::metrics::registry::{Registry, SeriesKey};
use crate::metrics::{active_value, metric_active_key};
use crate::text::holds;
use vstd::prelude::*;

verus! {

/// The classification of one metric of one tenant.
#[derive(Debug, Clone)]
pub struct UsageRecord {
    pub tenant: String,
    pub metric: String,
    pub in_use: bool,
}

/// What a [`UsageRecord`] holds.
pub struct UsageRecordView {
    pub tenant: Seq<char>,
    pub metric: Seq<char>,
    pub in_use: bool,
}

impl View for UsageRecord {
    type V = UsageRecordView;

    open spec fn view(&self) -> UsageRecordView {
        UsageRecordView { tenant: self.tenant@, metric: self.metric@, in_use: self.in_use }
    }
}

impl DeepView for UsageRecord {
    type V = UsageRecordView;

    open spec fn deep_view(&self) -> UsageRecordView {
        self@
    }
}

/// Whether a metric is in use: it is when dashboards use it, and also when
/// alert correlation is enabled and an alert of the tenant refers to it.
pub open spec fn usage(in_dashboards: bool, correlation_enabled: bool, in_alerts: bool) -> bool {
    in_dashboards || (correlation_enabled && in_alerts)
}

/// The search finds `metric` in the alerts for `tenant`: the engine accepts
/// the pattern of the metric name, and an alert refers to the metric for the
/// tenant.
pub open spec fn found_in_alerts(
    alerts: Seq<AlertView>,
    datasources: Seq<DatasourceView>,
    tenant: Seq<char>,
    metric: Seq<char>,
) -> bool {
    pattern_accepted(word_pattern(metric)) && alerts_mention(alerts, datasources, tenant, metric)
}

/// The classification of `metric` for `tenant`: in use when the tenant's
/// dashboard usage `used` holds it, and also when alert correlation is
/// enabled and the search finds it in the alerts.
pub open spec fn classification(
    metric: Seq<char>,
    tenant: Seq<char>,
    used: Seq<Seq<char>>,
    alerts: Seq<AlertView>,
    datasources: Seq<DatasourceView>,
    correlation_enabled: bool,
) -> bool {
    usage(
        used.contains(metric),
        correlation_enabled,
        found_in_alerts(alerts, datasources, tenant, metric),
    )
}

/// `in_use` is the classification of `metric` for `tenant`.
pub open spec fn classifies(
    in_use: bool,
    metric: Seq<char>,
    tenant: Seq<char>,
    used: Seq<Seq<char>>,
    alerts: Seq<AlertView>,
    datasources: Seq<DatasourceView>,
    correlation_enabled: bool,
) -> bool {
    in_use == classification(metric, tenant, used, alerts, datasources, correlation_enabled)
}

/// `records` classify the metrics `top` of `tenant`, one record for each
/// metric, in order.
pub open spec fn classify_all(
    records: Seq<UsageRecordView>,
    top: Seq<Seq<char>>,
    tenant: Seq<char>,
    used: Seq<Seq<char>>,
    alerts: Seq<AlertView>,
    datasources: Seq<DatasourceView>,
    correlation_enabled: bool,
) -> bool {
    &&& records.len() == top.len()
    &&& forall|k: int|
        0 <= k < records.len() ==> {
            &&& (#[trigger] records[k]).tenant == tenant
            &&& records[k].metric == top[k]
            &&& classifies(
                records[k].in_use,
                top[k],
                tenant,
                used,
                alerts,
                datasources,
                correlation_enabled,
            )
        }
}

/// The gauges `gauges` after `records` were published, one after the other.
pub open spec fn published(gauges: Map<SeriesKey, u64>, records: Seq<UsageRecordView>) -> Map<
    SeriesKey,
    u64,
>
    decreases records.len(),
{
    if records.len() == 0 {
        gauges
    } else {
        published(gauges, records.drop_last()).insert(
            metric_active_key(records.last().metric, records.last().tenant),
            active_value(records.last().in_use),
        )
    }
}

/// Decides whether a metric is in use, given whether dashboards use it and
/// what the search through the alerts gave. A search that failed counts as
/// one that found nothing.
pub fn decide_usage(
    in_dashboards: bool,
    correlation_enabled: bool,
    correlation: &Result<bool, PatternError>,
) -> (in_use: bool)
    ensures
        in_use == usage(
            in_dashboards,
            correlation_enabled,
            *correlation matches Ok(found) && found,
        ),
{
    let in_alerts = match correlation {
        Ok(found) => *found,
        Err(_) => false,
    };
    in_dashboards || (correlation_enabled && in_alerts)
}

/// Classifies the metric `metric_name` of the tenant `tenant_id`: in use
/// when the tenant's dashboard usage `used` holds it; else, with alert
/// correlation enabled, in use when an alert refers to it for the tenant.
/// With alert correlation disabled the alerts are not looked at. A metric
/// name whose pattern the engine refuses is found in no alert.
pub fn classify_metric(
    grafana: &Grafana,
    metric_name: &str,
    tenant_id: &str,
    used: &Vec<String>,
    alerts: &Vec<Alert>,
    datasources: &Vec<Datasource>,
    correlation_enabled: bool,
) -> (in_use: bool)
    ensures
        in_use == classification(
            metric_name@,
            tenant_id@,
            used.deep_view(),
            alerts.deep_view(),
            datasources.deep_view(),
            correlation_enabled,
        ),
        used.deep_view().contains(metric_name@) ==> in_use,
        !correlation_enabled ==> in_use == used.deep_view().contains(metric_name@),
{
    let in_dashboards = holds(used, metric_name);
    if in_dashboards || !correlation_enabled {
        return in_dashboards;
    }
    let correlation = grafana.find_metric_in_alerts(alerts, datasources, tenant_id, metric_name);
    decide_usage(in_dashboards, correlation_enabled, &correlation)
}

/// Classifies the metrics `top` of the tenant `tenant_id` and publishes each
/// classification as a gauge, in order.
pub fn classify_tenant(
    grafana: &Grafana,
    registry: &mut Registry,
    tenant_id: &str,
    top: &Vec<String>,
    used: &Vec<String>,
    alerts: &Vec<Alert>,
    datasources: &Vec<Datasource>,
    correlation_enabled: bool,
) -> (records: Vec<UsageRecord>)
    ensures
        classify_all(
            records.deep_view(),
            top.deep_view(),
            tenant_id@,
            used.deep_view(),
            alerts.deep_view(),
            datasources.deep_view(),
            correlation_enabled,
        ),
        final(registry).gauges() == published(old(registry).gauges(), records.deep_view()),
        final(registry).counters() == old(registry).counters(),
        final(registry).descriptions() == old(registry).descriptions(),
        final(registry).observations() == old(registry).observations(),
{
    let mut records: Vec<UsageRecord> = Vec::new();
    let mut k: usize = 0;
    assert(records.deep_view() =~= Seq::<UsageRecordView>::empty());
    while k < top.len()
        invariant
            k <= top.len(),
            classify_all(
                records.deep_view(),
                top.deep_view().take(k as int),
                tenant_id@,
                used.deep_view(),
                alerts.deep_view(),
                datasources.deep_view(),
                correlation_enabled,
            ),
            registry.gauges() == published(old(registry).gauges(), records.deep_view()),
            registry.counters() == old(registry).counters(),
            registry.descriptions() == old(registry).descriptions(),
            registry.observations() == old(registry).observations(),
        decreases top.len() - k,
    {
        let ghost before = records.deep_view();
        let in_use = classify_metric(
            grafana,
            top[k].as_str(),
            tenant_id,
            used,
            alerts,
            datasources,
            correlation_enabled,
        );
        set_metric(registry, top[k].as_str(), tenant_id, in_use);
        let record = UsageRecord {
            tenant: tenant_id.to_owned(),
            metric: top[k].clone(),
            in_use,
        };
        records.push(record);
        proof {
            assert(records.deep_view() =~= before.push(record@));
            assert(records.deep_view().drop_last() =~= before);
            assert(top.deep_view().take(k + 1) =~= top.deep_view().take(k as int).push(top[k as int]@));
        }
        k += 1;
    }
    assert(top.deep_view().take(top.len() as int) =~= top.deep_view());
    records
}

/// Dashboard usage suffices: a metric that the tenant's dashboards use is
/// classified as in use, whatever the alerts say and whether or not they
/// count.
pub proof fn lemma_dashboard_usage_suffices(
    in_use: bool,
    metric: Seq<char>,
    tenant: Seq<char>,
    used: Seq<Seq<char>>,
    alerts: Seq<AlertView>,
    datasources: Seq<DatasourceView>,
    correlation_enabled: bool,
)
    requires
        classifies(in_use, metric, tenant, used, alerts, datasources, correlation_enabled),
        used.contains(metric),
    ensures
        in_use,
{
}

/// With alert correlation disabled, a metric is in use exactly when the
/// tenant's dashboards use it: what classifies it under some alerts and
/// datasources classifies it under any others.
pub proof fn lemma_disabled_correlation_ignores_alerts(
    in_use: bool,
    metric: Seq<char>,
    tenant: Seq<char>,
    used: Seq<Seq<char>>,
    alerts: Seq<AlertView>,
    datasources: Seq<DatasourceView>,
    other_alerts: Seq<AlertView>,
    other_datasources: Seq<DatasourceView>,
)
    requires
        classifies(in_use, metric, tenant, used, alerts, datasources, false),
    ensures
        in_use == used.contains(metric),
        classifies(in_use, metric, tenant, used, other_alerts, other_datasources, false),
{
}

/// With alert correlation disabled, the published classification of a
/// tenant's top metrics is the test of each metric against the tenant's
/// dashboard usage, and nothing else.
pub proof fn lemma_disabled_correlation_records(
    records: Seq<UsageRecordView>,
    top: Seq<Seq<char>>,
    tenant: Seq<char>,
    used: Seq<Seq<char>>,
    alerts: Seq<AlertView>,
    datasources: Seq<DatasourceView>,
)
    requires
        classify_all(records, top, tenant, used, alerts, datasources, false),
    ensures
        records =~= Seq::new(
            top.len(),
            |k: int|
                UsageRecordView { tenant, metric: top[k], in_use: used.contains(top[k]) },
        ),
{
    assert forall|k: int| 0 <= k < records.len() implies records[k] == (UsageRecordView {
        tenant,
        metric: top[k],
        in_use: used.contains(top[k]),
    }) by {
        assert(records[k].tenant == tenant);
    }
}

/// The classification of a tenant's metrics is determined by what it is
/// made from: two lists of records that classify the same metrics are the
/// same list.
pub proof fn lemma_classification_is_determined(
    first: Seq<UsageRecordView>,
    second: Seq<UsageRecordView>,
    top: Seq<Seq<char>>,
    tenant: Seq<char>,
    used: Seq<Seq<char>>,
    alerts: Seq<AlertView>,
    datasources: Seq<DatasourceView>,
    correlation_enabled: bool,
)
    requires
        classify_all(first, top, tenant, used, alerts, datasources, correlation_enabled),
        classify_all(second, top, tenant, used, alerts, datasources, correlation_enabled),
    ensures
        first =~= second,
{
    assert forall|k: int| 0 <= k < first.len() implies first[k] == second[k] by {
        assert(first[k].tenant == tenant);
        assert(second[k].tenant == tenant);
    }
}

/// A metric that only an alert refers to is in use: with alert correlation
/// enabled, a metric outside the dashboard usage that the search finds in
/// the alerts is classified as in use.
pub proof fn lemma_alert_reference_suffices(
    in_use: bool,
    metric: Seq<char>,
    tenant: Seq<char>,
    used: Seq<Seq<char>>,
    alerts: Seq<AlertView>,
    datasources: Seq<DatasourceView>,
)
    requires
        classifies(in_use, metric, tenant, used, alerts, datasources, true),
        found_in_alerts(alerts, datasources, tenant, metric),
    ensures
        in_use,
{
}

/// A metric that no alert can refer to, because there are no alerts, is in
/// use exactly when the tenant's dashboards use it.
pub proof fn lemma_without_alerts(
    in_use: bool,
    metric: Seq<char>,
    tenant: Seq<char>,
    used: Seq<Seq<char>>,
    datasources: Seq<DatasourceView>,
    correlation_enabled: bool,
)
    requires
        classifies(in_use, metric, tenant, used, Seq::empty(), datasources, correlation_enabled),
    ensures
        in_use == used.contains(metric),
{
}

/// The key of the gauge that a record is published under.
pub open spec fn record_key(record: UsageRecordView) -> SeriesKey {
    metric_active_key(record.metric, record.tenant)
}

/// Publishing removes no series: a gauge that was there is there
/// afterwards.
pub proof fn lemma_published_keeps(
    gauges: Map<SeriesKey, u64>,
    records: Seq<UsageRecordView>,
    key: SeriesKey,
)
    requires
        gauges.dom().contains(key),
    ensures
        published(gauges, records).dom().contains(key),
    decreases records.len(),
{
    if records.len() > 0 {
        lemma_published_keeps(gauges, records.drop_last(), key);
    }
}

/// Publishing leaves every gauge as it was that is not the gauge of a
/// published record.
pub proof fn lemma_published_elsewhere(
    gauges: Map<SeriesKey, u64>,
    records: Seq<UsageRecordView>,
    key: SeriesKey,
)
    requires
        forall|k: int| 0 <= k < records.len() ==> record_key(#[trigger] records[k]) != key,
    ensures
        published(gauges, records).dom().contains(key) <==> gauges.dom().contains(key),
        published(gauges, records)[key] == gauges[key],
    decreases records.len(),
{
    if records.len() > 0 {
        let init = records.drop_last();
        assert forall|k: int| 0 <= k < init.len() implies record_key(#[trigger] init[k]) != key by {
            assert(init[k] == records[k]);
        }
        lemma_published_elsewhere(gauges, init, key);
        assert(record_key(records[records.len() - 1]) != key);
    }
}

/// A published record that no later record overrides decides the gauge of
/// its metric and tenant: 1 for in use, 0 for unused.
pub proof fn lemma_published_value(
    gauges: Map<SeriesKey, u64>,
    records: Seq<UsageRecordView>,
    k: int,
)
    requires
        0 <= k < records.len(),
        forall|later: int|
            k < later < records.len() ==> record_key(#[trigger] records[later]) != record_key(
                records[k],
            ),
    ensures
        published(gauges, records).dom().contains(record_key(records[k])),
        published(gauges, records)[record_key(records[k])] == active_value(records[k].in_use),
    decreases records.len(),
{
    if k < records.len() - 1 {
        let init = records.drop_last();
        assert(init[k] == records[k]);
        assert forall|later: int| k < later < init.len() implies record_key(
            #[trigger] init[later],
        ) != record_key(init[k]) by {
            assert(init[later] == records[later]);
        }
        lemma_published_value(gauges, init, k);
        assert(record_key(records[records.len() - 1]) != record_key(records[k]));
    }
}

} // verus!
