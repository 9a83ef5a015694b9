//! What is reported about the analysis cycles and their results.

use crate::metrics::registry::{MetricKind, Registry, SeriesKey};
use crate::metrics::{active_value, label, metric_active_key, Status};
use vstd::prelude::*;
use vstd::string::StringExecFns;

verus! {

/// What failed: the cycle as a whole, or the work for one tenant.
#[derive(Debug, Clone)]
pub enum TaskFailure {
    Cycle,
    Tenant(String),
}

impl TaskFailure {
    /// The label value that stands for the failed task.
    pub open spec fn label(&self) -> Seq<char> {
        match self {
            TaskFailure::Cycle => "cycle"@,
            TaskFailure::Tenant(_) => "tenant"@,
        }
    }

    /// The key of the error counter of this failure.
    pub open spec fn key(&self) -> SeriesKey {
        match self {
            TaskFailure::Cycle => cycle_error_key(),
            TaskFailure::Tenant(tenant) => tenant_error_key(tenant@),
        }
    }

    /// The label value that stands for the failed task.
    pub fn to_string(&self) -> (text: String)
        ensures
            text@ == self.label(),
    {
        match self {
            TaskFailure::Cycle => String::from_str("cycle"),
            TaskFailure::Tenant(_) => String::from_str("tenant"),
        }
    }
}

/// The key of the counter of failed cycles.
pub open spec fn cycle_error_key() -> SeriesKey {
    SeriesKey { name: "analysis_errors_total"@, labels: seq![("task"@, "cycle"@)] }
}

/// The key of the counter of failures for `tenant`.
pub open spec fn tenant_error_key(tenant: Seq<char>) -> SeriesKey {
    SeriesKey {
        name: "analysis_errors_total"@,
        labels: seq![("task"@, "tenant"@), ("tenant"@, tenant)],
    }
}

/// The key of the counter of cycles that ended with `status`.
pub open spec fn cycle_key(status: Status) -> SeriesKey {
    SeriesKey { name: "analysis_cycles_total"@, labels: seq![("status"@, status.label())] }
}

/// The key of the gauge of discovered tenants.
pub open spec fn tenants_discovered_key() -> SeriesKey {
    SeriesKey { name: "tenants_discovered_total"@, labels: Seq::empty() }
}

/// The key of the gauge of the last successful cycle's time.
pub open spec fn last_success_key() -> SeriesKey {
    SeriesKey { name: "last_successful_analysis_timestamp"@, labels: Seq::empty() }
}

/// The gauge value for a clock reading: the seconds since the epoch, and
/// zero for a reading before it.
pub open spec fn timestamp_value(timestamp: i64) -> u64 {
    if timestamp < 0 {
        0
    } else {
        timestamp as u64
    }
}

/// The descriptions that [`register_metrics`] gives.
pub open spec fn descriptions() -> Seq<(MetricKind, Seq<char>, Seq<char>)> {
    seq![
        (MetricKind::Counter, "analysis_errors_total"@, "Total number of analysis errors"@),
        (MetricKind::Counter, "analysis_cycles_total"@, "Total number of analysis cycles"@),
        (
            MetricKind::Gauge,
            "tenants_discovered_total"@,
            "Total number of tenants discovered during tenant discovery"@,
        ),
        (
            MetricKind::Gauge,
            "last_successful_analysis_timestamp"@,
            "Timestamp of the last successful analysis cycle"@,
        ),
        (
            MetricKind::Gauge,
            "metric_active"@,
            "Tracks whether a given metric is active (1) or inactive (0)"@,
        ),
    ]
}

/// Describes the metric names of the analysis.
pub(super) fn register_metrics(registry: &mut Registry)
    ensures
        final(registry).descriptions() == old(registry).descriptions() + descriptions(),
        final(registry).gauges() == old(registry).gauges(),
        final(registry).counters() == old(registry).counters(),
        final(registry).observations() == old(registry).observations(),
{
    registry.describe(
        MetricKind::Counter,
        "analysis_errors_total",
        "Total number of analysis errors",
    );
    registry.describe(
        MetricKind::Counter,
        "analysis_cycles_total",
        "Total number of analysis cycles",
    );
    registry.describe(
        MetricKind::Gauge,
        "tenants_discovered_total",
        "Total number of tenants discovered during tenant discovery",
    );
    registry.describe(
        MetricKind::Gauge,
        "last_successful_analysis_timestamp",
        "Timestamp of the last successful analysis cycle",
    );
    registry.describe(
        MetricKind::Gauge,
        "metric_active",
        "Tracks whether a given metric is active (1) or inactive (0)",
    );
    assert(registry.descriptions() =~= old(registry).descriptions() + descriptions());
}

/// Counts one failure: of the cycle, or of the work for one tenant.
pub fn record_analysis_error(registry: &mut Registry, failure: TaskFailure)
    ensures
        final(registry).counters() == old(registry).counters().insert(
            failure.key(),
            Registry::incremented(Registry::count_of(old(registry).counters(), failure.key())),
        ),
        final(registry).gauges() == old(registry).gauges(),
        final(registry).descriptions() == old(registry).descriptions(),
        final(registry).observations() == old(registry).observations(),
{
    let mut labels: Vec<(String, String)> = Vec::new();
    match failure {
        TaskFailure::Cycle => {
            labels.push(label("task", "cycle"));
            assert(labels.deep_view() =~= seq![("task"@, "cycle"@)]);
        },
        TaskFailure::Tenant(tenant_id) => {
            labels.push(label("task", "tenant"));
            labels.push(label("tenant", tenant_id.as_str()));
            assert(labels.deep_view() =~= seq![("task"@, "tenant"@), ("tenant"@, tenant_id@)]);
        },
    }
    registry.increment_counter("analysis_errors_total", labels);
}

/// Counts one cycle that ended with `status`.
pub fn record_analysis_cycle(registry: &mut Registry, status: Status)
    ensures
        final(registry).counters() == old(registry).counters().insert(
            cycle_key(status),
            Registry::incremented(Registry::count_of(old(registry).counters(), cycle_key(status))),
        ),
        final(registry).gauges() == old(registry).gauges(),
        final(registry).descriptions() == old(registry).descriptions(),
        final(registry).observations() == old(registry).observations(),
{
    let mut labels: Vec<(String, String)> = Vec::new();
    let text = status.to_string();
    labels.push(label("status", text.as_str()));
    assert(labels.deep_view() =~= seq![("status"@, status.label())]);
    registry.increment_counter("analysis_cycles_total", labels);
}

/// Reports how many tenants were discovered.
pub fn record_tenants_discovered(registry: &mut Registry, count: u64)
    ensures
        final(registry).gauges() == old(registry).gauges().insert(tenants_discovered_key(), count),
        final(registry).counters() == old(registry).counters(),
        final(registry).descriptions() == old(registry).descriptions(),
        final(registry).observations() == old(registry).observations(),
{
    let labels: Vec<(String, String)> = Vec::new();
    assert(labels.deep_view() =~= Seq::empty());
    registry.set_gauge("tenants_discovered_total", labels, count);
}

/// Reports `timestamp`, a clock reading in seconds since the Unix epoch, as
/// the time of the last successful cycle. A reading before the epoch is
/// reported as the epoch.
pub fn record_successful_analysis(registry: &mut Registry, timestamp: i64)
    ensures
        final(registry).gauges() == old(registry).gauges().insert(
            last_success_key(),
            timestamp_value(timestamp),
        ),
        final(registry).counters() == old(registry).counters(),
        final(registry).descriptions() == old(registry).descriptions(),
        final(registry).observations() == old(registry).observations(),
{
    let labels: Vec<(String, String)> = Vec::new();
    assert(labels.deep_view() =~= Seq::empty());
    let value: u64 = if timestamp < 0 {
        0
    } else {
        timestamp as u64
    };
    registry.set_gauge("last_successful_analysis_timestamp", labels, value);
}

/// Publishes the classification of one metric of one tenant: the gauge of
/// that metric and tenant becomes 1 when `active`, 0 otherwise. Every other
/// series keeps its value.
pub fn set_metric(registry: &mut Registry, metric_name: &str, tenant_id: &str, active: bool)
    ensures
        final(registry).gauges() == old(registry).gauges().insert(
            metric_active_key(metric_name@, tenant_id@),
            active_value(active),
        ),
        final(registry).counters() == old(registry).counters(),
        final(registry).descriptions() == old(registry).descriptions(),
        final(registry).observations() == old(registry).observations(),
{
    let mut labels: Vec<(String, String)> = Vec::new();
    labels.push(label("metric", metric_name));
    labels.push(label("tenant", tenant_id));
    assert(labels.deep_view() =~= seq![("metric"@, metric_name@), ("tenant"@, tenant_id@)]);
    let value: u64 = if active {
        1
    } else {
        0
    };
    registry.set_gauge("metric_active", labels, value);
}

} // verus!
