//! What the instance reports about itself and about the metrics it
//! classifies.

pub mod analysis;
pub mod external;
pub mod http;
pub mod process;
pub mod registry;

use crate::metrics::registry::{same_elsewhere, MetricKind, Observation, Registry, SeriesKey};
use std::time::Instant;
use vstd::prelude::*;
use vstd::string::StringExecFns;

verus! {

/// A point in time of the monotonic clock, which is carried and never
/// looked into.
#[verifier::external_type_specification]
#[verifier::external_body]
pub struct ExInstant(std::time::Instant);

/// `Instant::now` of the standard library: the present reading of the
/// monotonic clock. Nothing is claimed about it.
#[verifier::external_body]
pub(crate) fn clock_now() -> Instant {
    Instant::now()
}

/// `Instant::elapsed` of the standard library: the time that went by since
/// `start`, as whole seconds and the nanoseconds beyond them, which are
/// fewer than a second.
#[verifier::external_body]
pub(crate) fn clock_elapsed(start: &Instant) -> (elapsed: (u64, u32))
    ensures
        elapsed.1 < 1_000_000_000,
{
    let duration = start.elapsed();
    (duration.as_secs(), duration.subsec_nanos())
}

/// A label with the given key and value.
pub(crate) fn label(key: &str, value: &str) -> (pair: (String, String))
    ensures
        pair.deep_view() == (key@, value@),
{
    (String::from_str(key), String::from_str(value))
}

/// How a counted step ended.
#[derive(Debug, Clone, Copy, PartialEq, Eq, Structural)]
pub enum Status {
    Success,
    Failure,
}

impl Status {
    /// The label value that stands for this status.
    pub open spec fn label(&self) -> Seq<char> {
        match self {
            Status::Success => "success"@,
            Status::Failure => "failure"@,
        }
    }

    /// The label value that stands for this status.
    pub fn to_string(&self) -> (text: String)
        ensures
            text@ == self.label(),
    {
        match self {
            Status::Success => String::from_str("success"),
            Status::Failure => String::from_str("failure"),
        }
    }
}

/// The key of the gauge that tells whether `metric` of `tenant` is in use.
pub open spec fn metric_active_key(metric: Seq<char>, tenant: Seq<char>) -> SeriesKey {
    SeriesKey { name: "metric_active"@, labels: seq![("metric"@, metric), ("tenant"@, tenant)] }
}

/// The gauge value that stands for a classification: 1 for in use, 0 for
/// unused.
pub open spec fn active_value(active: bool) -> u64 {
    if active {
        1
    } else {
        0
    }
}

/// The descriptions that [`register_metrics`] gives itself, before those of
/// the parts.
pub open spec fn descriptions() -> Seq<(MetricKind, Seq<char>, Seq<char>)> {
    seq![
        (
            MetricKind::Gauge,
            "metric_active"@,
            "Tracks whether a given metric is active (1) or inactive (0)"@,
        ),
        (MetricKind::Histogram, "task_duration_seconds"@, "Duration of a task in seconds"@),
    ]
}

/// Describes every metric name of the instance, and records the process
/// start time and the build `version`.
pub fn register_metrics(registry: &mut Registry, version: &str)
    ensures
        final(registry).descriptions() == old(registry).descriptions() + descriptions()
            + analysis::descriptions() + external::descriptions() + http::descriptions()
            + process::descriptions(),
        final(registry).counters() == old(registry).counters(),
        final(registry).observations() == old(registry).observations(),
        final(registry).gauges().dom().contains(process::build_info_key(version@)),
        final(registry).gauges()[process::build_info_key(version@)] == 1,
        same_elsewhere(
            old(registry).gauges(),
            final(registry).gauges(),
            process::start_time_key(),
            process::build_info_key(version@),
        ),
{
    registry.describe(
        MetricKind::Gauge,
        "metric_active",
        "Tracks whether a given metric is active (1) or inactive (0)",
    );
    registry.describe(
        MetricKind::Histogram,
        "task_duration_seconds",
        "Duration of a task in seconds",
    );
    assert(registry.descriptions() =~= old(registry).descriptions() + descriptions());
    analysis::register_metrics(registry);
    external::register_metrics(registry);
    http::register_metrics(registry);
    process::register_metrics(registry, version);
}

/// Publishes the classification of one metric of one tenant: the gauge of
/// that metric and tenant becomes 1 when `active`, 0 otherwise. Every other
/// series keeps its value.
pub fn set_metric(registry: &mut Registry, metric_name: &str, tenant_id: &str, active: bool)
    ensures
        final(registry).gauges() == old(registry).gauges().insert(
            metric_active_key(metric_name@, tenant_id@),
            active_value(active),
        ),
        final(registry).counters() == old(registry).counters(),
        final(registry).descriptions() == old(registry).descriptions(),
        final(registry).observations() == old(registry).observations(),
{
    analysis::set_metric(registry, metric_name, tenant_id, active)
}

/// Measures how long a task takes.
pub struct Timer {
    start_time: Instant,
    labels: Vec<(String, String)>,
}

impl Timer {
    /// The labels that the measurement will carry, in the order in which
    /// they were added.
    pub closed spec fn labels(&self) -> Seq<(Seq<char>, Seq<char>)> {
        self.labels.deep_view()
    }

    /// The clock reading at which the measurement began.
    pub closed spec fn started(&self) -> Instant {
        self.start_time
    }

    /// A timer without labels that starts now.
    pub fn new() -> (timer: Timer)
        ensures
            timer.labels() == Seq::<(Seq<char>, Seq<char>)>::empty(),
    {
        let timer = Timer { start_time: clock_now(), labels: Vec::new() };
        assert(timer.labels.deep_view() =~= Seq::empty());
        timer
    }

    /// The same timer with one more label: it goes on measuring from where
    /// it began.
    pub fn with_label(self, key: &str, value: &str) -> (timer: Timer)
        ensures
            timer.labels() == self.labels().push((key@, value@)),
            timer.started() == self.started(),
    {
        let mut labels = self.labels;
        labels.push(label(key, value));
        let timer = Timer { start_time: self.start_time, labels };
        assert(timer.labels.deep_view() =~= self.labels.deep_view().push((key@, value@)));
        timer
    }

    /// Ends the measurement: the time since the start, for the histogram of
    /// task durations, with the labels of this timer.
    pub fn stop(self) -> (observation: Observation)
        ensures
            observation.name@ == "task_duration_seconds"@,
            observation.labels.deep_view() == self.labels(),
            observation.nanoseconds < 1_000_000_000,
    {
        let elapsed = clock_elapsed(&self.start_time);
        Observation {
            name: String::from_str("task_duration_seconds"),
            labels: self.labels,
            seconds: elapsed.0,
            nanoseconds: elapsed.1,
        }
    }
}

impl Default for Timer {
    fn default() -> (timer: Timer)
        ensures
            timer.labels() == Seq::<(Seq<char>, Seq<char>)>::empty(),
    {
        Timer::new()
    }
}

} // verus!
