//! What is reported about requests to other systems and about runs of the
//! analyzer.

use crate::metrics::registry::{MetricKind, Observation, Registry, SeriesKey};
use crate::metrics::{clock_elapsed, clock_now, label, Status};
use std::time::Instant;
use vstd::prelude::*;
use vstd::string::StringExecFns;

verus! {

/// A system that requests go to.
#[derive(Debug, Clone, Copy, PartialEq, Eq, Structural)]
pub enum Target {
    StoreGateway,
    Querier,
    Grafana,
}

impl Target {
    /// The label value that stands for this system.
    pub open spec fn label(&self) -> Seq<char> {
        match self {
            Target::StoreGateway => "store-gateway"@,
            Target::Querier => "querier"@,
            Target::Grafana => "grafana"@,
        }
    }

    /// The label value that stands for this system.
    pub fn to_string(&self) -> (text: String)
        ensures
            text@ == self.label(),
    {
        match self {
            Target::StoreGateway => String::from_str("store-gateway"),
            Target::Querier => String::from_str("querier"),
            Target::Grafana => String::from_str("grafana"),
        }
    }
}

/// A subcommand of the analyzer.
#[derive(Debug, Clone, Copy, PartialEq, Eq, Structural)]
pub enum Command {
    AnalyzeGrafana,
    AnalyzePrometheus,
}

impl Command {
    /// The label value that stands for this subcommand.
    pub open spec fn label(&self) -> Seq<char> {
        match self {
            Command::AnalyzeGrafana => "analyze_grafana"@,
            Command::AnalyzePrometheus => "analyze_prometheus"@,
        }
    }

    /// The label value that stands for this subcommand.
    pub fn to_string(&self) -> (text: String)
        ensures
            text@ == self.label(),
    {
        match self {
            Command::AnalyzeGrafana => String::from_str("analyze_grafana"),
            Command::AnalyzePrometheus => String::from_str("analyze_prometheus"),
        }
    }
}

/// The key of the counter of failed requests to `target`.
pub open spec fn request_failure_key(target: Target) -> SeriesKey {
    SeriesKey {
        name: "external_request_failures_total"@,
        labels: seq![("target"@, target.label())],
    }
}

/// The key of the counter of runs of `command` that ended with `status`.
pub open spec fn execution_key(command: Command, status: Status) -> SeriesKey {
    SeriesKey {
        name: "mimirtool_executions_total"@,
        labels: seq![("command"@, command.label()), ("status"@, status.label())],
    }
}

/// The descriptions that [`register_metrics`] gives.
pub open spec fn descriptions() -> Seq<(MetricKind, Seq<char>, Seq<char>)> {
    seq![
        (
            MetricKind::Counter,
            "external_request_failures_total"@,
            "Total number of failed external requests"@,
        ),
        (
            MetricKind::Histogram,
            "external_request_duration_seconds"@,
            "Duration of external requests in seconds"@,
        ),
        (
            MetricKind::Counter,
            "mimirtool_executions_total"@,
            "Total number of executions of mimirtool"@,
        ),
        (
            MetricKind::Histogram,
            "mimirtool_duration_seconds"@,
            "Duration of mimirtool executions in seconds"@,
        ),
    ]
}

/// Describes the metric names of requests and analyzer runs.
pub(super) fn register_metrics(registry: &mut Registry)
    ensures
        final(registry).descriptions() == old(registry).descriptions() + descriptions(),
        final(registry).gauges() == old(registry).gauges(),
        final(registry).counters() == old(registry).counters(),
        final(registry).observations() == old(registry).observations(),
{
    registry.describe(
        MetricKind::Counter,
        "external_request_failures_total",
        "Total number of failed external requests",
    );
    registry.describe(
        MetricKind::Histogram,
        "external_request_duration_seconds",
        "Duration of external requests in seconds",
    );
    registry.describe(
        MetricKind::Counter,
        "mimirtool_executions_total",
        "Total number of executions of mimirtool",
    );
    registry.describe(
        MetricKind::Histogram,
        "mimirtool_duration_seconds",
        "Duration of mimirtool executions in seconds",
    );
    assert(registry.descriptions() =~= old(registry).descriptions() + descriptions());
}

/// Counts one failed request to `target`.
pub fn record_external_request_failure(registry: &mut Registry, target: Target)
    ensures
        final(registry).counters() == old(registry).counters().insert(
            request_failure_key(target),
            Registry::incremented(
                Registry::count_of(old(registry).counters(), request_failure_key(target)),
            ),
        ),
        final(registry).gauges() == old(registry).gauges(),
        final(registry).descriptions() == old(registry).descriptions(),
        final(registry).observations() == old(registry).observations(),
{
    let mut labels: Vec<(String, String)> = Vec::new();
    let text = target.to_string();
    labels.push(label("target", text.as_str()));
    assert(labels.deep_view() =~= seq![("target"@, target.label())]);
    registry.increment_counter("external_request_failures_total", labels);
}

/// A timer for one request to `target` that starts now.
pub fn external_request_timer(target: Target) -> (timer: Timer)
    ensures
        timer.metric_name() == "external_request_duration_seconds"@,
        timer.labels() == seq![("target"@, target.label())],
{
    let text = target.to_string();
    let timer = Timer::new("external_request_duration_seconds").with_label(
        "target",
        text.as_str(),
    );
    assert(timer.labels() =~= seq![("target"@, target.label())]);
    timer
}

/// Counts one run of `command` that ended with `status`.
pub fn record_mimirtool_execution(registry: &mut Registry, command: Command, status: Status)
    ensures
        final(registry).counters() == old(registry).counters().insert(
            execution_key(command, status),
            Registry::incremented(
                Registry::count_of(old(registry).counters(), execution_key(command, status)),
            ),
        ),
        final(registry).gauges() == old(registry).gauges(),
        final(registry).descriptions() == old(registry).descriptions(),
        final(registry).observations() == old(registry).observations(),
{
    let mut labels: Vec<(String, String)> = Vec::new();
    let command_text = command.to_string();
    let status_text = status.to_string();
    labels.push(label("command", command_text.as_str()));
    labels.push(label("status", status_text.as_str()));
    assert(labels.deep_view() =~= seq![
        ("command"@, command.label()),
        ("status"@, status.label()),
    ]);
    registry.increment_counter("mimirtool_executions_total", labels);
}

/// A timer for one run of `command` that starts now.
pub fn mimirtool_timer(command: Command) -> (timer: Timer)
    ensures
        timer.metric_name() == "mimirtool_duration_seconds"@,
        timer.labels() == seq![("command"@, command.label())],
{
    let text = command.to_string();
    let timer = Timer::new("mimirtool_duration_seconds").with_label("command", text.as_str());
    assert(timer.labels() =~= seq![("command"@, command.label())]);
    timer
}

/// Measures how long a request or a run takes, for the histogram with the
/// given name.
pub struct Timer {
    metric_name: &'static str,
    start_time: Instant,
    labels: Vec<(String, String)>,
}

impl Timer {
    /// The name of the histogram that the measurement is for.
    pub closed spec fn metric_name(&self) -> Seq<char> {
        self.metric_name@
    }

    /// The labels that the measurement will carry, in the order in which
    /// they were added.
    pub closed spec fn labels(&self) -> Seq<(Seq<char>, Seq<char>)> {
        self.labels.deep_view()
    }

    /// The clock reading at which the measurement began.
    pub closed spec fn started(&self) -> Instant {
        self.start_time
    }

    /// A timer without labels that starts now.
    pub fn new(metric_name: &'static str) -> (timer: Timer)
        ensures
            timer.metric_name() == metric_name@,
            timer.labels() == Seq::<(Seq<char>, Seq<char>)>::empty(),
    {
        let timer = Timer { metric_name, start_time: clock_now(), labels: Vec::new() };
        assert(timer.labels.deep_view() =~= Seq::empty());
        timer
    }

    /// The same timer with one more label: it goes on measuring from where
    /// it began.
    pub fn with_label(self, key: &str, value: &str) -> (timer: Timer)
        ensures
            timer.metric_name() == self.metric_name(),
            timer.labels() == self.labels().push((key@, value@)),
            timer.started() == self.started(),
    {
        let mut labels = self.labels;
        labels.push(label(key, value));
        let timer = Timer { metric_name: self.metric_name, start_time: self.start_time, labels };
        assert(timer.labels.deep_view() =~= self.labels.deep_view().push((key@, value@)));
        timer
    }

    /// Ends the measurement: the time since the start, for the histogram
    /// and with the labels of this timer.
    pub fn stop(self) -> (observation: Observation)
        ensures
            observation.name@ == self.metric_name(),
            observation.labels.deep_view() == self.labels(),
            observation.nanoseconds < 1_000_000_000,
    {
        let elapsed = clock_elapsed(&self.start_time);
        Observation {
            name: String::from_str(self.metric_name),
            labels: self.labels,
            seconds: elapsed.0,
            nanoseconds: elapsed.1,
        }
    }
}

} // verus!
