//! What is reported about the requests that the instance serves.

use crate::metrics::registry::{MetricKind, Observation, Registry, SeriesKey};
use crate::metrics::{clock_elapsed, clock_now, label};
use std::time::Instant;
use vstd::prelude::*;
use vstd::string::StringExecFns;

verus! {

/// The key of the counter of requests to `endpoint`.
pub open spec fn request_key(endpoint: Seq<char>) -> SeriesKey {
    SeriesKey { name: "http_requests_total"@, labels: seq![("endpoint"@, endpoint)] }
}

/// The descriptions that [`register_metrics`] gives.
pub open spec fn descriptions() -> Seq<(MetricKind, Seq<char>, Seq<char>)> {
    seq![
        (
            MetricKind::Counter,
            "http_requests_total"@,
            "Total number of HTTP requests per endpoint"@,
        ),
        (
            MetricKind::Histogram,
            "http_request_duration_seconds"@,
            "Duration of HTTP requests in seconds per endpoint"@,
        ),
    ]
}

/// Describes the metric names of served requests.
pub(super) fn register_metrics(registry: &mut Registry)
    ensures
        final(registry).descriptions() == old(registry).descriptions() + descriptions(),
        final(registry).gauges() == old(registry).gauges(),
        final(registry).counters() == old(registry).counters(),
        final(registry).observations() == old(registry).observations(),
{
    registry.describe(
        MetricKind::Counter,
        "http_requests_total",
        "Total number of HTTP requests per endpoint",
    );
    registry.describe(
        MetricKind::Histogram,
        "http_request_duration_seconds",
        "Duration of HTTP requests in seconds per endpoint",
    );
    assert(registry.descriptions() =~= old(registry).descriptions() + descriptions());
}

/// Counts one served request to `endpoint`.
pub fn record_http_request(registry: &mut Registry, endpoint: &str)
    ensures
        final(registry).counters() == old(registry).counters().insert(
            request_key(endpoint@),
            Registry::incremented(
                Registry::count_of(old(registry).counters(), request_key(endpoint@)),
            ),
        ),
        final(registry).gauges() == old(registry).gauges(),
        final(registry).descriptions() == old(registry).descriptions(),
        final(registry).observations() == old(registry).observations(),
{
    let mut labels: Vec<(String, String)> = Vec::new();
    labels.push(label("endpoint", endpoint));
    assert(labels.deep_view() =~= seq![("endpoint"@, endpoint@)]);
    registry.increment_counter("http_requests_total", labels);
}

/// A timer for one served request to `endpoint` that starts now.
pub fn http_request_timer(endpoint: &str) -> (timer: Timer)
    ensures
        timer.labels() == seq![("endpoint"@, endpoint@)],
{
    let timer = Timer::default().with_label("endpoint", endpoint);
    assert(timer.labels() =~= seq![("endpoint"@, endpoint@)]);
    timer
}

/// Measures how long serving a request takes.
pub struct Timer {
    start_time: Instant,
    labels: Vec<(String, String)>,
}

impl Default for Timer {
    fn default() -> (timer: Timer)
        ensures
            timer.labels() == Seq::<(Seq<char>, Seq<char>)>::empty(),
    {
        let timer = Timer { start_time: clock_now(), labels: Vec::new() };
        assert(timer.labels.deep_view() =~= Seq::empty());
        timer
    }
}

impl Timer {
    /// The labels that the measurement will carry, in the order in which
    /// they were added.
    pub closed spec fn labels(&self) -> Seq<(Seq<char>, Seq<char>)> {
        self.labels.deep_view()
    }

    /// The clock reading at which the measurement began.
    pub closed spec fn started(&self) -> Instant {
        self.start_time
    }

    /// The same timer with one more label: it goes on measuring from where
    /// it began.
    pub fn with_label(self, key: &str, value: &str) -> (timer: Timer)
        ensures
            timer.labels() == self.labels().push((key@, value@)),
            timer.started() == self.started(),
    {
        let mut labels = self.labels;
        labels.push(label(key, value));
        let timer = Timer { start_time: self.start_time, labels };
        assert(timer.labels.deep_view() =~= self.labels.deep_view().push((key@, value@)));
        timer
    }

    /// Ends the measurement: the time since the start, for the histogram of
    /// request durations, with the labels of this timer.
    pub fn stop(self) -> (observation: Observation)
        ensures
            observation.name@ == "http_request_duration_seconds"@,
            observation.labels.deep_view() == self.labels(),
            observation.nanoseconds < 1_000_000_000,
    {
        let elapsed = clock_elapsed(&self.start_time);
        Observation {
            name: String::from_str("http_request_duration_seconds"),
            labels: self.labels,
            seconds: elapsed.0,
            nanoseconds: elapsed.1,
        }
    }
}

} // verus!
