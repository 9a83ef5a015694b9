//! What is reported about the running process.

use crate::metrics::label;
use crate::metrics::registry::{same_elsewhere, MetricKind, Registry, SeriesKey};
use vstd::prelude::*;

verus! {

/// `SystemTime::elapsed` of the standard library on the Unix epoch: the
/// whole seconds that went by since the epoch on the system clock, or none
/// when the clock is set before the epoch. Nothing is claimed about the
/// reading.
#[verifier::external_body]
fn seconds_since_epoch() -> Option<u64> {
    std::time::UNIX_EPOCH.elapsed().ok().map(|elapsed| elapsed.as_secs())
}

/// The key of the gauge of the process start time.
pub open spec fn start_time_key() -> SeriesKey {
    SeriesKey { name: "process_start_time_seconds"@, labels: Seq::empty() }
}

/// The key of the gauge that carries the build `version`.
pub open spec fn build_info_key(version: Seq<char>) -> SeriesKey {
    SeriesKey { name: "build_info"@, labels: seq![("version"@, version)] }
}

/// The descriptions that [`register_metrics`] gives.
pub open spec fn descriptions() -> Seq<(MetricKind, Seq<char>, Seq<char>)> {
    seq![
        (
            MetricKind::Gauge,
            "process_start_time_seconds"@,
            "Start time of the process in seconds since the Unix epoch"@,
        ),
        (
            MetricKind::Gauge,
            "build_info"@,
            "Build information of the application, labeled by version and commit"@,
        ),
    ]
}

/// Describes the metric names of the process, and records its start time
/// and the build `version`.
pub(super) fn register_metrics(registry: &mut Registry, version: &str)
    ensures
        final(registry).descriptions() == old(registry).descriptions() + descriptions(),
        final(registry).counters() == old(registry).counters(),
        final(registry).observations() == old(registry).observations(),
        final(registry).gauges().dom().contains(build_info_key(version@)),
        final(registry).gauges()[build_info_key(version@)] == 1,
        same_elsewhere(
            old(registry).gauges(),
            final(registry).gauges(),
            start_time_key(),
            build_info_key(version@),
        ),
{
    registry.describe(
        MetricKind::Gauge,
        "process_start_time_seconds",
        "Start time of the process in seconds since the Unix epoch",
    );
    registry.describe(
        MetricKind::Gauge,
        "build_info",
        "Build information of the application, labeled by version and commit",
    );
    assert(registry.descriptions() =~= old(registry).descriptions() + descriptions());
    let _ = record_process_start_time(registry);
    record_build_info(registry, version);
}

/// Reports `seconds`, counted from the Unix epoch, as the start time of the
/// process.
pub fn record_start_time(registry: &mut Registry, seconds: u64)
    ensures
        final(registry).gauges() == old(registry).gauges().insert(start_time_key(), seconds),
        final(registry).counters() == old(registry).counters(),
        final(registry).descriptions() == old(registry).descriptions(),
        final(registry).observations() == old(registry).observations(),
{
    let labels: Vec<(String, String)> = Vec::new();
    assert(labels.deep_view() =~= Seq::empty());
    registry.set_gauge("process_start_time_seconds", labels, seconds);
}

/// Reports the present time as the start time of the process, in whole
/// seconds since the Unix epoch, and hands out the clock reading that it
/// took. With a clock that is set before the epoch there is no reading, and
/// nothing is reported.
pub fn record_process_start_time(registry: &mut Registry) -> (reading: Option<u64>)
    ensures
        final(registry).gauges() == (match reading {
            Some(seconds) => old(registry).gauges().insert(start_time_key(), seconds),
            None => old(registry).gauges(),
        }),
        final(registry).counters() == old(registry).counters(),
        final(registry).descriptions() == old(registry).descriptions(),
        final(registry).observations() == old(registry).observations(),
{
    let reading = seconds_since_epoch();
    match reading {
        Some(seconds) => record_start_time(registry, seconds),
        None => {},
    }
    reading
}

/// Reports the build `version`: the gauge with that version as its label
/// becomes 1.
pub fn record_build_info(registry: &mut Registry, version: &str)
    ensures
        final(registry).gauges() == old(registry).gauges().insert(build_info_key(version@), 1),
        final(registry).counters() == old(registry).counters(),
        final(registry).descriptions() == old(registry).descriptions(),
        final(registry).observations() == old(registry).observations(),
{
    let mut labels: Vec<(String, String)> = Vec::new();
    labels.push(label("version", version));
    assert(labels.deep_view() =~= seq![("version"@, version@)]);
    registry.set_gauge("build_info", labels, 1);
}

} // verus!
