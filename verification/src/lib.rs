//! Classifies the high-cardinality metrics of each tenant of a multi-tenant
//! metrics backend as used or unused, and keeps the gauges that expose the
//! classification.
//!
//! A metric of a tenant is in use when the tenant's dashboards use it, or
//! when an alert rule that runs against a datasource of the tenant mentions
//! it. The [`exporter`] goes through the tenants cycle after cycle; it names
//! what is to be done and takes what came of it, so that nothing in this
//! library waits or talks to another system. The [`grafana`] and [`mimir`]
//! modules say what to ask the two systems and what their answers mean, and
//! [`metrics`] holds what is exposed.

pub mod config;
pub mod exchange;
pub mod exporter;
pub mod grafana;
pub mod metrics;
pub mod mimir;
pub mod text;

use vstd::prelude::*;

verus! {

/// What the command line asks for.
#[derive(Debug, Clone, Default)]
pub struct Args {
    /// The configuration file.
    pub config: String,
    /// The directory for the artifacts of the analyzer.
    pub output_dir: String,
    /// The seconds between a completed cycle and the next.
    pub interval: u64,
    /// Alerts do not count for the classification.
    pub disable_alert_correlation: bool,
}

} // verus!
