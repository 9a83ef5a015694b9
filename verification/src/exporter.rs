//! The analysis cycle, one step at a time.
//!
//! The exporter never waits and never talks to another system itself. It
//! names the next action; whoever drives it performs the action and comes
//! back with the event that tells how it went.

pub mod cycle;
pub mod usage;

use crate::config::Config;
use crate::exchange::{Error, ErrorView, ProcessOutput, Reply};
use crate::exporter::cycle::{
    entered, failed_cycle, next_phase, pending, turned, Action, Event, Phase, PhaseView, Survey,
    Turn, FAILURE_BACKOFF,
};
use crate::exporter::usage::{classify_tenant, UsageRecord, UsageRecordView};
use crate::grafana::alert::Alert;
use crate::grafana::datasource::Datasource;
use crate::grafana::Grafana;
use crate::metrics::analysis::{
    cycle_error_key, cycle_key, last_success_key, record_analysis_cycle, record_analysis_error,
    record_successful_analysis, tenant_error_key, timestamp_value, TaskFailure,
};
use crate::metrics::registry::{counted, Registry};
use crate::metrics::Status;
use crate::mimir::cardinality::Response;
use crate::mimir::Mimir;
use crate::Args;
use vstd::prelude::*;

verus! {

/// What one step of the exporter did.
#[derive(Debug)]
pub struct Step {
    /// What is to be done next.
    pub action: Action,
    /// What went wrong in this step, if anything did.
    pub failure: Option<Error>,
    /// The classifications that this step published.
    pub records: Vec<UsageRecord>,
    /// The clock reading that was handed to this step, when the step
    /// completed a cycle.
    pub finished_at: Option<i64>,
}

/// An error, if any, as plain values.
pub open spec fn failure_view(failure: Option<Error>) -> Option<ErrorView> {
    match failure {
        Some(error) => Some(error@),
        None => None,
    }
}

/// Drives the analysis cycles, one step at a time.
pub struct Exporter {
    grafana: Grafana,
    mimir: Mimir,
    interval: u64,
    alert_correlation: bool,
    phase: Phase,
}

impl Exporter {
    /// The phase is well formed, and both systems are reached with the same
    /// settings.
    #[verifier::type_invariant]
    pub closed spec fn well_formed(&self) -> bool {
        self.phase@.well_formed() && self.grafana.config() == self.mimir.config().grafana
    }

    /// The settings that the exporter was made with.
    pub closed spec fn config(&self) -> Config {
        self.mimir.config()
    }

    /// The seconds between a completed cycle and the next.
    pub closed spec fn interval(&self) -> u64 {
        self.interval
    }

    /// Whether alerts count for the classification.
    pub closed spec fn alert_correlation(&self) -> bool {
        self.alert_correlation
    }

    /// Where the exporter stands.
    pub closed spec fn phase(&self) -> PhaseView {
        self.phase@
    }

    /// An idle exporter for the systems that `config` describes, which
    /// waits `interval` seconds after a completed cycle and lets alerts
    /// count for the classification when `alert_correlation` is set.
    pub fn new(config: Config, interval: u64, alert_correlation: bool) -> (exporter: Exporter)
        ensures
            exporter.config() == config,
            exporter.interval() == interval,
            exporter.alert_correlation() == alert_correlation,
            exporter.phase() == PhaseView::Idle,
    {
        let grafana = Grafana::new(
            crate::config::Grafana::new(
                config.grafana.url.clone(),
                config.grafana.token.clone(),
                config.grafana.insecure,
            ),
        );
        let mimir = Mimir::new(config);
        Exporter { grafana, mimir, interval, alert_correlation, phase: Phase::Idle }
    }

    /// An idle exporter for the systems that `config` describes, with the
    /// artifact directory, the interval and the use of alerts that the
    /// command line asks for.
    pub fn from_args(config: Config, args: &Args) -> (exporter: Exporter)
        ensures
            exporter.config().output_dir == args.output_dir,
            exporter.config().grafana == config.grafana,
            exporter.config().mimir == config.mimir,
            exporter.config().http == config.http,
            exporter.interval() == args.interval,
            exporter.alert_correlation() == !args.disable_alert_correlation,
            exporter.phase() == PhaseView::Idle,
    {
        Exporter::new(
            config.with_output_dir(args.output_dir.clone()),
            args.interval,
            !args.disable_alert_correlation,
        )
    }

    /// The action that `phase` waits for.
    fn action_for(&self, phase: &Phase) -> (action: Action)
        requires
            phase@.well_formed(),
        ensures
            action@ == pending(self.config(), self.interval(), phase@),
    {
        proof {
            use_type_invariant(self);
        }
        match phase {
            Phase::Idle => Action::Sleep { seconds: 0 },
            Phase::DiscoveringTenants => Action::DiscoverTenants {
                request: self.mimir.tenants_request(),
            },
            Phase::AnalyzingDashboards { .. } => Action::AnalyzeDashboards {
                program: self.mimir.analyzer(),
                arguments: self.mimir.analyze_grafana_arguments(),
            },
            Phase::FetchingAlertRules { .. } => Action::FetchAlertRules {
                request: self.grafana.alert_rules_request(),
            },
            Phase::FetchingDatasources { .. } => Action::FetchDatasources {
                request: self.grafana.datasources_request(),
            },
            Phase::AnalyzingTenant { survey } => {
                let tenant = survey.tenants[survey.current].clone();
                assert(tenant@ == survey@.tenant());
                Action::AnalyzeTenant {
                    program: self.mimir.analyzer(),
                    arguments: self.mimir.analyze_tenant_arguments(tenant.as_str()),
                    tenant,
                }
            },
            Phase::ReadingUsage { survey } => {
                let tenant = survey.tenants[survey.current].clone();
                assert(tenant@ == survey@.tenant());
                Action::ReadUsage { tenant, path: self.mimir.usage_artifact_path() }
            },
            Phase::FetchingTopMetrics { survey, .. } => {
                let tenant = survey.tenants[survey.current].clone();
                assert(tenant@ == survey@.tenant());
                Action::FetchTopMetrics {
                    request: self.mimir.top_metrics_request(tenant.as_str()),
                    tenant,
                }
            },
            Phase::Sleeping { failed } => Action::Sleep {
                seconds: if *failed {
                    FAILURE_BACKOFF
                } else {
                    self.interval
                },
            },
        }
    }

    /// The action that the exporter waits for.
    pub fn pending_action(&self) -> (action: Action)
        ensures
            action@ == pending(self.config(), self.interval(), self.phase()),
    {
        proof {
            use_type_invariant(self);
        }
        self.action_for(&self.phase)
    }

    /// Begins a cycle, whatever the exporter was waiting for: the tenants
    /// are to be discovered next.
    pub fn start(&mut self) -> (action: Action)
        ensures
            final(self).config() == old(self).config(),
            final(self).interval() == old(self).interval(),
            final(self).alert_correlation() == old(self).alert_correlation(),
            final(self).phase() == PhaseView::DiscoveringTenants,
            action@ == pending(
                final(self).config(),
                final(self).interval(),
                PhaseView::DiscoveringTenants,
            ),
    {
        proof {
            use_type_invariant(&*self);
        }
        self.phase = Phase::DiscoveringTenants;
        self.action_for(&Phase::DiscoveringTenants)
    }

    /// Takes one step: lets `event` meet the phase in which the exporter
    /// stands, records in `registry` what is to be recorded, and names the
    /// action that the following phase waits for. `now` is the clock reading
    /// at which the event came, in seconds since the Unix epoch; it is
    /// reported as the time of the cycle when the step completes one.
    ///
    /// A failure while the prerequisites of a cycle are gathered ends the
    /// cycle; the next one begins after the failure backoff. The
    /// prerequisites are the tenants, the analysis of the dashboards, and
    /// the alert rules together with the datasources that they refer to;
    /// the datasources are listed also when alerts do not count. A failure while
    /// a tenant is worked on ends the work on that tenant only, and nothing
    /// is published for it. When the last tenant is through, the cycle is
    /// complete; the next one begins after the interval. An event that does
    /// not answer the pending action changes nothing, and the pending action
    /// is named again.
    pub fn step(&mut self, registry: &mut Registry, event: Event, now: i64) -> (step: Step)
        ensures
            final(self).config() == old(self).config(),
            final(self).interval() == old(self).interval(),
            final(self).alert_correlation() == old(self).alert_correlation(),
            final(self).phase() == next_phase(old(self).phase(), event),
            step.action@ == pending(old(self).config(), old(self).interval(), final(self).phase()),
            turned(
                Turn {
                    phase: final(self).phase(),
                    failure: failure_view(step.failure),
                    records: step.records.deep_view(),
                    finished_at: step.finished_at,
                },
                old(self).phase(),
                event,
                now,
                old(self).alert_correlation(),
                *old(registry),
                *final(registry),
            ),
    {
        proof {
            use_type_invariant(&*self);
        }
        let mut phase = Phase::Idle;
        std::mem::swap(&mut self.phase, &mut phase);
        let outcome = match (phase, event) {
            (Phase::Idle, Event::Wake) => unchanged(Phase::DiscoveringTenants),
            (Phase::Sleeping { .. }, Event::Wake) => unchanged(Phase::DiscoveringTenants),
            (Phase::DiscoveringTenants, Event::Tenants(fetched)) => on_tenants(
                &self.mimir,
                registry,
                fetched,
                now,
                Ghost(self.alert_correlation),
            ),
            (Phase::AnalyzingDashboards { tenants }, Event::Analyzer(outcome)) => on_dashboards(
                &self.mimir,
                registry,
                tenants,
                outcome,
                now,
                Ghost(self.alert_correlation),
            ),
            (Phase::FetchingAlertRules { tenants }, Event::AlertRules(fetched)) => on_alert_rules(
                &self.grafana,
                registry,
                tenants,
                fetched,
                now,
                Ghost(self.alert_correlation),
            ),
            (
                Phase::FetchingDatasources { tenants, alerts },
                Event::Datasources(fetched),
            ) => on_datasources(
                &self.grafana,
                registry,
                tenants,
                alerts,
                fetched,
                now,
                Ghost(self.alert_correlation),
            ),
            (Phase::AnalyzingTenant { survey }, Event::Analyzer(outcome)) => on_tenant_exit(
                &self.mimir,
                registry,
                survey,
                outcome,
                now,
                Ghost(self.alert_correlation),
            ),
            (Phase::ReadingUsage { survey }, Event::Usage(artifact)) => on_usage(
                &self.mimir,
                registry,
                survey,
                artifact,
                now,
                Ghost(self.alert_correlation),
            ),
            (Phase::FetchingTopMetrics { survey, used }, Event::TopMetrics(fetched)) => {
                on_top_metrics(
                    &self.mimir,
                    &self.grafana,
                    registry,
                    survey,
                    used,
                    fetched,
                    now,
                    self.alert_correlation,
                )
            },
            (phase, _) => unchanged(phase),
        };
        let action = self.action_for(&outcome.phase);
        self.phase = outcome.phase;
        Step {
            action,
            failure: outcome.failure,
            records: outcome.records,
            finished_at: outcome.finished_at,
        }
    }
}

/// What an event led to.
struct Outcome {
    phase: Phase,
    failure: Option<Error>,
    records: Vec<UsageRecord>,
    finished_at: Option<i64>,
}

impl View for Outcome {
    type V = Turn;

    closed spec fn view(&self) -> Turn {
        Turn {
            phase: self.phase@,
            failure: failure_view(self.failure),
            records: self.records.deep_view(),
            finished_at: self.finished_at,
        }
    }
}

/// The outcome of an event that only changes the phase, or nothing.
fn unchanged(phase: Phase) -> (outcome: Outcome)
    ensures
        outcome@ == (Turn {
            phase: phase@,
            failure: None,
            records: Seq::empty(),
            finished_at: None,
        }),
{
    let outcome = Outcome { phase, failure: None, records: Vec::new(), finished_at: None };
    assert(outcome.records.deep_view() =~= Seq::empty());
    outcome
}

/// The outcome of a failure that ends the cycle. The failure and the failed
/// cycle are counted.
fn fail_cycle(registry: &mut Registry, error: Error) -> (outcome: Outcome)
    ensures
        outcome@ == (Turn {
            phase: failed_cycle(),
            failure: Some(error@),
            records: Seq::empty(),
            finished_at: None,
        }),
        final(registry).counters() == counted(
            counted(old(registry).counters(), cycle_error_key()),
            cycle_key(Status::Failure),
        ),
        final(registry).gauges() == old(registry).gauges(),
        final(registry).descriptions() == old(registry).descriptions(),
        final(registry).observations() == old(registry).observations(),
{
    record_analysis_error(registry, TaskFailure::Cycle);
    record_analysis_cycle(registry, Status::Failure);
    let outcome = Outcome {
        phase: Phase::Sleeping { failed: true },
        failure: Some(error),
        records: Vec::new(),
        finished_at: None,
    };
    assert(outcome.records.deep_view() =~= Seq::empty());
    outcome
}

/// Enters the work on the tenant of `survey`, or completes the cycle when
/// the tenants are through: then the completed cycle is counted and `now`
/// is reported as its time.
fn enter(
    registry: &mut Registry,
    survey: Survey,
    failure: Option<Error>,
    records: Vec<UsageRecord>,
    now: i64,
) -> (outcome: Outcome)
    ensures
        outcome@.phase == entered(survey@),
        outcome@.phase.well_formed(),
        outcome@.failure == failure_view(failure),
        outcome@.records == records.deep_view(),
        outcome@.finished_at == (if survey@.in_work() {
            None
        } else {
            Some(now)
        }),
        final(registry).counters() == (if survey@.in_work() {
            old(registry).counters()
        } else {
            counted(old(registry).counters(), cycle_key(Status::Success))
        }),
        final(registry).gauges() == (match outcome@.finished_at {
            Some(timestamp) => old(registry).gauges().insert(
                last_success_key(),
                timestamp_value(timestamp),
            ),
            None => old(registry).gauges(),
        }),
        final(registry).descriptions() == old(registry).descriptions(),
        final(registry).observations() == old(registry).observations(),
{
    if survey.current < survey.tenants.len() {
        Outcome { phase: Phase::AnalyzingTenant { survey }, failure, records, finished_at: None }
    } else {
        record_analysis_cycle(registry, Status::Success);
        record_successful_analysis(registry, now);
        Outcome {
            phase: Phase::Sleeping { failed: false },
            failure,
            records,
            finished_at: Some(now),
        }
    }
}

/// The same survey with the following tenant in work.
fn advance(survey: Survey) -> (advanced: Survey)
    requires
        survey@.in_work(),
    ensures
        advanced@ == survey@.advanced(),
{
    assert(survey.tenants.deep_view().len() == survey.tenants.len());
    Survey {
        tenants: survey.tenants,
        alerts: survey.alerts,
        datasources: survey.datasources,
        current: survey.current + 1,
    }
}

/// The outcome of a failure that ends the work on the tenant in work. The
/// failure is counted, and the work goes on with the following tenant.
fn fail_tenant(registry: &mut Registry, survey: Survey, error: Error, now: i64) -> (outcome:
    Outcome)
    requires
        survey@.in_work(),
    ensures
        outcome@.phase == entered(survey@.advanced()),
        outcome@.phase.well_formed(),
        outcome@.failure == Some(error@),
        outcome@.records == Seq::<UsageRecordView>::empty(),
        outcome@.finished_at == (if survey@.advanced().in_work() {
            None
        } else {
            Some(now)
        }),
        final(registry).counters() == (if survey@.advanced().in_work() {
            counted(old(registry).counters(), tenant_error_key(survey@.tenant()))
        } else {
            counted(
                counted(old(registry).counters(), tenant_error_key(survey@.tenant())),
                cycle_key(Status::Success),
            )
        }),
        final(registry).gauges() == (match outcome@.finished_at {
            Some(timestamp) => old(registry).gauges().insert(
                last_success_key(),
                timestamp_value(timestamp),
            ),
            None => old(registry).gauges(),
        }),
        final(registry).descriptions() == old(registry).descriptions(),
        final(registry).observations() == old(registry).observations(),
{
    let tenant = survey.tenants[survey.current].clone();
    assert(tenant@ == survey@.tenant());
    record_analysis_error(registry, TaskFailure::Tenant(tenant));
    let records: Vec<UsageRecord> = Vec::new();
    assert(records.deep_view() =~= Seq::empty());
    enter(registry, advance(survey), Some(error), records, now)
}

/// What the answer to the request for the tenants leads to.
fn on_tenants(
    mimir: &Mimir,
    registry: &mut Registry,
    fetched: Result<Reply<String>, String>,
    now: i64,
    Ghost(enabled): Ghost<bool>,
) -> (outcome: Outcome)
    ensures
        outcome@.phase.well_formed(),
        turned(
            outcome@,
            PhaseView::DiscoveringTenants,
            Event::Tenants(fetched),
            now,
            enabled,
            *old(registry),
            *final(registry),
        ),
{
    match mimir.get_tenants(registry, fetched) {
        Ok(tenants) => unchanged(Phase::AnalyzingDashboards { tenants }),
        Err(error) => fail_cycle(registry, error),
    }
}

/// What the end of the analyzer run on the dashboards leads to.
fn on_dashboards(
    mimir: &Mimir,
    registry: &mut Registry,
    tenants: Vec<String>,
    outcome: Result<ProcessOutput, String>,
    now: i64,
    Ghost(enabled): Ghost<bool>,
) -> (turn: Outcome)
    ensures
        turn@.phase.well_formed(),
        turned(
            turn@,
            PhaseView::AnalyzingDashboards { tenants: tenants.deep_view() },
            Event::Analyzer(outcome),
            now,
            enabled,
            *old(registry),
            *final(registry),
        ),
{
    match mimir.analyze_grafana(registry, outcome) {
        Ok(_) => unchanged(Phase::FetchingAlertRules { tenants }),
        Err(error) => fail_cycle(registry, error),
    }
}

/// What the answer to the request for the alert rules leads to.
fn on_alert_rules(
    grafana: &Grafana,
    registry: &mut Registry,
    tenants: Vec<String>,
    fetched: Result<Reply<Vec<Alert>>, String>,
    now: i64,
    Ghost(enabled): Ghost<bool>,
) -> (turn: Outcome)
    ensures
        turn@.phase.well_formed(),
        turned(
            turn@,
            PhaseView::FetchingAlertRules { tenants: tenants.deep_view() },
            Event::AlertRules(fetched),
            now,
            enabled,
            *old(registry),
            *final(registry),
        ),
{
    match grafana.get_alert_rules(registry, fetched) {
        Ok(alerts) => unchanged(Phase::FetchingDatasources { tenants, alerts }),
        Err(error) => fail_cycle(registry, error),
    }
}

/// What the answer to the request for the datasources leads to.
fn on_datasources(
    grafana: &Grafana,
    registry: &mut Registry,
    tenants: Vec<String>,
    alerts: Vec<Alert>,
    fetched: Result<Reply<Vec<Datasource>>, String>,
    now: i64,
    Ghost(enabled): Ghost<bool>,
) -> (turn: Outcome)
    ensures
        turn@.phase.well_formed(),
        turned(
            turn@,
            PhaseView::FetchingDatasources {
                tenants: tenants.deep_view(),
                alerts: alerts.deep_view(),
            },
            Event::Datasources(fetched),
            now,
            enabled,
            *old(registry),
            *final(registry),
        ),
{
    match grafana.get_datasources(registry, fetched) {
        Ok(datasources) => {
            let records: Vec<UsageRecord> = Vec::new();
            assert(records.deep_view() =~= Seq::empty());
            enter(
                registry,
                Survey { tenants, alerts, datasources, current: 0 },
                None,
                records,
                now,
            )
        },
        Err(error) => fail_cycle(registry, error),
    }
}

/// What the end of the analyzer run on the tenant in work leads to.
fn on_tenant_exit(
    mimir: &Mimir,
    registry: &mut Registry,
    survey: Survey,
    outcome: Result<ProcessOutput, String>,
    now: i64,
    Ghost(enabled): Ghost<bool>,
) -> (turn: Outcome)
    requires
        survey@.in_work(),
    ensures
        turn@.phase.well_formed(),
        turned(
            turn@,
            PhaseView::AnalyzingTenant { survey: survey@ },
            Event::Analyzer(outcome),
            now,
            enabled,
            *old(registry),
            *final(registry),
        ),
{
    match mimir.analyze_tenant_exit(registry, outcome) {
        Ok(_) => unchanged(Phase::ReadingUsage { survey }),
        Err(error) => fail_tenant(registry, survey, error, now),
    }
}

/// What reading the artifact of the tenant in work leads to.
fn on_usage(
    mimir: &Mimir,
    registry: &mut Registry,
    survey: Survey,
    artifact: Result<String, String>,
    now: i64,
    Ghost(enabled): Ghost<bool>,
) -> (turn: Outcome)
    requires
        survey@.in_work(),
    ensures
        turn@.phase.well_formed(),
        turned(
            turn@,
            PhaseView::ReadingUsage { survey: survey@ },
            Event::Usage(artifact),
            now,
            enabled,
            *old(registry),
            *final(registry),
        ),
{
    match mimir.analyze_tenant(registry, artifact) {
        Ok(used) => unchanged(Phase::FetchingTopMetrics { survey, used }),
        Err(error) => fail_tenant(registry, survey, error, now),
    }
}

/// What the answer to the request for the top metrics of the tenant in work
/// leads to: the metrics are classified and published, and the work goes on
/// with the following tenant.
fn on_top_metrics(
    mimir: &Mimir,
    grafana: &Grafana,
    registry: &mut Registry,
    survey: Survey,
    used: Vec<String>,
    fetched: Result<Reply<Response>, String>,
    now: i64,
    correlation_enabled: bool,
) -> (turn: Outcome)
    requires
        survey@.in_work(),
    ensures
        turn@.phase.well_formed(),
        turned(
            turn@,
            PhaseView::FetchingTopMetrics { survey: survey@, used: used.deep_view() },
            Event::TopMetrics(fetched),
            now,
            correlation_enabled,
            *old(registry),
            *final(registry),
        ),
{
    match mimir.get_tenant_top_metrics(registry, fetched) {
        Ok(top) => {
            let tenant = survey.tenants[survey.current].clone();
            assert(tenant@ == survey@.tenant());
            let records = classify_tenant(
                grafana,
                registry,
                tenant.as_str(),
                &top,
                &used,
                &survey.alerts,
                &survey.datasources,
                correlation_enabled,
            );
            enter(registry, advance(survey), None, records, now)
        },
        Err(error) => fail_tenant(registry, survey, error, now),
    }
}

} // verus!
