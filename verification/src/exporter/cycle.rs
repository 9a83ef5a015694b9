//! The course of an analysis cycle: the phases, what each phase waits for,
//! and what follows when an answer comes.

use crate::config::Config;
use crate::exchange::{judged, was_refused, ErrorView, ProcessOutput, Reply, Request, RequestView};
use crate::exporter::usage::{classify_all, published, UsageRecordView};
use crate::grafana::alert::{Alert, AlertView};
use crate::grafana::datasource::{Datasource, DatasourceView};
use crate::grafana::{
    alert_rules_request, datasources_request, fetched_alerts, fetched_datasources,
};
use crate::metrics::analysis::{
    cycle_error_key, cycle_key, last_success_key, tenant_error_key, tenants_discovered_key,
    timestamp_value,
};
use crate::metrics::external::{
    execution_key, external_request_timer, mimirtool_timer, request_failure_key, Command, Target,
    Timer,
};
use crate::metrics::registry::{counted, Registry, SeriesKey};
use crate::metrics::Status;
use crate::mimir::cardinality::Response;
use crate::mimir::{
    dashboard_arguments, discovered, tenant_arguments, tenant_usage, tenants_request,
    top_metrics, top_metrics_request, usage_artifact,
};
use vstd::prelude::*;

verus! {

/// The seconds between the end of a successful cycle and the next cycle,
/// unless another interval is asked for.
pub const DEFAULT_INTERVAL: u64 = 86400;

/// The seconds between the end of a failed cycle and the next cycle.
pub const FAILURE_BACKOFF: u64 = 120;

/// What a cycle has gathered once its prerequisites are there, and the
/// tenant that it is working on.
#[derive(Debug)]
pub struct Survey {
    /// The tenants, each once, in the order in which they were discovered.
    pub tenants: Vec<String>,
    /// The working alert set.
    pub alerts: Vec<Alert>,
    /// The datasources of the dashboard system.
    pub datasources: Vec<Datasource>,
    /// The position in `tenants` of the tenant in work.
    pub current: usize,
}

/// What a [`Survey`] holds.
pub struct SurveyView {
    pub tenants: Seq<Seq<char>>,
    pub alerts: Seq<AlertView>,
    pub datasources: Seq<DatasourceView>,
    pub current: int,
}

impl View for Survey {
    type V = SurveyView;

    open spec fn view(&self) -> SurveyView {
        SurveyView {
            tenants: self.tenants.deep_view(),
            alerts: self.alerts.deep_view(),
            datasources: self.datasources.deep_view(),
            current: self.current as int,
        }
    }
}

impl SurveyView {
    /// There is a tenant in work.
    pub open spec fn in_work(self) -> bool {
        0 <= self.current < self.tenants.len()
    }

    /// The tenant in work.
    pub open spec fn tenant(self) -> Seq<char> {
        self.tenants[self.current]
    }

    /// The same survey with the following tenant in work.
    pub open spec fn advanced(self) -> SurveyView {
        SurveyView {
            tenants: self.tenants,
            alerts: self.alerts,
            datasources: self.datasources,
            current: self.current + 1,
        }
    }
}

/// Where the exporter stands: what it waits for.
#[derive(Debug)]
pub enum Phase {
    /// No cycle was begun yet.
    Idle,
    /// Waiting for the listing of the tenants.
    DiscoveringTenants,
    /// Waiting for the analyzer run on the dashboards.
    AnalyzingDashboards { tenants: Vec<String> },
    /// Waiting for the listing of the alert rules.
    FetchingAlertRules { tenants: Vec<String> },
    /// Waiting for the listing of the datasources, which goes with the alert
    /// rules: it says which tenant a rule query belongs to. It is asked for
    /// in every cycle, also when alerts do not count for the classification.
    FetchingDatasources { tenants: Vec<String>, alerts: Vec<Alert> },
    /// Waiting for the analyzer run on the tenant in work.
    AnalyzingTenant { survey: Survey },
    /// Waiting for the artifact of the analyzer run on the tenant in work.
    ReadingUsage { survey: Survey },
    /// Waiting for the top metrics of the tenant in work, of which the
    /// dashboards use the metrics `used`.
    FetchingTopMetrics { survey: Survey, used: Vec<String> },
    /// Waiting for the next cycle, after a cycle that failed or that was
    /// completed.
    Sleeping { failed: bool },
}

/// What a [`Phase`] holds.
pub enum PhaseView {
    Idle,
    DiscoveringTenants,
    AnalyzingDashboards { tenants: Seq<Seq<char>> },
    FetchingAlertRules { tenants: Seq<Seq<char>> },
    FetchingDatasources { tenants: Seq<Seq<char>>, alerts: Seq<AlertView> },
    AnalyzingTenant { survey: SurveyView },
    ReadingUsage { survey: SurveyView },
    FetchingTopMetrics { survey: SurveyView, used: Seq<Seq<char>> },
    Sleeping { failed: bool },
}

impl View for Phase {
    type V = PhaseView;

    open spec fn view(&self) -> PhaseView {
        match self {
            Phase::Idle => PhaseView::Idle,
            Phase::DiscoveringTenants => PhaseView::DiscoveringTenants,
            Phase::AnalyzingDashboards { tenants } => PhaseView::AnalyzingDashboards {
                tenants: tenants.deep_view(),
            },
            Phase::FetchingAlertRules { tenants } => PhaseView::FetchingAlertRules {
                tenants: tenants.deep_view(),
            },
            Phase::FetchingDatasources { tenants, alerts } => PhaseView::FetchingDatasources {
                tenants: tenants.deep_view(),
                alerts: alerts.deep_view(),
            },
            Phase::AnalyzingTenant { survey } => PhaseView::AnalyzingTenant { survey: survey@ },
            Phase::ReadingUsage { survey } => PhaseView::ReadingUsage { survey: survey@ },
            Phase::FetchingTopMetrics { survey, used } => PhaseView::FetchingTopMetrics {
                survey: survey@,
                used: used.deep_view(),
            },
            Phase::Sleeping { failed } => PhaseView::Sleeping { failed: *failed },
        }
    }
}

impl PhaseView {
    /// A phase that works on a tenant has a tenant in work.
    pub open spec fn well_formed(self) -> bool {
        match self {
            PhaseView::AnalyzingTenant { survey } => survey.in_work(),
            PhaseView::ReadingUsage { survey } => survey.in_work(),
            PhaseView::FetchingTopMetrics { survey, .. } => survey.in_work(),
            _ => true,
        }
    }

    /// A cycle is under way.
    pub open spec fn is_running(self) -> bool {
        !(self is Idle) && !(self is Sleeping)
    }

    /// The cycle works on one tenant.
    pub open spec fn is_tenant_work(self) -> bool {
        self is AnalyzingTenant || self is ReadingUsage || self is FetchingTopMetrics
    }

    /// The survey of a phase that works on a tenant.
    pub open spec fn survey(self) -> SurveyView {
        match self {
            PhaseView::AnalyzingTenant { survey } => survey,
            PhaseView::ReadingUsage { survey } => survey,
            PhaseView::FetchingTopMetrics { survey, .. } => survey,
            _ => SurveyView {
                tenants: Seq::empty(),
                alerts: Seq::empty(),
                datasources: Seq::empty(),
                current: 0,
            },
        }
    }
}

/// What the exporter asks to be done next.
#[derive(Debug)]
pub enum Action {
    /// Send the request that lists the tenants.
    DiscoverTenants { request: Request },
    /// Run the analyzer on the dashboards.
    AnalyzeDashboards { program: String, arguments: Vec<String> },
    /// Send the request that lists the alert rules.
    FetchAlertRules { request: Request },
    /// Send the request that lists the datasources.
    FetchDatasources { request: Request },
    /// Run the analyzer on `tenant`.
    AnalyzeTenant { tenant: String, program: String, arguments: Vec<String> },
    /// Read the artifact that the analyzer wrote for `tenant`.
    ReadUsage { tenant: String, path: String },
    /// Send the request for the top metrics of `tenant`.
    FetchTopMetrics { tenant: String, request: Request },
    /// Wait for so many seconds.
    Sleep { seconds: u64 },
}

/// What an [`Action`] holds.
pub enum ActionView {
    DiscoverTenants { request: RequestView },
    AnalyzeDashboards { program: Seq<char>, arguments: Seq<Seq<char>> },
    FetchAlertRules { request: RequestView },
    FetchDatasources { request: RequestView },
    AnalyzeTenant { tenant: Seq<char>, program: Seq<char>, arguments: Seq<Seq<char>> },
    ReadUsage { tenant: Seq<char>, path: Seq<char> },
    FetchTopMetrics { tenant: Seq<char>, request: RequestView },
    Sleep { seconds: u64 },
}

impl View for Action {
    type V = ActionView;

    open spec fn view(&self) -> ActionView {
        match self {
            Action::DiscoverTenants { request } => ActionView::DiscoverTenants {
                request: request@,
            },
            Action::AnalyzeDashboards { program, arguments } => ActionView::AnalyzeDashboards {
                program: program@,
                arguments: arguments.deep_view(),
            },
            Action::FetchAlertRules { request } => ActionView::FetchAlertRules {
                request: request@,
            },
            Action::FetchDatasources { request } => ActionView::FetchDatasources {
                request: request@,
            },
            Action::AnalyzeTenant { tenant, program, arguments } => ActionView::AnalyzeTenant {
                tenant: tenant@,
                program: program@,
                arguments: arguments.deep_view(),
            },
            Action::ReadUsage { tenant, path } => ActionView::ReadUsage {
                tenant: tenant@,
                path: path@,
            },
            Action::FetchTopMetrics { tenant, request } => ActionView::FetchTopMetrics {
                tenant: tenant@,
                request: request@,
            },
            Action::Sleep { seconds } => ActionView::Sleep { seconds: *seconds },
        }
    }
}

/// The histogram and the labels under which the time that `action` takes is
/// measured, if it is measured: requests by their target, analyzer runs by
/// their subcommand, and what is done for a tenant by the tenant as well.
pub open spec fn measured_as(action: ActionView) -> Option<
    (Seq<char>, Seq<(Seq<char>, Seq<char>)>),
> {
    match action {
        ActionView::DiscoverTenants { .. } => Some(
            (
                "external_request_duration_seconds"@,
                seq![("target"@, Target::StoreGateway.label())],
            ),
        ),
        ActionView::AnalyzeDashboards { .. } => Some(
            ("mimirtool_duration_seconds"@, seq![("command"@, Command::AnalyzeGrafana.label())]),
        ),
        ActionView::FetchAlertRules { .. } => Some(
            ("external_request_duration_seconds"@, seq![("target"@, Target::Grafana.label())]),
        ),
        ActionView::FetchDatasources { .. } => Some(
            ("external_request_duration_seconds"@, seq![("target"@, Target::Grafana.label())]),
        ),
        ActionView::AnalyzeTenant { tenant, .. } => Some(
            (
                "mimirtool_duration_seconds"@,
                seq![("command"@, Command::AnalyzePrometheus.label()), ("tenant_id"@, tenant)],
            ),
        ),
        ActionView::FetchTopMetrics { tenant, .. } => Some(
            (
                "external_request_duration_seconds"@,
                seq![("target"@, Target::Querier.label()), ("tenant_id"@, tenant)],
            ),
        ),
        ActionView::ReadUsage { .. } => None,
        ActionView::Sleep { .. } => None,
    }
}

impl Action {
    /// A timer that starts now and measures how long this action takes, if
    /// the action is measured.
    pub fn timer(&self) -> (timer: Option<Timer>)
        ensures
            match timer {
                Some(timer) => measured_as(self@) == Some((timer.metric_name(), timer.labels())),
                None => measured_as(self@) is None,
            },
    {
        match self {
            Action::DiscoverTenants { .. } => Some(external_request_timer(Target::StoreGateway)),
            Action::AnalyzeDashboards { .. } => Some(mimirtool_timer(Command::AnalyzeGrafana)),
            Action::FetchAlertRules { .. } => Some(external_request_timer(Target::Grafana)),
            Action::FetchDatasources { .. } => Some(external_request_timer(Target::Grafana)),
            Action::AnalyzeTenant { tenant, .. } => Some(
                mimirtool_timer(Command::AnalyzePrometheus).with_label(
                    "tenant_id",
                    tenant.as_str(),
                ),
            ),
            Action::FetchTopMetrics { tenant, .. } => Some(
                external_request_timer(Target::Querier).with_label("tenant_id", tenant.as_str()),
            ),
            Action::ReadUsage { .. } => None,
            Action::Sleep { .. } => None,
        }
    }
}

/// How an action went.
#[derive(Debug)]
pub enum Event {
    /// The wait is over.
    Wake,
    /// What the request for the tenants gave.
    Tenants(Result<Reply<String>, String>),
    /// How the analyzer run ended.
    Analyzer(Result<ProcessOutput, String>),
    /// What the request for the alert rules gave.
    AlertRules(Result<Reply<Vec<Alert>>, String>),
    /// What the request for the datasources gave.
    Datasources(Result<Reply<Vec<Datasource>>, String>),
    /// What reading the artifact gave.
    Usage(Result<String, String>),
    /// What the request for the top metrics gave.
    TopMetrics(Result<Reply<Response>, String>),
}

/// The action that a phase waits for. In the idle phase this is a wait of no
/// length.
pub open spec fn pending(config: Config, interval: u64, phase: PhaseView) -> ActionView {
    match phase {
        PhaseView::Idle => ActionView::Sleep { seconds: 0 },
        PhaseView::DiscoveringTenants => ActionView::DiscoverTenants {
            request: tenants_request(config),
        },
        PhaseView::AnalyzingDashboards { .. } => ActionView::AnalyzeDashboards {
            program: "mimirtool"@,
            arguments: dashboard_arguments(config),
        },
        PhaseView::FetchingAlertRules { .. } => ActionView::FetchAlertRules {
            request: alert_rules_request(config.grafana),
        },
        PhaseView::FetchingDatasources { .. } => ActionView::FetchDatasources {
            request: datasources_request(config.grafana),
        },
        PhaseView::AnalyzingTenant { survey } => ActionView::AnalyzeTenant {
            tenant: survey.tenant(),
            program: "mimirtool"@,
            arguments: tenant_arguments(config, survey.tenant()),
        },
        PhaseView::ReadingUsage { survey } => ActionView::ReadUsage {
            tenant: survey.tenant(),
            path: usage_artifact(config),
        },
        PhaseView::FetchingTopMetrics { survey, .. } => ActionView::FetchTopMetrics {
            tenant: survey.tenant(),
            request: top_metrics_request(config, survey.tenant()),
        },
        PhaseView::Sleeping { failed } => ActionView::Sleep {
            seconds: if failed {
                FAILURE_BACKOFF
            } else {
                interval
            },
        },
    }
}

/// The phase in which the work on the tenant of `survey` begins: its
/// analysis when there is such a tenant, the wait after a completed cycle
/// when the tenants are through.
pub open spec fn entered(survey: SurveyView) -> PhaseView {
    if survey.in_work() {
        PhaseView::AnalyzingTenant { survey }
    } else {
        PhaseView::Sleeping { failed: false }
    }
}

/// The phase after the cycle failed.
pub open spec fn failed_cycle() -> PhaseView {
    PhaseView::Sleeping { failed: true }
}

/// What went wrong when `event` met `phase`, if anything did.
pub open spec fn failure_of(phase: PhaseView, event: Event) -> Option<ErrorView> {
    match (phase, event) {
        (PhaseView::DiscoveringTenants, Event::Tenants(fetched)) => match discovered(fetched) {
            Ok(_) => None,
            Err(error) => Some(error),
        },
        (PhaseView::AnalyzingDashboards { .. }, Event::Analyzer(outcome)) => match judged(
            outcome,
        ) {
            Ok(_) => None,
            Err(error) => Some(error),
        },
        (PhaseView::FetchingAlertRules { .. }, Event::AlertRules(fetched)) => match fetched_alerts(
            fetched,
        ) {
            Ok(_) => None,
            Err(error) => Some(error),
        },
        (
            PhaseView::FetchingDatasources { .. },
            Event::Datasources(fetched),
        ) => match fetched_datasources(fetched) {
            Ok(_) => None,
            Err(error) => Some(error),
        },
        (PhaseView::AnalyzingTenant { .. }, Event::Analyzer(outcome)) => match judged(outcome) {
            Ok(_) => None,
            Err(error) => Some(error),
        },
        (PhaseView::ReadingUsage { .. }, Event::Usage(artifact)) => match tenant_usage(artifact) {
            Ok(_) => None,
            Err(error) => Some(error),
        },
        (PhaseView::FetchingTopMetrics { .. }, Event::TopMetrics(fetched)) => match top_metrics(
            fetched,
        ) {
            Ok(_) => None,
            Err(error) => Some(error),
        },
        _ => None,
    }
}

/// `event` tells how the action went that `phase` waits for.
pub open spec fn answers(phase: PhaseView, event: Event) -> bool {
    match (phase, event) {
        (PhaseView::Idle, Event::Wake) => true,
        (PhaseView::Sleeping { .. }, Event::Wake) => true,
        (PhaseView::DiscoveringTenants, Event::Tenants(_)) => true,
        (PhaseView::AnalyzingDashboards { .. }, Event::Analyzer(_)) => true,
        (PhaseView::FetchingAlertRules { .. }, Event::AlertRules(_)) => true,
        (PhaseView::FetchingDatasources { .. }, Event::Datasources(_)) => true,
        (PhaseView::AnalyzingTenant { .. }, Event::Analyzer(_)) => true,
        (PhaseView::ReadingUsage { .. }, Event::Usage(_)) => true,
        (PhaseView::FetchingTopMetrics { .. }, Event::TopMetrics(_)) => true,
        _ => false,
    }
}

/// The phase that follows when `event` meets `phase`. An event that does
/// not answer the pending action changes nothing.
///
/// The prerequisites of a cycle are gathered in this order: the tenants, the
/// analysis of the dashboards, the alert rules, the datasources. The
/// datasources are taken as a part of the alert rules, whether or not alerts
/// count for the classification: a listing of them that cannot be had ends
/// the cycle as a missing listing of the alert rules does.
pub open spec fn next_phase(phase: PhaseView, event: Event) -> PhaseView {
    match (phase, event) {
        (PhaseView::Idle, Event::Wake) => PhaseView::DiscoveringTenants,
        (PhaseView::Sleeping { .. }, Event::Wake) => PhaseView::DiscoveringTenants,
        (PhaseView::DiscoveringTenants, Event::Tenants(fetched)) => match discovered(fetched) {
            Ok(tenants) => PhaseView::AnalyzingDashboards { tenants },
            Err(_) => failed_cycle(),
        },
        (PhaseView::AnalyzingDashboards { tenants }, Event::Analyzer(outcome)) => match judged(
            outcome,
        ) {
            Ok(_) => PhaseView::FetchingAlertRules { tenants },
            Err(_) => failed_cycle(),
        },
        (
            PhaseView::FetchingAlertRules { tenants },
            Event::AlertRules(fetched),
        ) => match fetched_alerts(fetched) {
            Ok(alerts) => PhaseView::FetchingDatasources { tenants, alerts },
            Err(_) => failed_cycle(),
        },
        (
            PhaseView::FetchingDatasources { tenants, alerts },
            Event::Datasources(fetched),
        ) => match fetched_datasources(fetched) {
            Ok(datasources) => entered(SurveyView { tenants, alerts, datasources, current: 0 }),
            Err(_) => failed_cycle(),
        },
        (PhaseView::AnalyzingTenant { survey }, Event::Analyzer(outcome)) => match judged(
            outcome,
        ) {
            Ok(_) => PhaseView::ReadingUsage { survey },
            Err(_) => entered(survey.advanced()),
        },
        (PhaseView::ReadingUsage { survey }, Event::Usage(artifact)) => match tenant_usage(
            artifact,
        ) {
            Ok(used) => PhaseView::FetchingTopMetrics { survey, used },
            Err(_) => entered(survey.advanced()),
        },
        (PhaseView::FetchingTopMetrics { survey, .. }, Event::TopMetrics(_)) => entered(
            survey.advanced(),
        ),
        _ => phase,
    }
}

/// The event ends the work on the tenant in work with a failure.
pub open spec fn fails_tenant(phase: PhaseView, event: Event) -> bool {
    phase.is_tenant_work() && failure_of(phase, event) is Some
}

/// The event ends the cycle with a failure.
pub open spec fn fails_cycle(phase: PhaseView, event: Event) -> bool {
    !phase.is_tenant_work() && failure_of(phase, event) is Some
}

/// The event completes the cycle: every tenant was worked on.
pub open spec fn completes_cycle(phase: PhaseView, event: Event) -> bool {
    phase.is_running() && next_phase(phase, event) == (PhaseView::Sleeping { failed: false })
}

/// The counters `before` after a request that was refused or not was
/// counted.
pub open spec fn refusal_counted(
    before: Map<SeriesKey, u64>,
    refused: bool,
    target: Target,
) -> Map<SeriesKey, u64> {
    if refused {
        counted(before, request_failure_key(target))
    } else {
        before
    }
}

/// The counters after the request or the analyzer run that `event` tells of
/// was counted, as far as it is counted.
pub open spec fn exchange_counted(
    before: Map<SeriesKey, u64>,
    phase: PhaseView,
    event: Event,
) -> Map<SeriesKey, u64> {
    match (phase, event) {
        (PhaseView::DiscoveringTenants, Event::Tenants(fetched)) => refusal_counted(
            before,
            was_refused(fetched),
            Target::StoreGateway,
        ),
        (PhaseView::AnalyzingDashboards { .. }, Event::Analyzer(outcome)) => counted(
            before,
            execution_key(
                Command::AnalyzeGrafana,
                if judged(outcome) is Ok {
                    Status::Success
                } else {
                    Status::Failure
                },
            ),
        ),
        (PhaseView::FetchingAlertRules { .. }, Event::AlertRules(fetched)) => refusal_counted(
            before,
            was_refused(fetched),
            Target::Grafana,
        ),
        (PhaseView::FetchingDatasources { .. }, Event::Datasources(fetched)) => refusal_counted(
            before,
            was_refused(fetched),
            Target::Grafana,
        ),
        (PhaseView::AnalyzingTenant { .. }, Event::Analyzer(outcome)) => if judged(outcome) is Ok {
            before
        } else {
            counted(before, execution_key(Command::AnalyzePrometheus, Status::Failure))
        },
        (PhaseView::ReadingUsage { .. }, Event::Usage(artifact)) => if tenant_usage(
            artifact,
        ) is Ok {
            counted(before, execution_key(Command::AnalyzePrometheus, Status::Success))
        } else {
            before
        },
        (PhaseView::FetchingTopMetrics { .. }, Event::TopMetrics(fetched)) => refusal_counted(
            before,
            was_refused(fetched),
            Target::Querier,
        ),
        _ => before,
    }
}

/// The counters after `event` met `phase`: the request or run is counted;
/// then a failure of the tenant in work, or of the cycle together with the
/// failed cycle; then a completed cycle.
pub open spec fn counters_after(
    before: Map<SeriesKey, u64>,
    phase: PhaseView,
    event: Event,
) -> Map<SeriesKey, u64> {
    let exchanged = exchange_counted(before, phase, event);
    let failed = if fails_tenant(phase, event) {
        counted(exchanged, tenant_error_key(phase.survey().tenant()))
    } else if fails_cycle(phase, event) {
        counted(counted(exchanged, cycle_error_key()), cycle_key(Status::Failure))
    } else {
        exchanged
    };
    if completes_cycle(phase, event) {
        counted(failed, cycle_key(Status::Success))
    } else {
        failed
    }
}

/// The gauges after `event` met `phase`: the number of discovered tenants is
/// reported, the classifications `records` are published, and the time
/// `finished_at` of a completed cycle is reported.
pub open spec fn gauges_after(
    before: Map<SeriesKey, u64>,
    phase: PhaseView,
    event: Event,
    records: Seq<UsageRecordView>,
    finished_at: Option<i64>,
) -> Map<SeriesKey, u64> {
    let discovered = match (phase, event) {
        (PhaseView::DiscoveringTenants, Event::Tenants(fetched)) => match discovered(fetched) {
            Ok(tenants) => before.insert(tenants_discovered_key(), tenants.len() as u64),
            Err(_) => before,
        },
        _ => before,
    };
    let classified = published(discovered, records);
    match finished_at {
        Some(timestamp) => classified.insert(last_success_key(), timestamp_value(timestamp)),
        None => classified,
    }
}

/// `records` are what is published when `event` meets `phase`: the
/// classification of the top metrics of the tenant in work when the event
/// brings them, and nothing otherwise.
pub open spec fn records_of(
    records: Seq<UsageRecordView>,
    phase: PhaseView,
    event: Event,
    correlation_enabled: bool,
) -> bool {
    match (phase, event) {
        (
            PhaseView::FetchingTopMetrics { survey, used },
            Event::TopMetrics(fetched),
        ) => match top_metrics(fetched) {
            Ok(top) => classify_all(
                records,
                top,
                survey.tenant(),
                used,
                survey.alerts,
                survey.datasources,
                correlation_enabled,
            ),
            Err(_) => records.len() == 0,
        },
        _ => records.len() == 0,
    }
}

/// What an event led to, as plain values.
pub struct Turn {
    pub phase: PhaseView,
    pub failure: Option<ErrorView>,
    pub records: Seq<UsageRecordView>,
    pub finished_at: Option<i64>,
}

/// `turn` is what follows when `event` meets `phase` at the clock reading
/// `now`, and `after` is the registry `before` with what was to be recorded.
pub open spec fn turned(
    turn: Turn,
    phase: PhaseView,
    event: Event,
    now: i64,
    correlation_enabled: bool,
    before: Registry,
    after: Registry,
) -> bool {
    &&& turn.phase == next_phase(phase, event)
    &&& turn.failure == failure_of(phase, event)
    &&& records_of(turn.records, phase, event, correlation_enabled)
    &&& turn.finished_at == (if completes_cycle(phase, event) {
        Some(now)
    } else {
        None
    })
    &&& after.counters() == counters_after(before.counters(), phase, event)
    &&& after.gauges() == gauges_after(
        before.gauges(),
        phase,
        event,
        turn.records,
        turn.finished_at,
    )
    &&& after.descriptions() == before.descriptions()
    &&& after.observations() == before.observations()
}

/// A failure while a tenant is worked on stays with that tenant: the cycle
/// does not fail, nothing is published, the failure is counted for the
/// tenant, and the work goes on with the following tenant or, after the
/// last one, the cycle is complete.
pub proof fn lemma_tenant_failure_is_contained(
    phase: PhaseView,
    event: Event,
    records: Seq<UsageRecordView>,
    correlation_enabled: bool,
)
    requires
        phase.well_formed(),
        fails_tenant(phase, event),
        records_of(records, phase, event, correlation_enabled),
    ensures
        next_phase(phase, event) == entered(phase.survey().advanced()),
        next_phase(phase, event) != failed_cycle(),
        !fails_cycle(phase, event),
        records.len() == 0,
        phase.survey().advanced().in_work() ==> next_phase(phase, event) == (
        PhaseView::AnalyzingTenant { survey: phase.survey().advanced() }),
        !phase.survey().advanced().in_work() ==> completes_cycle(phase, event),
{
}

/// While a tenant is worked on, whatever comes back, the cycle does not
/// fail: the exporter stays with the tenant, or goes on with the following
/// tenant, or completes the cycle.
pub proof fn lemma_tenant_work_never_fails_cycle(phase: PhaseView, event: Event)
    requires
        phase.well_formed(),
        phase.is_tenant_work(),
    ensures
        next_phase(phase, event) != failed_cycle(),
        next_phase(phase, event).well_formed(),
        next_phase(phase, event) == phase || (next_phase(phase, event).is_tenant_work()
            && next_phase(phase, event).survey() == phase.survey()) || next_phase(phase, event)
            == entered(phase.survey().advanced()),
{
}

/// A cycle fails only while its prerequisites are gathered, and only when
/// one of them could not be had: the tenants, the analysis of the
/// dashboards, the alert rules, or the datasources that go with the alert
/// rules.
pub proof fn lemma_cycle_fails_on_prerequisites_only(phase: PhaseView, event: Event)
    requires
        phase.well_formed(),
        phase.is_running(),
        next_phase(phase, event) == failed_cycle(),
    ensures
        phase is DiscoveringTenants || phase is AnalyzingDashboards || phase is FetchingAlertRules
            || phase is FetchingDatasources,
        failure_of(phase, event) is Some,
        fails_cycle(phase, event),
{
}

/// A cycle is complete only when the work on the last tenant ends, in
/// success or in failure, or when the prerequisites are there and there is
/// no tenant.
pub proof fn lemma_cycle_completes_after_last_tenant(phase: PhaseView, event: Event)
    requires
        phase.well_formed(),
        completes_cycle(phase, event),
    ensures
        (phase.is_tenant_work() && phase.survey().current == phase.survey().tenants.len() - 1) || (
        phase matches PhaseView::FetchingDatasources { tenants, .. } && tenants.len() == 0),
{
}

/// An event that does not answer the pending action changes nothing:
/// the phase stays, nothing fails, nothing is published, nothing is counted.
pub proof fn lemma_stray_event_changes_nothing(
    phase: PhaseView,
    event: Event,
    records: Seq<UsageRecordView>,
    correlation_enabled: bool,
    counters: Map<SeriesKey, u64>,
    gauges: Map<SeriesKey, u64>,
)
    requires
        !answers(phase, event),
        records_of(records, phase, event, correlation_enabled),
    ensures
        next_phase(phase, event) == phase,
        failure_of(phase, event) is None,
        !completes_cycle(phase, event),
        records.len() == 0,
        counters_after(counters, phase, event) == counters,
        gauges_after(gauges, phase, event, records, None) == gauges,
{
}

/// After a cycle the exporter waits: for the failure backoff when the cycle
/// failed, for the interval when it was completed. Then the next cycle
/// begins with the discovery of the tenants.
pub proof fn lemma_waits_between_cycles(config: Config, interval: u64, failed: bool)
    ensures
        pending(config, interval, PhaseView::Sleeping { failed }) == (ActionView::Sleep {
            seconds: if failed {
                FAILURE_BACKOFF
            } else {
                interval
            },
        }),
        next_phase(PhaseView::Sleeping { failed }, Event::Wake) == PhaseView::DiscoveringTenants,
{
}

} // verus!
