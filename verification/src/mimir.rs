//! The metrics backend: its tenants, the analyzer that is run against it,
//! and the metrics of a tenant with the most series.

pub mod cardinality;

use crate::config::Config;
use crate::exchange::{
    judge, judged, names_view, settle, settled, verdict_view, was_refused, Error, ErrorView,
    ProcessOutput, Reply, Request, RequestView,
};
use crate::metrics::analysis::{record_tenants_discovered, tenants_discovered_key};
use crate::metrics::external::{
    execution_key, record_external_request_failure, record_mimirtool_execution,
    request_failure_key, Command, Target,
};
use crate::metrics::label;
use crate::metrics::registry::{counted, Registry};
use crate::metrics::Status;
use crate::mimir::cardinality::{label_values, Response};
use crate::text::{deduplicate, deduplicated, lemma_deduplicated, present, present_texts};
use vstd::prelude::*;
use vstd::string::StringExecFns;

verus! {

/// For each element of the HTML document `document` that the CSS selector
/// `selector` selects, in the order in which the `scraper` crate walks them,
/// its first text node, if it has one; or, when the selector is refused, the
/// crate's message.
pub uninterp spec fn first_texts(document: Seq<char>, selector: Seq<char>) -> Result<
    Seq<Option<Seq<char>>>,
    Seq<char>,
>;

/// For the JSON document `document`: when it has an array under the key
/// `list_field`, for each entry of that array, in order, the string that the
/// entry has under `item_field`, if it has one; none when there is no such
/// array; or, when the text is not a JSON document, the message of the
/// `serde_json` crate.
pub uninterp spec fn json_listing(
    document: Seq<char>,
    list_field: Seq<char>,
    item_field: Seq<char>,
) -> Result<Option<Seq<Option<Seq<char>>>>, Seq<char>>;

/// The path of the file `file` in the directory `directory`, as
/// `Path::join` of the standard library makes it.
pub uninterp spec fn joined_path(directory: Seq<char>, file: Seq<char>) -> Seq<char>;

/// `scraper::Selector::parse` on `selector`, `scraper::Html::parse_document`
/// on `document`, then `Html::select` and, for each selected element, the
/// first item of `ElementRef::text`. The result is what [`first_texts`]
/// names; a refused selector comes back as its message.
#[verifier::external_body]
fn select_first_texts(document: &str, selector: &str) -> (outcome: Result<
    Vec<Option<String>>,
    String,
>)
    ensures
        match outcome {
            Ok(texts) => first_texts(document@, selector@) == Ok::<
                Seq<Option<Seq<char>>>,
                Seq<char>,
            >(texts.deep_view()),
            Err(message) => first_texts(document@, selector@) == Err::<
                Seq<Option<Seq<char>>>,
                Seq<char>,
            >(message@),
        },
{
    match scraper::Selector::parse(selector) {
        Ok(parsed) => Ok(
            scraper::Html::parse_document(document).select(&parsed).map(
                |element| element.text().next().map(String::from),
            ).collect(),
        ),
        Err(error) => Err(error.to_string()),
    }
}

/// `serde_json::from_str` on `document`, then the value under `list_field`
/// as an array and, for each entry, the value under `item_field` as a
/// string. The result is what [`json_listing`] names; a text that is not a
/// JSON document comes back as the crate's message.
#[verifier::external_body]
fn read_json_listing(document: &str, list_field: &str, item_field: &str) -> (outcome: Result<
    Option<Vec<Option<String>>>,
    String,
>)
    ensures
        match outcome {
            Ok(listing) => json_listing(document@, list_field@, item_field@) == Ok::<
                Option<Seq<Option<Seq<char>>>>,
                Seq<char>,
            >(listing.deep_view()),
            Err(message) => json_listing(document@, list_field@, item_field@) == Err::<
                Option<Seq<Option<Seq<char>>>>,
                Seq<char>,
            >(message@),
        },
{
    match serde_json::from_str::<serde_json::Value>(document) {
        Ok(data) => Ok(
            data[list_field].as_array().map(
                |entries|
                    entries.iter().map(|entry| entry[item_field].as_str().map(String::from)).collect(),
            ),
        ),
        Err(error) => Err(error.to_string()),
    }
}

/// `Path::join` of the standard library: the path of `file` in `directory`.
/// The result is what [`joined_path`] names.
#[verifier::external_body]
fn join_path(directory: &str, file: &str) -> (path: String)
    ensures
        path@ == joined_path(directory@, file@),
{
    std::path::Path::new(directory).join(file).to_string_lossy().into_owned()
}

/// The selector that finds the tenants in the listing page.
pub open spec fn tenant_selector() -> Seq<char> {
    "table tbody tr td a"@
}

/// The names that the page `document` holds in the elements that `selector`
/// selects: for each element its first text, where it has one. Each name
/// stands once, where it first comes in the order in which the `scraper`
/// crate walks the selected elements.
pub open spec fn names_in(document: Seq<char>, selector: Seq<char>) -> Result<
    Seq<Seq<char>>,
    ErrorView,
> {
    match first_texts(document, selector) {
        Ok(texts) => Ok(deduplicated(present_texts(texts))),
        Err(message) => Err(ErrorView::Selector(message)),
    }
}

/// The tenants that the listing page `body` names, each once, in the order
/// in which the `scraper` crate walks the selected elements.
pub open spec fn tenants_in(body: Seq<char>) -> Result<Seq<Seq<char>>, ErrorView> {
    names_in(body, tenant_selector())
}

/// The tenants that the answer to the listing request names.
pub open spec fn discovered(fetched: Result<Reply<String>, String>) -> Result<
    Seq<Seq<char>>,
    ErrorView,
> {
    match settled(fetched) {
        Ok(body) => tenants_in(body@),
        Err(error) => Err(error),
    }
}

/// The metrics that the artifact `content` counts as in use.
pub open spec fn usage_in(content: Seq<char>) -> Result<Seq<Seq<char>>, ErrorView> {
    match json_listing(content, "in_use_metric_counts"@, "metric"@) {
        Ok(Some(entries)) => Ok(present_texts(entries)),
        Ok(None) => Err(ErrorView::MissingUsage),
        Err(message) => Err(ErrorView::Json(message)),
    }
}

/// The metrics that the artifact of a tenant's analysis counts as in use,
/// given what reading the artifact gave.
pub open spec fn tenant_usage(artifact: Result<String, String>) -> Result<
    Seq<Seq<char>>,
    ErrorView,
> {
    match artifact {
        Ok(content) => usage_in(content@),
        Err(detail) => Err(ErrorView::Artifact(detail@)),
    }
}

/// The names of the metrics with the most series that the answer of the
/// backend lists.
pub open spec fn top_metrics(fetched: Result<Reply<Response>, String>) -> Result<
    Seq<Seq<char>>,
    ErrorView,
> {
    match settled(fetched) {
        Ok(response) => Ok(label_values(response@.labels)),
        Err(error) => Err(error),
    }
}

/// The path of the artifact that the analysis of the dashboards writes.
pub open spec fn dashboards_artifact(config: Config) -> Seq<char> {
    joined_path(config.output_dir@, "grafana.json"@)
}

/// The path of the artifact that the analysis of a tenant writes.
pub open spec fn usage_artifact(config: Config) -> Seq<char> {
    joined_path(config.output_dir@, "prometheus-metrics.json"@)
}

/// The arguments of the analyzer run that finds the metrics used in
/// dashboards.
pub open spec fn dashboard_arguments(config: Config) -> Seq<Seq<char>> {
    seq![
        "analyze"@,
        "grafana"@,
        "--address"@,
        config.grafana.url@,
        "--key"@,
        config.grafana.token@,
        "--output"@,
        dashboards_artifact(config),
    ]
}

/// The arguments of the analyzer run that finds which metrics of `tenant`
/// the dashboards use.
pub open spec fn tenant_arguments(config: Config, tenant: Seq<char>) -> Seq<Seq<char>> {
    seq![
        "analyze"@,
        "prometheus"@,
        "--address"@,
        config.mimir.querier_url@,
        "--id"@,
        tenant,
        "--prometheus-http-prefix"@,
        "prometheus"@,
        "--grafana-metrics-file"@,
        dashboards_artifact(config),
        "--output"@,
        usage_artifact(config),
    ]
}

/// The request that lists the tenants.
pub open spec fn tenants_request(config: Config) -> RequestView {
    RequestView {
        url: config.mimir.store_gateway_url@ + "/store-gateway/tenants"@,
        headers: Seq::empty(),
        bearer: None,
    }
}

/// The request for the hundred metric names of `tenant` with the most
/// series.
pub open spec fn top_metrics_request(config: Config, tenant: Seq<char>) -> RequestView {
    RequestView {
        url: config.mimir.querier_url@
            + "/prometheus/api/v1/cardinality/label_values?label_names[]=__name__&limit=100"@,
        headers: seq![("X-Scope-OrgID"@, tenant)],
        bearer: None,
    }
}

/// The names that the page `document` holds in the elements that `selector`
/// selects, each once, in the order in which the `scraper` crate walks the
/// selected elements. Fails when the selector is refused.
pub fn listed_names(document: &str, selector: &str) -> (outcome: Result<Vec<String>, Error>)
    ensures
        names_view(outcome) == names_in(document@, selector@),
{
    match select_first_texts(document, selector) {
        Ok(texts) => Ok(deduplicate(present(texts))),
        Err(message) => Err(Error::Selector(message)),
    }
}

/// The metrics backend as the analysis sees it.
pub struct Mimir {
    config: Config,
}

impl Mimir {
    /// The settings that this instance was made with.
    pub closed spec fn config(&self) -> Config {
        self.config
    }

    /// The metrics backend reached with `config`.
    pub fn new(config: Config) -> (mimir: Mimir)
        ensures
            mimir.config() == config,
    {
        Mimir { config }
    }

    /// The program that is the analyzer.
    pub fn analyzer(&self) -> (program: String)
        ensures
            program@ == "mimirtool"@,
    {
        String::from_str("mimirtool")
    }

    /// The request that lists the tenants.
    pub fn tenants_request(&self) -> (request: Request)
        ensures
            request@ == tenants_request(self.config()),
    {
        let url = self.config.mimir.store_gateway_url.clone().concat("/store-gateway/tenants");
        let request = Request { url, headers: Vec::new(), bearer: None };
        assert(request.headers.deep_view() =~= Seq::empty());
        request
    }

    /// The tenants that the answer to the listing request names, each once,
    /// in the order in which the `scraper` crate walks the selected elements
    /// of the page. A refused request is counted; the number of tenants
    /// found is reported.
    pub fn get_tenants(&self, registry: &mut Registry, fetched: Result<Reply<String>, String>) -> (
        outcome: Result<Vec<String>, Error>)
        ensures
            names_view(outcome) == discovered(fetched),
            final(registry).counters() == (if was_refused(fetched) {
                counted(old(registry).counters(), request_failure_key(Target::StoreGateway))
            } else {
                old(registry).counters()
            }),
            final(registry).gauges() == (match discovered(fetched) {
                Ok(tenants) => old(registry).gauges().insert(
                    tenants_discovered_key(),
                    tenants.len() as u64,
                ),
                Err(_) => old(registry).gauges(),
            }),
            final(registry).descriptions() == old(registry).descriptions(),
            final(registry).observations() == old(registry).observations(),
    {
        let body = match settle(fetched) {
            Ok(body) => body,
            Err(error) => {
                match error {
                    Error::Status(_) => record_external_request_failure(
                        registry,
                        Target::StoreGateway,
                    ),
                    _ => {},
                }
                return Err(error);
            },
        };
        match listed_names(body.as_str(), "table tbody tr td a") {
            Ok(tenants) => {
                record_tenants_discovered(registry, tenants.len() as u64);
                Ok(tenants)
            },
            Err(error) => Err(error),
        }
    }

    /// The arguments of the analyzer run that finds the metrics used in
    /// dashboards.
    pub fn analyze_grafana_arguments(&self) -> (arguments: Vec<String>)
        ensures
            arguments.deep_view() == dashboard_arguments(self.config()),
    {
        let mut arguments: Vec<String> = Vec::new();
        arguments.push(String::from_str("analyze"));
        arguments.push(String::from_str("grafana"));
        arguments.push(String::from_str("--address"));
        arguments.push(self.config.grafana.url.clone());
        arguments.push(String::from_str("--key"));
        arguments.push(self.config.grafana.token.clone());
        arguments.push(String::from_str("--output"));
        arguments.push(join_path(self.config.output_dir.as_str(), "grafana.json"));
        assert(arguments.deep_view() =~= dashboard_arguments(self.config()));
        arguments
    }

    /// Judges the analyzer run that finds the metrics used in dashboards,
    /// and counts it as a success or a failure.
    pub fn analyze_grafana(&self, registry: &mut Registry, outcome: Result<ProcessOutput, String>) -> (
        verdict: Result<(), Error>)
        ensures
            verdict_view(verdict) == judged(outcome),
            final(registry).counters() == counted(
                old(registry).counters(),
                execution_key(
                    Command::AnalyzeGrafana,
                    if judged(outcome) is Ok {
                        Status::Success
                    } else {
                        Status::Failure
                    },
                ),
            ),
            final(registry).gauges() == old(registry).gauges(),
            final(registry).descriptions() == old(registry).descriptions(),
            final(registry).observations() == old(registry).observations(),
    {
        let verdict = judge(outcome);
        match &verdict {
            Ok(_) => record_mimirtool_execution(
                registry,
                Command::AnalyzeGrafana,
                Status::Success,
            ),
            Err(_) => record_mimirtool_execution(
                registry,
                Command::AnalyzeGrafana,
                Status::Failure,
            ),
        }
        verdict
    }

    /// The arguments of the analyzer run that finds which metrics of the
    /// tenant `tenant_id` the dashboards use.
    pub fn analyze_tenant_arguments(&self, tenant_id: &str) -> (arguments: Vec<String>)
        ensures
            arguments.deep_view() == tenant_arguments(self.config(), tenant_id@),
    {
        let mut arguments: Vec<String> = Vec::new();
        arguments.push(String::from_str("analyze"));
        arguments.push(String::from_str("prometheus"));
        arguments.push(String::from_str("--address"));
        arguments.push(self.config.mimir.querier_url.clone());
        arguments.push(String::from_str("--id"));
        arguments.push(String::from_str(tenant_id));
        arguments.push(String::from_str("--prometheus-http-prefix"));
        arguments.push(String::from_str("prometheus"));
        arguments.push(String::from_str("--grafana-metrics-file"));
        arguments.push(join_path(self.config.output_dir.as_str(), "grafana.json"));
        arguments.push(String::from_str("--output"));
        arguments.push(join_path(self.config.output_dir.as_str(), "prometheus-metrics.json"));
        assert(arguments.deep_view() =~= tenant_arguments(self.config(), tenant_id@));
        arguments
    }

    /// The path of the artifact that the analysis of a tenant writes.
    pub fn usage_artifact_path(&self) -> (path: String)
        ensures
            path@ == usage_artifact(self.config()),
    {
        join_path(self.config.output_dir.as_str(), "prometheus-metrics.json")
    }

    /// Judges the analyzer run for one tenant. A run that failed is counted
    /// as a failure; one that succeeded is counted once its artifact was
    /// read.
    pub fn analyze_tenant_exit(
        &self,
        registry: &mut Registry,
        outcome: Result<ProcessOutput, String>,
    ) -> (verdict: Result<(), Error>)
        ensures
            verdict_view(verdict) == judged(outcome),
            final(registry).counters() == (if judged(outcome) is Ok {
                old(registry).counters()
            } else {
                counted(
                    old(registry).counters(),
                    execution_key(Command::AnalyzePrometheus, Status::Failure),
                )
            }),
            final(registry).gauges() == old(registry).gauges(),
            final(registry).descriptions() == old(registry).descriptions(),
            final(registry).observations() == old(registry).observations(),
    {
        let verdict = judge(outcome);
        match &verdict {
            Ok(_) => {},
            Err(_) => record_mimirtool_execution(
                registry,
                Command::AnalyzePrometheus,
                Status::Failure,
            ),
        }
        verdict
    }

    /// The metrics that the artifact of a tenant's analysis counts as in
    /// use, in the order of the artifact, given what reading the artifact
    /// gave. Entries without a metric name are passed over. When the list
    /// could be had, the run is counted as a success.
    pub fn analyze_tenant(&self, registry: &mut Registry, artifact: Result<String, String>) -> (
        outcome: Result<Vec<String>, Error>)
        ensures
            names_view(outcome) == tenant_usage(artifact),
            final(registry).counters() == (if tenant_usage(artifact) is Ok {
                counted(
                    old(registry).counters(),
                    execution_key(Command::AnalyzePrometheus, Status::Success),
                )
            } else {
                old(registry).counters()
            }),
            final(registry).gauges() == old(registry).gauges(),
            final(registry).descriptions() == old(registry).descriptions(),
            final(registry).observations() == old(registry).observations(),
    {
        let content = match artifact {
            Ok(content) => content,
            Err(detail) => {
                return Err(Error::Artifact(detail));
            },
        };
        match read_json_listing(content.as_str(), "in_use_metric_counts", "metric") {
            Ok(Some(entries)) => {
                let metrics = present(entries);
                record_mimirtool_execution(registry, Command::AnalyzePrometheus, Status::Success);
                Ok(metrics)
            },
            Ok(None) => Err(Error::MissingUsage),
            Err(message) => Err(Error::Json(message)),
        }
    }

    /// The request for the hundred metric names of the tenant `tenant_id`
    /// with the most series.
    pub fn top_metrics_request(&self, tenant_id: &str) -> (request: Request)
        ensures
            request@ == top_metrics_request(self.config(), tenant_id@),
    {
        let url = self.config.mimir.querier_url.clone().concat(
            "/prometheus/api/v1/cardinality/label_values?label_names[]=__name__&limit=100",
        );
        let mut headers: Vec<(String, String)> = Vec::new();
        headers.push(label("X-Scope-OrgID", tenant_id));
        let request = Request { url, headers, bearer: None };
        assert(request.headers.deep_view() =~= seq![("X-Scope-OrgID"@, tenant_id@)]);
        request
    }

    /// The names of the metrics with the most series that the answer of the
    /// backend lists, in the backend's ranking. A refused request is
    /// counted.
    pub fn get_tenant_top_metrics(
        &self,
        registry: &mut Registry,
        fetched: Result<Reply<Response>, String>,
    ) -> (outcome: Result<Vec<String>, Error>)
        ensures
            names_view(outcome) == top_metrics(fetched),
            final(registry).counters() == (if was_refused(fetched) {
                counted(old(registry).counters(), request_failure_key(Target::Querier))
            } else {
                old(registry).counters()
            }),
            final(registry).gauges() == old(registry).gauges(),
            final(registry).descriptions() == old(registry).descriptions(),
            final(registry).observations() == old(registry).observations(),
    {
        match settle(fetched) {
            Ok(response) => Ok(response.into_label_values()),
            Err(error) => {
                match error {
                    Error::Status(_) => record_external_request_failure(registry, Target::Querier),
                    _ => {},
                }
                Err(error)
            },
        }
    }
}

/// The discovered tenants are a set: no tenant is listed twice, and every
/// tenant that the page names in a selected element is listed.
pub proof fn lemma_discovered_tenants_are_distinct(fetched: Result<Reply<String>, String>)
    ensures
        discovered(fetched) matches Ok(tenants) ==> {
            &&& tenants.no_duplicates()
            &&& settled(fetched) matches Ok(body)
            &&& first_texts(body@, tenant_selector()) matches Ok(texts)
            &&& forall|name: Seq<char>|
                #![trigger tenants.contains(name)]
                tenants.contains(name) <==> present_texts(texts).contains(name)
        },
{
    if let Ok(tenants) = discovered(fetched) {
        let body = settled(fetched)->Ok_0;
        let texts = first_texts(body@, tenant_selector())->Ok_0;
        lemma_deduplicated(present_texts(texts));
    }
}

} // verus!
