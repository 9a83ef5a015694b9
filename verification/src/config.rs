//! The settings of one running instance.

use vstd::prelude::*;
use vstd::string::StringExecFns;

verus! {

/// Where the listener for liveness and metrics requests binds.
#[derive(Debug, Clone)]
pub struct Http {
    pub host: String,
    pub port: u16,
}

/// How to reach the metrics backend.
#[derive(Debug, Clone)]
pub struct Mimir {
    pub store_gateway_url: String,
    pub querier_url: String,
}

/// How to reach the dashboard and alerting system.
#[derive(Debug, Clone)]
pub struct Grafana {
    pub url: String,
    pub token: String,
    pub insecure: bool,
}

/// All settings, with the directory that receives the analyzer's artifacts.
#[derive(Debug, Clone)]
pub struct Config {
    pub grafana: Grafana,
    pub mimir: Mimir,
    pub http: Http,
    pub output_dir: String,
}

/// Where the access token of the dashboard system comes from.
#[derive(Debug, Clone)]
pub enum TokenSource {
    /// The token itself.
    Literal(String),
    /// The name of the environment variable that holds the token.
    Environment(String),
}

/// The token source that a configuration document asks for: the environment
/// variable only when no token is written out and a variable is named,
/// otherwise the written token, or the empty token when there is none.
pub open spec fn chosen_token_source(
    token: Option<Seq<char>>,
    token_from: Option<Seq<char>>,
) -> (bool, Seq<char>) {
    match (token, token_from) {
        (None, Some(name)) => (true, name),
        (Some(literal), _) => (false, literal),
        (None, None) => (false, Seq::empty()),
    }
}

impl TokenSource {
    /// Whether the token is to be read from the environment, and the text
    /// that the source carries.
    pub open spec fn view(&self) -> (bool, Seq<char>) {
        match self {
            TokenSource::Environment(name) => (true, name@),
            TokenSource::Literal(literal) => (false, literal@),
        }
    }
}

impl Config {
    /// The same settings with `output_dir` as the directory for artifacts.
    pub fn with_output_dir(self, output_dir: String) -> (config: Config)
        ensures
            config.output_dir == output_dir,
            config.grafana == self.grafana,
            config.mimir == self.mimir,
            config.http == self.http,
    {
        Config { grafana: self.grafana, mimir: self.mimir, http: self.http, output_dir }
    }
}

impl Grafana {
    /// Decides where the token comes from, given the `token` and `tokenFrom`
    /// entries of a configuration document.
    pub fn token_source(token: Option<String>, token_from: Option<String>) -> (source: TokenSource)
        ensures
            source.view() == chosen_token_source(token.deep_view(), token_from.deep_view()),
    {
        match token {
            Some(literal) => TokenSource::Literal(literal),
            None => match token_from {
                Some(name) => TokenSource::Environment(name),
                None => {
                    proof {
                        reveal_strlit("");
                    }
                    TokenSource::Literal(String::from_str(""))
                },
            },
        }
    }

    /// The settings for the dashboard system at `url`, with the resolved
    /// `token`.
    pub fn new(url: String, token: String, insecure: bool) -> (grafana: Grafana)
        ensures
            grafana.url == url,
            grafana.token == token,
            grafana.insecure == insecure,
    {
        Grafana { url, token, insecure }
    }
}

} // verus!
