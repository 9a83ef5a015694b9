//! What goes to the outside and what comes back: requests to send, answers
//! to requests, the end of an analyzer run, and the ways in which a step can
//! fail.

use vstd::prelude::*;

verus! {

/// A request for a document.
#[derive(Debug, Clone)]
pub struct Request {
    /// The address to get.
    pub url: String,
    /// The headers to send, as names and values.
    pub headers: Vec<(String, String)>,
    /// The bearer token to authenticate with, if any.
    pub bearer: Option<String>,
}

/// What a [`Request`] holds.
pub struct RequestView {
    pub url: Seq<char>,
    pub headers: Seq<(Seq<char>, Seq<char>)>,
    pub bearer: Option<Seq<char>>,
}

impl View for Request {
    type V = RequestView;

    open spec fn view(&self) -> RequestView {
        RequestView {
            url: self.url@,
            headers: self.headers.deep_view(),
            bearer: self.bearer.deep_view(),
        }
    }
}

/// The answer to a request: its status code, and the payload or why the
/// payload could not be read.
#[derive(Debug)]
pub struct Reply<T> {
    pub status: u16,
    pub payload: Result<T, String>,
}

/// How a run of the analyzer ended.
#[derive(Debug, Clone)]
pub struct ProcessOutput {
    /// The exit status says success.
    pub success: bool,
    /// What the run wrote to its error stream.
    pub stderr: String,
}

/// Why a step of the analysis failed.
#[derive(Debug)]
pub enum Error {
    /// The request got no answer.
    Request(String),
    /// The answer came with a status code other than success.
    Status(u16),
    /// The payload of the answer could not be read.
    Payload(String),
    /// The selector for the tenant listing was refused.
    Selector(String),
    /// The analyzer could not be started.
    Spawn(String),
    /// The analyzer ended in failure; this is what it wrote to its error
    /// stream.
    Analyzer(String),
    /// The artifact of the analyzer could not be read.
    Artifact(String),
    /// The artifact of the analyzer is not a JSON document.
    Json(String),
    /// The artifact has no array under `in_use_metric_counts`.
    MissingUsage,
}

/// What an [`Error`] holds.
pub enum ErrorView {
    Request(Seq<char>),
    Status(u16),
    Payload(Seq<char>),
    Selector(Seq<char>),
    Spawn(Seq<char>),
    Analyzer(Seq<char>),
    Artifact(Seq<char>),
    Json(Seq<char>),
    MissingUsage,
}

impl View for Error {
    type V = ErrorView;

    open spec fn view(&self) -> ErrorView {
        match self {
            Error::Request(detail) => ErrorView::Request(detail@),
            Error::Status(code) => ErrorView::Status(*code),
            Error::Payload(detail) => ErrorView::Payload(detail@),
            Error::Selector(detail) => ErrorView::Selector(detail@),
            Error::Spawn(detail) => ErrorView::Spawn(detail@),
            Error::Analyzer(detail) => ErrorView::Analyzer(detail@),
            Error::Artifact(detail) => ErrorView::Artifact(detail@),
            Error::Json(detail) => ErrorView::Json(detail@),
            Error::MissingUsage => ErrorView::MissingUsage,
        }
    }
}

/// A list of names, or the reason why there is none, as plain values.
pub open spec fn names_view(outcome: Result<Vec<String>, Error>) -> Result<
    Seq<Seq<char>>,
    ErrorView,
> {
    match outcome {
        Ok(names) => Ok(names.deep_view()),
        Err(error) => Err(error@),
    }
}

/// Success, or the reason for a failure, as plain values.
pub open spec fn verdict_view(outcome: Result<(), Error>) -> Result<(), ErrorView> {
    match outcome {
        Ok(_) => Ok(()),
        Err(error) => Err(error@),
    }
}

/// A status code of the success class.
pub open spec fn is_success(status: u16) -> bool {
    200 <= status < 300
}

/// What a request yields: the payload of an answer with a success status
/// whose payload could be read, and else the reason why there is none.
pub open spec fn settled<T>(fetched: Result<Reply<T>, String>) -> Result<T, ErrorView> {
    match fetched {
        Err(detail) => Err(ErrorView::Request(detail@)),
        Ok(reply) => if !is_success(reply.status) {
            Err(ErrorView::Status(reply.status))
        } else {
            match reply.payload {
                Ok(payload) => Ok(payload),
                Err(detail) => Err(ErrorView::Payload(detail@)),
            }
        },
    }
}

/// The answer came, with a status code other than success.
pub open spec fn was_refused<T>(fetched: Result<Reply<T>, String>) -> bool {
    fetched matches Ok(reply) && !is_success(reply.status)
}

/// Whether `status` is of the success class.
pub fn status_is_success(status: u16) -> (success: bool)
    ensures
        success == is_success(status),
{
    200 <= status && status < 300
}

/// Settles a request: hands out the payload, or the reason why there is
/// none.
pub fn settle<T>(fetched: Result<Reply<T>, String>) -> (outcome: Result<T, Error>)
    ensures
        match outcome {
            Ok(payload) => settled(fetched) == Ok::<T, ErrorView>(payload),
            Err(error) => settled(fetched) == Err::<T, ErrorView>(error@),
        },
{
    match fetched {
        Err(detail) => Err(Error::Request(detail)),
        Ok(reply) => {
            if !status_is_success(reply.status) {
                Err(Error::Status(reply.status))
            } else {
                match reply.payload {
                    Ok(payload) => Ok(payload),
                    Err(detail) => Err(Error::Payload(detail)),
                }
            }
        },
    }
}

/// How a run of the analyzer is judged: it succeeded, it could not be
/// started, or it ended in failure.
pub open spec fn judged(outcome: Result<ProcessOutput, String>) -> Result<(), ErrorView> {
    match outcome {
        Err(detail) => Err(ErrorView::Spawn(detail@)),
        Ok(output) => if output.success {
            Ok(())
        } else {
            Err(ErrorView::Analyzer(output.stderr@))
        },
    }
}

/// Judges a run of the analyzer.
pub fn judge(outcome: Result<ProcessOutput, String>) -> (verdict: Result<(), Error>)
    ensures
        verdict_view(verdict) == judged(outcome),
{
    match outcome {
        Err(detail) => Err(Error::Spawn(detail)),
        Ok(output) => {
            if output.success {
                Ok(())
            } else {
                Err(Error::Analyzer(output.stderr))
            }
        },
    }
}

} // verus!
