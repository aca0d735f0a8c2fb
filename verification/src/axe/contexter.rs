//! Fetching the location context of the application from the registry.
use vstd::prelude::*;
use vstd::string::to_string_from_display_ensures;
use crate::axe::http::{HttpOutcome, STATUS_NOT_FOUND, STATUS_OK, STATUS_SERVICE_UNAVAILABLE};
use crate::axe::urls::{EndpointError, join_url, joined_url, parse_url, parsed_url};
use starduck::Application;

verus! {

/// The path, relative to the service URL, under which the registry keeps
/// the context of the application `app_name`.
pub open spec fn context_path(app_name: Seq<char>) -> Seq<char> {
    "apps/"@ + app_name
}

/// The URL from which the location context of `app_name` is fetched: the
/// configured service URL `bran_url` joined with `apps/<app_name>`.
pub fn location_endpoint(bran_url: Option<&str>, app_name: &str) -> (res: Result<String, EndpointError>)
    ensures
        match bran_url {
            None => res == Err::<String, EndpointError>(EndpointError::BaseUrlMissing),
            Some(base) => match parsed_url(base@) {
                None => res == Err::<String, EndpointError>(EndpointError::BaseUrlInvalid),
                Some(_) => match joined_url(base@, context_path(app_name@)) {
                    Some(url) => res matches Ok(endpoint) && endpoint@ == url,
                    None => res == Err::<String, EndpointError>(EndpointError::PathInvalid),
                },
            },
        },
{
    let base = match bran_url {
        None => return Err(EndpointError::BaseUrlMissing),
        Some(base) => base,
    };
    if parse_url(base).is_err() {
        return Err(EndpointError::BaseUrlInvalid);
    }
    let mut path = String::from_str("apps/");
    path.append(app_name);
    match join_url(base, path.as_str()) {
        Ok(endpoint) => Ok(endpoint),
        Err(_) => Err(EndpointError::PathInvalid),
    }
}

/// What the log says of a fetch that has to be tried again.
#[derive(Debug, Clone, Copy, PartialEq, Eq, Structural)]
pub enum FetchNotice {
    /// The registry does not know the application yet.
    AwaitingContext,
    /// The registry could not be reached or is not running.
    ServiceUnavailable,
    /// The registry answered with a status that was not expected.
    UnexpectedStatus(u16),
}

/// What to do after one request for the location context.
#[derive(Debug, Clone, Copy, PartialEq, Eq, Structural)]
pub enum FetchStep {
    /// The answer holds the context: read it from the body.
    ReadContext,
    /// Report `notice`, wait `wait_secs` seconds and ask again.
    Retry { notice: FetchNotice, wait_secs: u64 },
}

/// The decision taken after each request for the location context, where
/// `retry_secs` is the configured wait between two requests.
///
/// Only an answer with status 200 ends the fetching; any other outcome is
/// reported and followed by a wait of `retry_secs` seconds.
pub fn next_fetch_step(outcome: HttpOutcome, retry_secs: u64) -> (step: FetchStep)
    ensures
        step == match outcome {
            HttpOutcome::Unreachable => FetchStep::Retry {
                notice: FetchNotice::ServiceUnavailable,
                wait_secs: retry_secs,
            },
            HttpOutcome::Answered(status) => if status == STATUS_OK {
                FetchStep::ReadContext
            } else if status == STATUS_NOT_FOUND {
                FetchStep::Retry { notice: FetchNotice::AwaitingContext, wait_secs: retry_secs }
            } else if status == STATUS_SERVICE_UNAVAILABLE {
                FetchStep::Retry { notice: FetchNotice::ServiceUnavailable, wait_secs: retry_secs }
            } else {
                FetchStep::Retry { notice: FetchNotice::UnexpectedStatus(status), wait_secs: retry_secs }
            },
        },
        (step == FetchStep::ReadContext) <==> (outcome == HttpOutcome::Answered(STATUS_OK)),
        step matches FetchStep::Retry { wait_secs, .. } ==> wait_secs == retry_secs,
{
    match outcome {
        HttpOutcome::Unreachable => FetchStep::Retry {
            notice: FetchNotice::ServiceUnavailable,
            wait_secs: retry_secs,
        },
        HttpOutcome::Answered(status) => {
            if status == STATUS_OK {
                FetchStep::ReadContext
            } else if status == STATUS_NOT_FOUND {
                FetchStep::Retry { notice: FetchNotice::AwaitingContext, wait_secs: retry_secs }
            } else if status == STATUS_SERVICE_UNAVAILABLE {
                FetchStep::Retry { notice: FetchNotice::ServiceUnavailable, wait_secs: retry_secs }
            } else {
                FetchStep::Retry {
                    notice: FetchNotice::UnexpectedStatus(status),
                    wait_secs: retry_secs,
                }
            }
        },
    }
}

/// Whether `serde_json` decodes the bytes `body` as an application record
/// (`starduck::Application`).
pub uninterp spec fn is_application_record(body: Seq<u8>) -> bool;

/// Trusted: `serde_json::from_slice::<starduck::Application>`, the decoding
/// that an HTTP client applies to a JSON body. It succeeds exactly on the
/// bodies named by `is_application_record`: the decoding depends on the bytes
/// alone. The decoded application itself is left opaque.
#[verifier::external_body]
pub(crate) fn decode_application(body: &[u8]) -> (res: Result<Application, serde_json::Error>)
    ensures
        res is Ok <==> is_application_record(body@),
{
    serde_json::from_slice::<Application>(body)
}

/// Why a body sent by the registry holds no location context.
#[derive(Debug, Clone, PartialEq, Eq)]
pub enum ContextError {
    /// The body is no application record; the decoder said why.
    Malformed(String),
}

/// The location context of the application, read from the body of the
/// answer that `next_fetch_step` told to read.
pub fn read_context(body: &[u8]) -> (res: Result<Application, ContextError>)
    ensures
        res is Ok <==> is_application_record(body@),
        res matches Err(ContextError::Malformed(text)) ==> exists|error: serde_json::Error|
            to_string_from_display_ensures::<serde_json::Error>(&error, text),
{
    match decode_application(body) {
        Ok(app) => Ok(app),
        Err(error) => {
            let text = error.to_string();
            assert(exists|e: serde_json::Error| to_string_from_display_ensures::<serde_json::Error>(&e, text));
            let res: Result<Application, ContextError> = Err(ContextError::Malformed(text));
            assert(res matches Err(ContextError::Malformed(t)) && t == text);
            res
        },
    }
}

/// The context of an application is fetched from `apps/<name>` for every
/// name: the path is the five characters `apps/` followed by the whole name,
/// so two different names are fetched from two different paths.
pub proof fn lemma_context_path_is_apps_then_name(app_name: Seq<char>, other: Seq<char>)
    ensures
        context_path(app_name).len() == app_name.len() + 5,
        context_path(app_name)[0] == 'a',
        context_path(app_name)[1] == 'p',
        context_path(app_name)[2] == 'p',
        context_path(app_name)[3] == 's',
        context_path(app_name)[4] == '/',
        context_path(app_name).subrange(5, context_path(app_name).len() as int) == app_name,
        context_path(app_name) == context_path(other) ==> app_name == other,
{
    reveal_strlit("apps/");
    let p = context_path(app_name);
    assert(p.subrange(5, p.len() as int) =~= app_name);
    let q = context_path(other);
    assert(q.subrange(5, q.len() as int) =~= other);
}

} // verus!
