//! Forwarding the state of the application to the registry.
use vstd::prelude::*;
use crate::axe::http::{HttpOutcome, STATUS_OK};
use crate::axe::urls::{EndpointError, join_url, joined_url, parse_url, parsed_url};

verus! {

/// The address of the registry service where none is configured.
pub const BRAN_DEFAULT: &'static str = "http://bran:8014";

/// The path under which the registry takes the state of `app_name`.
pub open spec fn forward_path(app_name: Seq<char>) -> Seq<char> {
    "/apps/"@ + app_name
}

/// The URL to which the state of `app_name` is sent: the configured service
/// URL joined with `/apps/<app_name>`; where no URL is configured, or the
/// configured one is no URL, the default address followed by that path.
pub fn forward_endpoint(bran_url: Option<&str>, app_name: &str) -> (res: Result<String, EndpointError>)
    ensures
        match bran_url {
            Some(base) if parsed_url(base@) is Some => match joined_url(base@, forward_path(app_name@)) {
                Some(url) => res matches Ok(endpoint) && endpoint@ == url,
                None => res == Err::<String, EndpointError>(EndpointError::PathInvalid),
            },
            _ => match parsed_url(BRAN_DEFAULT@ + forward_path(app_name@)) {
                Some(url) => res matches Ok(endpoint) && endpoint@ == url,
                None => res == Err::<String, EndpointError>(EndpointError::DefaultUrlInvalid),
            },
        },
{
    let mut path = String::from_str("/apps/");
    path.append(app_name);
    if let Some(base) = bran_url {
        if parse_url(base).is_ok() {
            return match join_url(base, path.as_str()) {
                Ok(endpoint) => Ok(endpoint),
                Err(_) => Err(EndpointError::PathInvalid),
            };
        }
    }
    let mut fallback = String::from_str(BRAN_DEFAULT);
    fallback.append(path.as_str());
    match parse_url(fallback.as_str()) {
        Ok(endpoint) => Ok(endpoint),
        Err(_) => Err(EndpointError::DefaultUrlInvalid),
    }
}

/// What the log says after one attempt to forward the state.
#[derive(Debug, Clone, Copy, PartialEq, Eq, Structural)]
pub enum ForwardReport {
    /// The state counts as delivered.
    Posted,
    /// The registry answered with this status, other than 200.
    Refused(u16),
}

/// The report on one attempt to forward the state.
///
/// Only an answer whose status is not 200 is a refusal; an attempt that got
/// no answer at all is reported as delivered.
pub fn forward_report(outcome: HttpOutcome) -> (report: ForwardReport)
    ensures
        report == match outcome {
            HttpOutcome::Answered(status) if status != STATUS_OK => ForwardReport::Refused(status),
            _ => ForwardReport::Posted,
        },
{
    match outcome {
        HttpOutcome::Answered(status) => {
            if status != STATUS_OK {
                ForwardReport::Refused(status)
            } else {
                ForwardReport::Posted
            }
        },
        HttpOutcome::Unreachable => ForwardReport::Posted,
    }
}

/// The state of an application is forwarded to `/apps/<name>` for every
/// name: the path is the six characters `/apps/` followed by the whole name,
/// so two different names are forwarded to two different paths.
pub proof fn lemma_forward_path_is_apps_then_name(app_name: Seq<char>, other: Seq<char>)
    ensures
        forward_path(app_name).len() == app_name.len() + 6,
        forward_path(app_name)[0] == '/',
        forward_path(app_name)[1] == 'a',
        forward_path(app_name)[2] == 'p',
        forward_path(app_name)[3] == 'p',
        forward_path(app_name)[4] == 's',
        forward_path(app_name)[5] == '/',
        forward_path(app_name).subrange(6, forward_path(app_name).len() as int) == app_name,
        forward_path(app_name) == forward_path(other) ==> app_name == other,
{
    reveal_strlit("/apps/");
    let p = forward_path(app_name);
    assert(p.subrange(6, p.len() as int) =~= app_name);
    let q = forward_path(other);
    assert(q.subrange(6, q.len() as int) =~= other);
}

/// Without a usable configured URL, the state of `app_name` goes to the
/// text `http://bran:8014/apps/<app_name>`, read as a URL.
pub proof fn lemma_default_forward_url(app_name: Seq<char>)
    ensures
        BRAN_DEFAULT@ + forward_path(app_name) == "http://bran:8014/apps/"@ + app_name,
{
    reveal_strlit("http://bran:8014");
    reveal_strlit("/apps/");
    reveal_strlit("http://bran:8014/apps/");
    assert(BRAN_DEFAULT@ + forward_path(app_name) =~= "http://bran:8014/apps/"@ + app_name);
}

} // verus!
