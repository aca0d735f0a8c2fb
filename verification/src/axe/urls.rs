//! The URLs of the registry service, read and joined by the url crate.
use vstd::prelude::*;

verus! {

/// The text of the URL that `Url::parse` (url crate) reads from `text`,
/// or `None` where it reads none.
pub uninterp spec fn parsed_url(text: Seq<char>) -> Option<Seq<char>>;

/// The text of the URL that `Url::join` (url crate) gives for `reference`
/// relative to the URL that `Url::parse` reads from `base`, or `None` where
/// either of the two fails.
pub uninterp spec fn joined_url(base: Seq<char>, reference: Seq<char>) -> Option<Seq<char>>;

/// Trusted: `url::Url::parse`. Its result, taken as the text of the URL
/// (`String::from`), is the named `parsed_url` of the input: it depends on
/// the text alone. Nothing is claimed of which texts are URLs.
#[verifier::external_body]
pub(crate) fn parse_url(text: &str) -> (res: Result<String, url::ParseError>)
    ensures
        match res {
            Ok(url) => parsed_url(text@) == Some(url@),
            Err(_) => parsed_url(text@) is None,
        },
{
    url::Url::parse(text).map(String::from)
}

/// Trusted: `url::Url::join` on the URL that `url::Url::parse` reads from
/// `base`, the two calls that a URL read from configuration and then joined
/// makes. The text of the result is the named `joined_url` of the two inputs.
#[verifier::external_body]
pub(crate) fn join_url(base: &str, reference: &str) -> (res: Result<String, url::ParseError>)
    ensures
        match res {
            Ok(url) => joined_url(base@, reference@) == Some(url@),
            Err(_) => joined_url(base@, reference@) is None,
        },
{
    match url::Url::parse(base) {
        Ok(base_url) => base_url.join(reference).map(String::from),
        Err(error) => Err(error),
    }
}

} // verus!

verus! {

/// Why no endpoint of the registry service could be made.
#[derive(Debug, Clone, Copy, PartialEq, Eq, Structural)]
pub enum EndpointError {
    /// No URL of the registry service is configured.
    BaseUrlMissing,
    /// The configured URL of the registry service is no URL.
    BaseUrlInvalid,
    /// The path of the application could not be joined to the service URL.
    PathInvalid,
    /// The URL made from the default service address is no URL.
    DefaultUrlInvalid,
}

} // verus!
