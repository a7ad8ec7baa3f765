//! Configuration: the endpoint, the persistent identifier, and the address
//! that the session connects to.

use crate::text::{decimal, push_decimal};
use crate::uri::{parse_uri, replace_path, show_uri, uri_parsed, uri_text, uri_with_path};
use vstd::prelude::*;

verus! {

/// Endpoint configuration
#[derive(Debug, Clone, PartialEq, Eq)]
pub struct EndpointConfig {
    /// Endpoint URL to connect to
    pub url: String,
}

/// UUID configuration
#[derive(Debug, Clone, PartialEq, Eq)]
pub struct Config {
    /// UUID
    pub uuid: String,
}

/// Why no address could be made.
#[derive(Debug, Clone, Copy, PartialEq, Eq, Structural)]
pub enum UrlError {
    /// The endpoint is no address.
    Parse,
    /// The endpoint does not take the path and query.
    Build,
}

/// The endpoint to use: the configured one if there is one, else the default.
pub open spec fn endpoint_of(configured: Option<EndpointConfig>, default_url: Seq<char>) -> Seq<
    char,
> {
    match configured {
        Some(e) => e.url@,
        None => default_url,
    }
}

/// The line that tells of a configured endpoint.
pub open spec fn endpoint_line(configured: Option<EndpointConfig>) -> Option<Seq<char>> {
    match configured {
        Some(e) => Some("\u{2713} Using custom endpoint URL: "@ + e.url@),
        None => None,
    }
}

/// The path and query of the session's address: the client's version, the
/// persistent identifier as the token, and the value drawn for this run.
pub open spec fn connection_query(version: Seq<char>, token: Seq<char>, session_id: u32) -> Seq<
    char,
> {
    "/ws?v="@ + version + "&token="@ + token + "&session="@ + decimal(session_id as nat)
}

/// The session's address: the endpoint with the path and query put in the
/// place of its own.
pub open spec fn session_url_of(endpoint: Seq<char>, path_and_query: Seq<char>) -> Result<
    Seq<char>,
    UrlError,
> {
    match uri_parsed(endpoint) {
        None => Err(UrlError::Parse),
        Some(base) => match uri_with_path(base, path_and_query) {
            None => Err(UrlError::Build),
            Some(uri) => Ok(uri_text(uri)),
        },
    }
}

/// The view of an address or the reason why there is none.
pub open spec fn url_view(url: Result<String, UrlError>) -> Result<Seq<char>, UrlError> {
    match url {
        Ok(u) => Ok(u@),
        Err(e) => Err(e),
    }
}

/// Picks the endpoint: the configured one if there is one, else the default.
/// Returns it with the line that tells of a configured endpoint.
pub fn choose_endpoint(configured: Option<EndpointConfig>, default_url: &str) -> (chosen: (
    String,
    Option<String>,
))
    ensures
        chosen.0@ == endpoint_of(configured, default_url@),
        crate::text::opt_view(chosen.1) == endpoint_line(configured),
{
    match configured {
        Some(e) => {
            let mut line = String::from_str("\u{2713} Using custom endpoint URL: ");
            line.append(e.url.as_str());
            (e.url, Some(line))
        },
        None => (String::from_str(default_url), None),
    }
}

/// Writes the path and query of the session's address.
pub fn write_query(version: &str, config: &Config, session_id: u32) -> (query: String)
    ensures
        query@ == connection_query(version@, config.uuid@, session_id),
{
    let mut query = String::from_str("/ws?v=");
    query.append(version);
    query.append("&token=");
    query.append(config.uuid.as_str());
    query.append("&session=");
    push_decimal(&mut query, session_id as u64);
    query
}

/// Makes the session's address from the endpoint, the client's version, the
/// persistent identifier and the value drawn for this run.
pub fn session_url(endpoint: &str, version: &str, config: &Config, session_id: u32) -> (url: Result<
    String,
    UrlError,
>)
    ensures
        url_view(url) == session_url_of(
            endpoint@,
            connection_query(version@, config.uuid@, session_id),
        ),
{
    let query = write_query(version, config, session_id);
    match parse_uri(endpoint) {
        None => Err(UrlError::Parse),
        Some(base) => match replace_path(base, query.as_str()) {
            None => Err(UrlError::Build),
            Some(uri) => Ok(show_uri(&uri)),
        },
    }
}

} // verus!
