//! Addresses, read and put together by the `http` crate.
//!
//! Nothing here is proved. Each function below calls into `http` and says of
//! the result only that it is what the call returns, under a name that the
//! rest of the crate can speak of.

use vstd::prelude::*;

verus! {

/// `http::Uri`, a parsed address. Its inside is hidden from proofs.
#[verifier::external_type_specification]
#[verifier::external_body]
pub struct ExUri(http::Uri);

/// The address that `Uri::from_str` reads from a text, `None` where it
/// reports an error.
pub uninterp spec fn uri_parsed(text: Seq<char>) -> Option<http::Uri>;

/// The address that `uri::Builder` builds from the parts of an address with
/// another path and query, `None` where it reports an error.
pub uninterp spec fn uri_with_path(base: http::Uri, path_and_query: Seq<char>) -> Option<
    http::Uri,
>;

/// The text that an address is displayed as.
pub uninterp spec fn uri_text(uri: http::Uri) -> Seq<char>;

/// Parses a text with `Uri::from_str` and drops the error. The result is the
/// one named by [`uri_parsed`].
#[verifier::external_body]
pub(crate) fn parse_uri(text: &str) -> (uri: Option<http::Uri>)
    ensures
        uri == uri_parsed(text@),
{
    text.parse::<http::Uri>().ok()
}

/// Starts a `uri::Builder` from an address, gives it a path and query, builds
/// the address and drops the error. The result is the one named by
/// [`uri_with_path`].
#[verifier::external_body]
pub(crate) fn replace_path(base: http::Uri, path_and_query: &str) -> (uri: Option<http::Uri>)
    ensures
        uri == uri_with_path(base, path_and_query@),
{
    http::uri::Builder::from(base).path_and_query(path_and_query).build().ok()
}

/// Displays an address with `to_string`. The result is the one named by
/// [`uri_text`].
#[verifier::external_body]
pub(crate) fn show_uri(uri: &http::Uri) -> (text: String)
    ensures
        text@ == uri_text(*uri),
{
    uri.to_string()
}

} // verus!
