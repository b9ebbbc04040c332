//! The request that asks the service to parse one article.
use vstd::prelude::*;

use hyper::error::UriError;
use hyper::Uri;

use crate::error::Error;

verus! {

#[verifier::external_type_specification]
#[verifier::external_body]
pub struct ExUri(Uri);

/// The service's parser endpoint.
pub const ENDPOINT: &'static str = "https://mercury.postlight.com/parser";

/// The header that carries the API key, verbatim.
pub const API_KEY_HEADER: &'static str = "X-Api-Key";

/// The request URL for a resource: the endpoint with the resource appended,
/// unescaped, as its `url` query parameter.
pub open spec fn request_url(resource: Seq<char>) -> Seq<char> {
    ENDPOINT@ + "?url="@ + resource
}

/// Whether hyper reads a text as a URI.
pub uninterp spec fn uri_accepts(text: Seq<char>) -> bool;

/// Relies on hyper's `FromStr` for `Uri`: it succeeds on exactly the texts
/// it accepts, which depends on the text alone.
#[verifier::external_body]
fn parse_uri(text: &str) -> (r: Result<Uri, UriError>)
    ensures
        r is Ok == uri_accepts(text@),
{
    text.parse::<Uri>()
}

/// The text of the request URL for `resource`.
pub fn request_url_text(resource: &str) -> (r: String)
    ensures
        r@ == request_url(resource@),
{
    let mut raw = String::from_str(ENDPOINT);
    raw.append("?url=");
    raw.append(resource);
    raw
}

/// The request URL for `resource`, or a URI error where hyper does not read
/// the composed text as a URI.
pub fn build_url(resource: &str) -> (r: Result<Uri, Error>)
    ensures
        r is Ok == uri_accepts(request_url(resource@)),
        r matches Err(e) ==> e is Uri,
{
    let raw = request_url_text(resource);
    match parse_uri(raw.as_str()) {
        Ok(u) => Ok(u),
        Err(e) => Err(Error::from(e)),
    }
}

} // verus!
