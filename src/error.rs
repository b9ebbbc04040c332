//! Types representing errors that can occur.
use vstd::prelude::*;

use hyper::error::UriError;

verus! {

#[verifier::external_type_specification]
#[verifier::external_body]
pub struct ExUriError(UriError);

/// A member of the article schema.
#[derive(Clone, Copy, Debug, PartialEq, Eq, Structural, Hash)]
pub enum Field {
    Author,
    Content,
    DatePublished,
    Dek,
    Direction,
    Excerpt,
    LeadImageUrl,
    NextPageUrl,
    RenderedPages,
    Title,
    TotalPages,
    Url,
    WordCount,
}

/// Why a JSON value is not an article.
#[derive(Clone, Copy, Debug, PartialEq, Eq, Structural, Hash)]
pub enum DecodeError {
    /// The value is not a JSON object.
    NotAnObject,
    /// A required member is absent.
    Missing(Field),
    /// A member holds a value of the wrong kind or out of range.
    Invalid(Field),
}

/// What can go wrong while reading an article from the service.
#[derive(Debug)]
pub enum Error {
    /// The request URL is not a valid URI.
    Uri(UriError),
    /// The service answered with a failure envelope; this is its message.
    Api(String),
    /// The response body is neither an article nor a failure envelope.
    Decode(DecodeError),
}

impl From<UriError> for Error {
    fn from(e: UriError) -> (r: Error)
        ensures
            r == Error::Uri(e),
    {
        Error::Uri(e)
    }
}

impl vstd::std_specs::convert::FromSpecImpl<UriError> for Error {
    open spec fn obeys_from_spec() -> bool {
        true
    }

    open spec fn from_spec(e: UriError) -> Error {
        Error::Uri(e)
    }
}

} // verus!
