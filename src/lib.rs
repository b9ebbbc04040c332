//! A client library for the Mercury Parser web-content extraction service.
//!
//! The verified part of the client: the article record and its JSON schema,
//! the response envelope that tells an article from a failure, the request
//! URL, and the error taxonomy. Network I/O lives outside this crate's
//! verified core.
use vstd::prelude::*;

pub mod article;
pub mod error;
pub mod json;
pub mod request;
pub mod response;
pub mod timestamp;

pub use article::{default_page_field_value, Article, TextDirection};
pub use error::{DecodeError, Error, Field};
pub use json::Json;
pub use request::{build_url, request_url_text, API_KEY_HEADER, ENDPOINT};
pub use response::parse_response;
pub use timestamp::Timestamp;

verus! {

} // verus!
