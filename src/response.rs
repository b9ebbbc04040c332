//! The response envelope: an article, or a failure message from the service.
use vstd::prelude::*;

use crate::article::{article_of, opt_view, Article, ArticleView};
use crate::error::{DecodeError, Error};
use crate::json::{entry, lookup, Json};

verus! {

/// The message of a failure envelope, or `None` where `j` is not one.
///
/// A failure envelope is an object whose `message` is absent, `null` or a
/// string, and whose `messages` is absent or a string. Its message is
/// `message` where that is a string, else `messages`, else the empty text.
pub open spec fn failure_message(j: Json) -> Option<Seq<char>> {
    match j {
        Json::Object(ms) => {
            let message = entry(ms@, "message"@);
            let messages = entry(ms@, "messages"@);
            let fallback = match messages {
                None => Some(Seq::<char>::empty()),
                Some(Json::Str(s)) => Some(s@),
                _ => None,
            };
            match message {
                None => fallback,
                Some(Json::Null) => fallback,
                Some(Json::Str(s)) => if fallback is Some {
                    Some(s@)
                } else {
                    None
                },
                _ => None,
            }
        },
        _ => None,
    }
}

/// What a response body yields: the article where the body reads as one
/// (this shape is tried first), else the failure envelope's message, else
/// the reason the body is no article.
pub open spec fn outcome_matches(body: Json, r: Result<Article, Error>) -> bool {
    match article_of(body) {
        Ok(a) => r matches Ok(x) && x@ == a,
        Err(e) => match failure_message(body) {
            Some(m) => r matches Err(Error::Api(s)) && s@ == m,
            None => r matches Err(Error::Decode(d)) && d == e,
        },
    }
}

fn read_failure(body: &Json) -> (r: Option<String>)
    ensures
        opt_view(r) == failure_message(*body),
{
    match body {
        Json::Object(ms) => {
            let fallback = match lookup(ms, "messages") {
                None => String::new(),
                Some(Json::Str(s)) => s.clone(),
                Some(_) => return None,
            };
            match lookup(ms, "message") {
                None => Some(fallback),
                Some(Json::Null) => Some(fallback),
                Some(Json::Str(s)) => Some(s.clone()),
                Some(_) => None,
            }
        },
        _ => None,
    }
}

/// Reads a response body: the article it holds, an API error with the
/// service's message, or a decoding error.
pub fn parse_response(body: &Json) -> (r: Result<Article, Error>)
    ensures
        outcome_matches(*body, r),
{
    match Article::from_json(body) {
        Ok(a) => Ok(a),
        Err(e) => match read_failure(body) {
            Some(m) => Err(Error::Api(m)),
            None => Err(Error::Decode(e)),
        },
    }
}

} // verus!
