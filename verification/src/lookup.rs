//! What a lookup makes of the answer to its request.
//!
//! A lookup sends one request, to the address that
//! [`request_url`](crate::request::request_url) gives. Sending it is left to
//! the caller, who hands back what came of it as a [`Reply`].

use vstd::prelude::*;
use crate::decode::{decoded_list, list_from_json};
use crate::entry::{views, Word, WordView};
use crate::error::LookupError;
use crate::json::{parse, parsed_json, JsonView};

verus! {

/// What came of the request of a lookup.
#[derive(Debug, Clone, PartialEq, Eq)]
pub enum Reply {
    /// The request was not answered: the service could not be reached, or
    /// the connection failed before the whole answer had arrived.
    Unreachable,
    /// The service answered, with a status code and a body.
    Answered { status: u16, body: String },
}

/// The view of the result of a lookup.
pub open spec fn result_view(result: Result<Vec<Word>, LookupError>) -> Result<
    Seq<WordView>,
    LookupError,
> {
    match result {
        Ok(entries) => Ok(views(entries@)),
        Err(error) => Err(error),
    }
}

/// The entries that a document holds. It must be an array of entries.
pub open spec fn entries_of(document: Option<JsonView>) -> Result<Seq<WordView>, LookupError> {
    match document {
        Some(tree) => match decoded_list::<Word>(tree) {
            Some(entries) => Ok(entries),
            None => Err(LookupError::MalformedResponse),
        },
        None => Err(LookupError::MalformedResponse),
    }
}

/// Whether a status code reports success.
pub open spec fn is_success(status: u16) -> bool {
    200 <= status <= 299
}

/// The failure that a status code reports: none where it reports success,
/// that the word was not found for 404, an unknown one for any other code.
pub open spec fn status_failure(status: u16) -> Option<LookupError> {
    if is_success(status) {
        None
    } else if status == 404 {
        Some(LookupError::NotFoundError)
    } else {
        Some(LookupError::UnknownError)
    }
}

/// What a lookup gives for an answer with this status, whose body reads as
/// this document.
pub open spec fn answer_outcome(status: u16, document: Option<JsonView>) -> Result<
    Seq<WordView>,
    LookupError,
> {
    match status_failure(status) {
        Some(error) => Err(error),
        None => entries_of(document),
    }
}

/// What a lookup gives for a reply.
pub open spec fn outcome(reply: Reply) -> Result<Seq<WordView>, LookupError> {
    match reply {
        Reply::Unreachable => Err(LookupError::ConnectionError),
        Reply::Answered { status, body } => answer_outcome(status, parsed_json(body@)),
    }
}

/// The failure that a status code reports, if it reports one.
pub fn failure_of_status(status: u16) -> (failure: Option<LookupError>)
    ensures
        failure == status_failure(status),
{
    if 200 <= status && status <= 299 {
        None
    } else if status == 404 {
        Some(LookupError::NotFoundError)
    } else {
        Some(LookupError::UnknownError)
    }
}

/// Reads the body of an answer as a list of entries. The list may be empty.
pub fn entries_from_text(body: &str) -> (result: Result<Vec<Word>, LookupError>)
    ensures
        result_view(result) == entries_of(parsed_json(body@)),
{
    match parse(body) {
        Ok(document) => list_from_json::<Word>(&document),
        Err(_) => Err(LookupError::MalformedResponse),
    }
}

/// The result of a lookup, from what came of its request.
pub fn lookup_result(reply: &Reply) -> (result: Result<Vec<Word>, LookupError>)
    ensures
        result_view(result) == outcome(*reply),
{
    match reply {
        Reply::Unreachable => Err(LookupError::ConnectionError),
        Reply::Answered { status, body } => match failure_of_status(*status) {
            Some(error) => Err(error),
            None => entries_from_text(body.as_str()),
        },
    }
}

} // verus!
