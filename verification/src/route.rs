//! What a query request needs to be accepted, and what the caller is told.

use crate::error::message_text;
use crate::error::PoolError;
use vstd::prelude::*;

verus! {

/// A request: the text to search for.
#[derive(Debug, PartialEq, Eq)]
pub struct QueryRequest {
    pub search: String,
}

/// An answer: the worker's reply.
#[derive(Debug, PartialEq, Eq)]
pub struct QueryResponse {
    pub response: String,
}

/// Why a request with this text is turned away before it reaches the pool:
/// only the empty text is.
pub open spec fn rejection_text(search: Seq<char>) -> Option<Seq<char>> {
    if search.len() == 0 {
        Some("Empty strings are not accepted"@)
    } else {
        None
    }
}

impl QueryRequest {
    /// The reason for which the request is turned away, if it is.
    pub fn rejection(&self) -> (reason: Option<String>)
        ensures
            match reason {
                Some(text) => rejection_text(self.search@) == Some(text@),
                None => rejection_text(self.search@).is_none(),
            },
    {
        if self.search.as_str().is_empty() {
            Some(String::from_str("Empty strings are not accepted"))
        } else {
            None
        }
    }
}

impl QueryResponse {
    /// The answer to a query that ended with `outcome`, or the text that
    /// tells the caller why there is none.
    pub fn from_outcome(outcome: Result<String, PoolError>) -> (answer: Result<
        QueryResponse,
        String,
    >)
        ensures
            match answer {
                Ok(response) => outcome matches Ok(reply) && response.response@ == reply@,
                Err(text) => outcome matches Err(error) && text@ == message_text(error@),
            },
    {
        match outcome {
            Ok(reply) => Ok(QueryResponse { response: reply }),
            Err(error) => Err(error.message()),
        }
    }
}

} // verus!
