//! Queries over NATS request-reply: the request subjects and the replies that
//! a query service sends and a client reads.
use vstd::prelude::*;

use crate::error::{error_message, Error, ErrorView};
use crate::event_modeling::{query_subject_of, ComponentName};
use crate::text::push_str;

verus! {

/// The kind of query request sent over NATS request-reply.
#[derive(Debug)]
pub enum QueryRequest<Q, Id> {
    /// Fetch a single read model instance by its identifier.
    GetById(Id),
    /// Execute a custom query.
    Query(Q),
}

/// Serializable error payload returned by the NATS query service.
#[derive(Debug)]
pub enum QueryReplyError {
    /// An internal or transport error occurred.
    Internal(String),
}

/// Serializable reply payload for a `get_by_id` request.
#[derive(Debug)]
pub struct GetByIdReply<RM> {
    /// The read model instance, or `None` if not found.
    pub result: Option<RM>,
    /// `None` indicates success. `Some(...)` contains the failure.
    pub error: Option<QueryReplyError>,
}

/// Serializable reply payload for a custom query request.
#[derive(Debug)]
pub struct QueryReply<R> {
    /// The query response, present when the request succeeded.
    pub result: Option<R>,
    /// `None` indicates success. `Some(...)` contains the failure.
    pub error: Option<QueryReplyError>,
}

/// `<query subject>.query`: the subject that query requests for a component
/// are sent to.
pub fn query_request_subject(name: &ComponentName) -> (r: String)
    ensures
        r@ == query_subject_of(name@) + ".query"@,
{
    let mut s = name.query_subject();
    push_str(&mut s, ".query");
    s
}

/// The error reply to a request that could not be read.
pub fn bad_request_error(message: String) -> (r: QueryReplyError)
    ensures
        r matches QueryReplyError::Internal(m) && m@ == "failed to deserialize query request: "@
            + message@,
{
    let mut m = "failed to deserialize query request: ".to_owned();
    push_str(&mut m, message.as_str());
    QueryReplyError::Internal(m)
}

/// The reply to a `get_by_id` request: the handler's result, or its error's
/// message.
pub fn get_by_id_reply<RM>(result: Result<Option<RM>, Error>) -> (r: GetByIdReply<RM>)
    ensures
        match result {
            Ok(v) => r.result == v && r.error is None,
            Err(e) => r.result is None && (r.error matches Some(QueryReplyError::Internal(m))
                && m@ == error_message(e@)),
        },
{
    match result {
        Ok(v) => GetByIdReply { result: v, error: None },
        Err(e) => GetByIdReply { result: None, error: Some(QueryReplyError::Internal(e.message())) },
    }
}

/// The reply to a custom query: the handler's response, or its error's message.
pub fn query_reply<R>(result: Result<R, Error>) -> (r: QueryReply<R>)
    ensures
        match result {
            Ok(v) => r.result == Some(v) && r.error is None,
            Err(e) => r.result is None && (r.error matches Some(QueryReplyError::Internal(m))
                && m@ == error_message(e@)),
        },
{
    match result {
        Ok(v) => QueryReply { result: Some(v), error: None },
        Err(e) => QueryReply { result: None, error: Some(QueryReplyError::Internal(e.message())) },
    }
}

/// What a client makes of a `get_by_id` reply: its result, or its error as
/// an internal error.
pub fn get_by_id_outcome<RM>(reply: GetByIdReply<RM>) -> (r: Result<Option<RM>, Error>)
    ensures
        match reply.error {
            None => r == Ok::<Option<RM>, Error>(reply.result),
            Some(QueryReplyError::Internal(m)) => r matches Err(e) && e@ == ErrorView::Internal(m@),
        },
{
    match reply.error {
        None => Ok(reply.result),
        Some(QueryReplyError::Internal(m)) => Err(Error::Internal(m)),
    }
}

/// The message of a query reply that holds neither a result nor an error.
pub open spec fn empty_reply_message() -> Seq<char> {
    "query reply contained no result and no error"@
}

/// What a client makes of a query reply: its error as an internal error, else
/// its result, which must be present.
pub fn query_outcome<R>(reply: QueryReply<R>) -> (r: Result<R, Error>)
    ensures
        match (reply.error, reply.result) {
            (Some(QueryReplyError::Internal(m)), _) => r matches Err(e) && e@ == ErrorView::Internal(m@),
            (None, Some(v)) => r == Ok::<R, Error>(v),
            (None, None) => r matches Err(e) && e@ == ErrorView::Internal(empty_reply_message()),
        },
{
    match reply.error {
        Some(QueryReplyError::Internal(m)) => Err(Error::Internal(m)),
        None => match reply.result {
            Some(v) => Ok(v),
            None => Err(Error::Internal("query reply contained no result and no error".to_owned())),
        },
    }
}

} // verus!
