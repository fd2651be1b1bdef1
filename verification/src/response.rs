//! Response normalization: every round trip ends in exactly one of a typed
//! body, a rejection by the remote side, a body of the wrong shape, or a
//! transport failure.

use crate::decode::FromJson;
use crate::json::{parsed, Json};
use vstd::prelude::*;

verus! {

/// What the transport hands back for one request.
#[derive(Clone, Debug, PartialEq, Eq)]
pub enum Reply {
    /// The request never completed; `cause` describes the failure.
    Failed { cause: String },
    /// The remote side answered with `status` and the text `body`.
    Answered { status: u16, body: String },
}

/// Why a body was not accepted.
#[derive(Clone, Copy, Debug, PartialEq, Eq)]
pub enum DecodeError {
    /// The body is not a JSON document.
    NotJson,
    /// The body is JSON, but a field of the expected record is missing or
    /// holds a value of the wrong type.
    Mismatch,
}

/// The single error channel of every endpoint.
#[derive(Clone, Debug, PartialEq, Eq)]
pub enum ApiError {
    /// The request never completed.
    Transport(String),
    /// The remote side declined the request; `body` is its text, untouched.
    Rejected { status: u16, body: String },
    /// The remote side reported success, but the body does not have the
    /// expected shape.
    Decode(DecodeError),
}

/// Whether an HTTP status code reports success, that is, lies in `[200, 300)`.
pub open spec fn is_success(status: u16) -> bool {
    200 <= status < 300
}

/// Tests a status code for success.
pub fn status_is_success(status: u16) -> (r: bool)
    ensures
        r == is_success(status),
{
    200 <= status && status < 300
}

/// The error for a successful status whose body parsed to `document`, if
/// the document is not accepted as a `T`.
pub open spec fn refusal<T: FromJson>(document: Option<Json>) -> Option<ApiError> {
    match document {
        None => Some(ApiError::Decode(DecodeError::NotJson)),
        Some(json) => if T::fits(json) {
            None
        } else {
            Some(ApiError::Decode(DecodeError::Mismatch))
        },
    }
}

/// The error that `reply` stands for when a `T` is expected, if it stands
/// for one.
pub open spec fn failure<T: FromJson>(reply: Reply) -> Option<ApiError> {
    match reply {
        Reply::Failed { cause } => Some(ApiError::Transport(cause)),
        Reply::Answered { status, body } => if is_success(status) {
            refusal::<T>(parsed(body@))
        } else {
            Some(ApiError::Rejected { status, body })
        },
    }
}

/// The result that `reply` stands for when no body is expected.
pub open spec fn acknowledged(reply: Reply) -> Result<(), ApiError> {
    match reply {
        Reply::Failed { cause } => Err(ApiError::Transport(cause)),
        Reply::Answered { status, body } => if is_success(status) {
            Ok(())
        } else {
            Err(ApiError::Rejected { status, body })
        },
    }
}

/// Whether `r` is the result that `reply` stands for when a `T` is expected:
/// the error that the reply stands for, or else the value that its body
/// holds.
pub open spec fn stands_for<T: FromJson>(reply: Reply, r: Result<T, ApiError>) -> bool {
    match r {
        Ok(value) => {
            &&& failure::<T>(reply) is None
            &&& reply matches Reply::Answered { body, .. }
            &&& value.read_from(parsed(body@).unwrap())
        },
        Err(e) => failure::<T>(reply) == Some(e),
    }
}

/// Every reply ends in exactly one of four ways, and the reply decides
/// which. A request that never completed is a transport failure. A status
/// outside `[200, 300)` is a rejection that carries that status and the
/// body as it came, whatever the body holds. A status inside is a value
/// when the body has the expected shape, and a decode error when it has
/// not; a value is never made from a body that lacks a part of it.
pub proof fn lemma_classification<T: FromJson>(reply: Reply, r: Result<T, ApiError>)
    requires
        stands_for(reply, r),
    ensures
        reply is Failed <==> r matches Err(ApiError::Transport(_)),
        reply is Failed ==> r == Err::<T, ApiError>(ApiError::Transport(reply->cause)),
        (reply is Answered && !is_success(reply->status)) <==> r matches Err(
            ApiError::Rejected { .. },
        ),
        (reply is Answered && !is_success(reply->status)) ==> r == Err::<T, ApiError>(
            ApiError::Rejected { status: reply->status, body: reply->body },
        ),
        (reply is Answered && is_success(reply->status)) <==> (r is Ok || r matches Err(
            ApiError::Decode(_),
        )),
        r is Ok ==> parsed(reply->body@) is Some && T::fits(parsed(reply->body@).unwrap()),
        (reply is Answered && is_success(reply->status) && parsed(reply->body@) is None) ==> r
            == Err::<T, ApiError>(ApiError::Decode(DecodeError::NotJson)),
        (reply is Answered && is_success(reply->status) && parsed(reply->body@) is Some
            && !T::fits(parsed(reply->body@).unwrap())) ==> r == Err::<T, ApiError>(
            ApiError::Decode(DecodeError::Mismatch),
        ),
{
}

/// Reads a `T` from the document that a successful body parsed to.
pub fn accept<T: FromJson>(document: Option<Json>) -> (r: Result<T, ApiError>)
    ensures
        match r {
            Ok(value) => refusal::<T>(document) is None && value.read_from(document.unwrap()),
            Err(e) => refusal::<T>(document) == Some(e),
        },
{
    match document {
        None => Err(ApiError::Decode(DecodeError::NotJson)),
        Some(json) => match T::from_json(&json) {
            Some(value) => Ok(value),
            None => Err(ApiError::Decode(DecodeError::Mismatch)),
        },
    }
}

/// Classifies `reply` and, on success, decodes its body as a `T`.
pub fn normalize<T: FromJson>(reply: Reply) -> (r: Result<T, ApiError>)
    ensures
        stands_for(reply, r),
{
    match reply {
        Reply::Failed { cause } => Err(ApiError::Transport(cause)),
        Reply::Answered { status, body } => {
            if status_is_success(status) {
                accept(Json::parse(body.as_str()))
            } else {
                Err(ApiError::Rejected { status, body })
            }
        },
    }
}

/// Classifies `reply` where success carries no body that matters.
pub fn acknowledge(reply: Reply) -> (r: Result<(), ApiError>)
    ensures
        r == acknowledged(reply),
{
    match reply {
        Reply::Failed { cause } => Err(ApiError::Transport(cause)),
        Reply::Answered { status, body } => {
            if status_is_success(status) {
                Ok(())
            } else {
                Err(ApiError::Rejected { status, body })
            }
        },
    }
}

} // verus!
