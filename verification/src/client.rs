//! What every request has in common: the reply that comes back for it, the
//! errors it can end in, and the rules that read a reply.

use crate::decimal::{format_i32, integer_text};
use crate::decode::FromJson;
use crate::json::{Json, JsonView};
use crate::reader::parsed_text;
use vstd::prelude::*;
use vstd::string::*;

verus! {

/// Why a request gave no record.
#[derive(Debug, Clone, PartialEq, Eq)]
pub enum JikanError {
    /// No reply came back; the text says why.
    Network(String),
    /// The service answered with a status outside 200 to 299.
    Status(u16),
    /// The body is not JSON, or not JSON of the shape that was asked for.
    Deserialize,
}

/// The mathematical value of a [`JikanError`].
pub enum JikanErrorView {
    Network(Seq<char>),
    Status(u16),
    Deserialize,
}

impl DeepView for JikanError {
    type V = JikanErrorView;

    open spec fn deep_view(&self) -> JikanErrorView {
        match self {
            JikanError::Network(reason) => JikanErrorView::Network(reason@),
            JikanError::Status(status) => JikanErrorView::Status(*status),
            JikanError::Deserialize => JikanErrorView::Deserialize,
        }
    }
}

/// What [`JikanError::message`] says of an error.
pub open spec fn message_text(error: JikanErrorView) -> Seq<char> {
    match error {
        JikanErrorView::Network(reason) => "request failed: "@ + reason,
        JikanErrorView::Status(status) => "unexpected status "@ + integer_text(status as int),
        JikanErrorView::Deserialize => "the body does not have the expected shape"@,
    }
}

impl JikanError {
    /// Says in words what went wrong.
    pub fn message(&self) -> (r: String)
        ensures
            r@ == message_text(self.deep_view()),
    {
        match self {
            JikanError::Network(reason) => {
                let mut text = String::from_str("request failed: ");
                text.append(reason.as_str());
                text
            },
            JikanError::Status(status) => {
                let mut text = String::from_str("unexpected status ");
                let number = format_i32(*status as i32);
                text.append(number.as_str());
                text
            },
            JikanError::Deserialize => String::from_str("the body does not have the expected shape"),
        }
    }
}

/// What the transport hands back for one request.
#[derive(Debug, Clone, PartialEq, Eq)]
pub enum Reply {
    /// The request never got an answer.
    Failed { reason: String },
    /// The service answered.
    Answered { status: u16, body: String },
}

/// The mathematical value of a [`Reply`].
pub enum ReplyView {
    Failed { reason: Seq<char> },
    Answered { status: u16, body: Seq<char> },
}

impl DeepView for Reply {
    type V = ReplyView;

    open spec fn deep_view(&self) -> ReplyView {
        match self {
            Reply::Failed { reason } => ReplyView::Failed { reason: reason@ },
            Reply::Answered { status, body } => ReplyView::Answered {
                status: *status,
                body: body@,
            },
        }
    }
}

/// The mathematical value of what a read returns.
pub open spec fn outcome_view<T: DeepView>(outcome: Result<T, JikanError>) -> Result<
    T::V,
    JikanErrorView,
> {
    match outcome {
        Ok(record) => Ok(record.deep_view()),
        Err(error) => Err(error.deep_view()),
    }
}

/// Whether a status stands for success: 200 to 299.
pub open spec fn is_success(status: u16) -> bool {
    200 <= status <= 299
}

/// What reading a document as `T` gives.
pub open spec fn document_outcome<T: FromJson>(document: JsonView) -> Result<T::V, JikanErrorView> {
    match T::decoded(document) {
        Some(record) => Ok(record),
        None => Err(JikanErrorView::Deserialize),
    }
}

/// What reading a body as `T` gives.
pub open spec fn body_outcome<T: FromJson>(body: Seq<char>) -> Result<T::V, JikanErrorView> {
    match parsed_text(body) {
        Some(document) => document_outcome::<T>(document),
        None => Err(JikanErrorView::Deserialize),
    }
}

/// What reading a reply as `T` gives: the reason of a failed request, the
/// status of an answer outside 200 to 299, and else what the body gives.
pub open spec fn reply_outcome<T: FromJson>(reply: ReplyView) -> Result<T::V, JikanErrorView> {
    match reply {
        ReplyView::Failed { reason } => Err(JikanErrorView::Network(reason)),
        ReplyView::Answered { status, body } => if is_success(status) {
            body_outcome::<T>(body)
        } else {
            Err(JikanErrorView::Status(status))
        },
    }
}

/// Tells whether a status stands for success.
pub fn status_is_success(status: u16) -> (r: bool)
    ensures
        r == is_success(status),
{
    200 <= status && status <= 299
}

/// Reads a document as `T`.
pub fn read_document<T: FromJson>(document: &Json) -> (r: Result<T, JikanError>)
    ensures
        outcome_view(r) == document_outcome::<T>(document@),
{
    match T::from_json(document) {
        Some(record) => Ok(record),
        None => Err(JikanError::Deserialize),
    }
}

/// Reads the body of an answer as `T`.
pub fn read_body<T: FromJson>(body: &str) -> (r: Result<T, JikanError>)
    ensures
        outcome_view(r) == body_outcome::<T>(body@),
{
    match Json::parse(body) {
        Some(document) => read_document::<T>(&document),
        None => Err(JikanError::Deserialize),
    }
}

/// Reads a reply as `T`.
pub fn read_reply<T: FromJson>(reply: &Reply) -> (r: Result<T, JikanError>)
    ensures
        outcome_view(r) == reply_outcome::<T>(reply.deep_view()),
{
    match reply {
        Reply::Failed { reason } => Err(JikanError::Network(reason.clone())),
        Reply::Answered { status, body } => {
            if status_is_success(*status) {
                read_body::<T>(body.as_str())
            } else {
                Err(JikanError::Status(*status))
            }
        },
    }
}

} // verus!
