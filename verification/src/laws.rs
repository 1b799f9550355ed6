//! What holds of every request, whatever the endpoint and whatever came back.

use crate::client::{is_success, reply_outcome, JikanErrorView, ReplyView};
use crate::common::Pagination;
use crate::decode::{optional_member, FromJson};
use crate::encode::ToJson;
use crate::endpoints::{Endpoint, GetUserFavorites};
use crate::json::{Json, JsonView};
use crate::reader::parsed_text;
use crate::users::{UserResponse, UserResponseView};
use vstd::prelude::*;

verus! {

/// An answer with a status outside 200 to 299 is never read as a record: the
/// request ends in the error that carries the status, whatever the body holds.
pub proof fn lemma_error_status_is_error<E: Endpoint>(status: u16, body: Seq<char>)
    requires
        !is_success(status),
    ensures
        reply_outcome::<E::Answer>(ReplyView::Answered { status, body }) == Err::<
            <E::Answer as DeepView>::V,
            JikanErrorView,
        >(JikanErrorView::Status(status)),
{
}

/// A request that got no reply ends in the network error that carries the reason.
pub proof fn lemma_failed_request_is_error<E: Endpoint>(reason: Seq<char>)
    ensures
        reply_outcome::<E::Answer>(ReplyView::Failed { reason }) == Err::<
            <E::Answer as DeepView>::V,
            JikanErrorView,
        >(JikanErrorView::Network(reason)),
{
}

/// A body that is not JSON, or that holds a document of another shape than
/// the endpoint answers with, ends in a deserialization error and in no record.
pub proof fn lemma_malformed_body_is_error<E: Endpoint>(status: u16, body: Seq<char>)
    requires
        is_success(status),
        parsed_text(body) is None || <E::Answer as FromJson>::decoded(parsed_text(body).unwrap())
            is None,
    ensures
        reply_outcome::<E::Answer>(ReplyView::Answered { status, body }) == Err::<
            <E::Answer as DeepView>::V,
            JikanErrorView,
        >(JikanErrorView::Deserialize),
{
}

/// A record comes out of a reply exactly where the service answered with a
/// status from 200 to 299 and a body that holds a document of the right shape;
/// the record is then the one that the document describes.
pub proof fn lemma_record_comes_from_body<E: Endpoint>(reply: ReplyView)
    ensures
        reply_outcome::<E::Answer>(reply) is Ok <==> ({
            &&& reply matches ReplyView::Answered { status, body }
            &&& is_success(status)
            &&& parsed_text(body) matches Some(document)
            &&& <E::Answer as FromJson>::decoded(document) is Some
        }),
        reply_outcome::<E::Answer>(reply) matches Ok(record) ==> ({
            &&& reply matches ReplyView::Answered { status, body }
            &&& parsed_text(body) matches Some(document)
            &&& <E::Answer as FromJson>::decoded(document) == Some(record)
        }),
{
}

/// Fidelity: when the body of a successful answer holds the document that
/// writes a record, reading the reply gives back that record, field for field.
pub proof fn lemma_written_record_is_read_back<E: Endpoint>(
    status: u16,
    body: Seq<char>,
    record: <E::Answer as DeepView>::V,
) where E::Answer: ToJson
    requires
        is_success(status),
        parsed_text(body) == Some(<E::Answer as ToJson>::encoded(record)),
    ensures
        reply_outcome::<E::Answer>(ReplyView::Answered { status, body }) == Ok::<
            <E::Answer as DeepView>::V,
            JikanErrorView,
        >(record),
{
    <E::Answer as ToJson>::lemma_round_trip(record);
}

/// The payload of a favorites answer has no shape of its own: whatever
/// document stands under `data` is handed on unchanged.
pub proof fn lemma_favorites_keep_payload(document: JsonView, payload: JsonView)
    requires
        document is Object,
        document.member("data"@) == Some(payload),
        optional_member::<Pagination>(document, "pagination"@) is Some,
    ensures
        <UserResponse<Json> as FromJson>::decoded(document) == Some(
            UserResponseView {
                data: payload,
                pagination: optional_member::<Pagination>(document, "pagination"@).unwrap(),
            },
        ),
{
}

/// The same of a whole reply: a successful answer to the favorites request
/// whose body holds an object with a member `data` is read as a record that
/// carries that member, whatever kind of document it is.
pub proof fn lemma_favorites_reply_keeps_payload(
    status: u16,
    body: Seq<char>,
    document: JsonView,
    payload: JsonView,
)
    requires
        is_success(status),
        parsed_text(body) == Some(document),
        document is Object,
        document.member("data"@) == Some(payload),
        optional_member::<Pagination>(document, "pagination"@) is Some,
    ensures
        reply_outcome::<<GetUserFavorites as Endpoint>::Answer>(
            ReplyView::Answered { status, body },
        ) matches Ok(record) && record.data == payload,
{
    lemma_favorites_keep_payload(document, payload);
}

} // verus!
