//! Writing typed values as JSON documents, and the law that reading gives
//! back what was written.

use crate::decimal::{format_i32, integer_text, lemma_integer_text_round_trip};
use crate::decode::{decoded_items, FromJson};
use crate::json::{items_view, Json, JsonView, Number};
use vstd::prelude::*;

verus! {

/// A type that can be written as a JSON document and read back from it.
pub trait ToJson: FromJson {
    /// The document that writes `value`.
    spec fn encoded(value: Self::V) -> JsonView;

    /// Writes the value as a document.
    fn to_json(&self) -> (r: Json)
        ensures
            r@ == Self::encoded(self.deep_view()),
    ;

    /// Reading the document that writes a value gives back that value.
    proof fn lemma_round_trip(value: Self::V)
        ensures
            Self::decoded(Self::encoded(value)) == Some(value),
    ;
}

/// The document for a field that may be empty: `null` for nothing.
pub open spec fn encoded_optional<T: ToJson>(value: Option<T::V>) -> JsonView {
    match value {
        Some(inner) => T::encoded(inner),
        None => JsonView::Null,
    }
}

/// Writes a field that may be empty.
pub fn write_optional<T: ToJson>(value: &Option<T>) -> (r: Json)
    ensures
        r@ == encoded_optional::<T>(value.deep_view()),
{
    match value {
        Some(inner) => inner.to_json(),
        None => Json::Null,
    }
}

impl ToJson for String {
    open spec fn encoded(value: Seq<char>) -> JsonView {
        JsonView::String(value)
    }

    fn to_json(&self) -> (r: Json) {
        Json::String(self.clone())
    }

    proof fn lemma_round_trip(value: Seq<char>) {
    }
}

impl ToJson for bool {
    open spec fn encoded(value: bool) -> JsonView {
        JsonView::Bool(value)
    }

    fn to_json(&self) -> (r: Json) {
        Json::Bool(*self)
    }

    proof fn lemma_round_trip(value: bool) {
    }
}

impl ToJson for i32 {
    open spec fn encoded(value: i32) -> JsonView {
        JsonView::Number(integer_text(value as int))
    }

    fn to_json(&self) -> (r: Json) {
        Json::Number(format_i32(*self))
    }

    proof fn lemma_round_trip(value: i32) {
        lemma_integer_text_round_trip(value as int);
    }
}

impl ToJson for Number {
    open spec fn encoded(value: Seq<char>) -> JsonView {
        JsonView::Number(value)
    }

    fn to_json(&self) -> (r: Json) {
        Json::Number(self.text.clone())
    }

    proof fn lemma_round_trip(value: Seq<char>) {
    }
}

impl ToJson for Json {
    open spec fn encoded(value: JsonView) -> JsonView {
        value
    }

    fn to_json(&self) -> (r: Json) {
        self.clone()
    }

    proof fn lemma_round_trip(value: JsonView) {
    }
}

impl<T: ToJson> ToJson for Vec<T> {
    open spec fn encoded(value: Seq<T::V>) -> JsonView {
        JsonView::Array(Seq::new(value.len(), |i: int| T::encoded(value[i])))
    }

    fn to_json(&self) -> (r: Json) {
        let mut items: Vec<Json> = Vec::new();
        let mut i: usize = 0;
        while i < self.len()
            invariant
                i <= self.len(),
                items.len() == i,
                forall|k: int| 0 <= k < i ==> items[k]@ == T::encoded(self[k].deep_view()),
            decreases self.len() - i,
        {
            items.push(self[i].to_json());
            i += 1;
        }
        assert(items_view(items@) =~= Seq::new(
            self.deep_view().len(),
            |i: int| T::encoded(self.deep_view()[i]),
        ));
        Json::Array(items)
    }

    proof fn lemma_round_trip(value: Seq<T::V>) {
        let items = Seq::new(value.len(), |i: int| T::encoded(value[i]));
        assert forall|i: int| 0 <= i < items.len() implies T::decoded(#[trigger] items[i]) == Some(
            value[i],
        ) by {
            T::lemma_round_trip(value[i]);
        }
        assert(decoded_items::<T>(items).unwrap() =~= value);
    }
}

} // verus!
