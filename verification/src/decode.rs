//! Reading typed values out of JSON documents.

use crate::decimal::{i32_value, parse_i32};
use crate::json::{Json, JsonView, Number};
use vstd::prelude::*;

verus! {

/// A type that can be read out of a JSON document.
pub trait FromJson: Sized + DeepView {
    /// The value that `json` describes, if it has the shape of this type.
    spec fn decoded(json: JsonView) -> Option<Self::V>;

    /// Reads a value of this type; `None` when the document has another shape.
    fn from_json(json: &Json) -> (r: Option<Self>)
        ensures
            r.deep_view() == Self::decoded(json@),
    ;
}

/// What a member that must be present holds; `None` when it is missing or misshapen.
pub open spec fn required_member<T: FromJson>(json: JsonView, key: Seq<char>) -> Option<T::V> {
    match json.member(key) {
        Some(value) => T::decoded(value),
        None => None,
    }
}

/// What a member that may be left out holds: nothing when it is missing or
/// `null`; `None` overall when it is present with the wrong shape.
pub open spec fn optional_member<T: FromJson>(json: JsonView, key: Seq<char>) -> Option<
    Option<T::V>,
> {
    match json.member(key) {
        None => Some(None),
        Some(JsonView::Null) => Some(None),
        Some(value) => match T::decoded(value) {
            Some(inner) => Some(Some(inner)),
            None => None,
        },
    }
}

/// Reads a member that must be present.
pub fn read_required<T: FromJson>(json: &Json, key: &str) -> (r: Option<T>)
    ensures
        r.deep_view() == required_member::<T>(json@, key@),
{
    match json.member(key) {
        Some(value) => T::from_json(value),
        None => None,
    }
}

/// Reads a member that may be left out or `null`.
pub fn read_optional<T: FromJson>(json: &Json, key: &str) -> (r: Option<Option<T>>)
    ensures
        r.deep_view() == optional_member::<T>(json@, key@),
{
    match json.member(key) {
        None => Some(None),
        Some(Json::Null) => Some(None),
        Some(value) => match T::from_json(value) {
            Some(inner) => Some(Some(inner)),
            None => None,
        },
    }
}

impl FromJson for String {
    open spec fn decoded(json: JsonView) -> Option<Seq<char>> {
        match json {
            JsonView::String(text) => Some(text),
            _ => None,
        }
    }

    fn from_json(json: &Json) -> (r: Option<String>) {
        match json {
            Json::String(text) => Some(text.clone()),
            _ => None,
        }
    }
}

impl FromJson for bool {
    open spec fn decoded(json: JsonView) -> Option<bool> {
        match json {
            JsonView::Bool(flag) => Some(flag),
            _ => None,
        }
    }

    fn from_json(json: &Json) -> (r: Option<bool>) {
        match json {
            Json::Bool(flag) => Some(*flag),
            _ => None,
        }
    }
}

impl FromJson for i32 {
    open spec fn decoded(json: JsonView) -> Option<i32> {
        match json {
            JsonView::Number(text) => i32_value(text),
            _ => None,
        }
    }

    fn from_json(json: &Json) -> (r: Option<i32>) {
        match json {
            Json::Number(text) => parse_i32(text.as_str()),
            _ => None,
        }
    }
}

impl FromJson for Number {
    open spec fn decoded(json: JsonView) -> Option<Seq<char>> {
        match json {
            JsonView::Number(text) => Some(text),
            _ => None,
        }
    }

    fn from_json(json: &Json) -> (r: Option<Number>) {
        match json {
            Json::Number(text) => Some(Number { text: text.clone() }),
            _ => None,
        }
    }
}

impl FromJson for Json {
    open spec fn decoded(json: JsonView) -> Option<JsonView> {
        Some(json)
    }

    fn from_json(json: &Json) -> (r: Option<Json>) {
        Some(json.clone())
    }
}

/// The items of an array read one by one; `None` when any of them is misshapen.
pub open spec fn decoded_items<T: FromJson>(items: Seq<JsonView>) -> Option<Seq<T::V>> {
    if forall|i: int| 0 <= i < items.len() ==> T::decoded(#[trigger] items[i]) is Some {
        Some(Seq::new(items.len(), |i: int| T::decoded(items[i]).unwrap()))
    } else {
        None
    }
}

impl<T: FromJson> FromJson for Vec<T> {
    open spec fn decoded(json: JsonView) -> Option<Seq<T::V>> {
        match json {
            JsonView::Array(items) => decoded_items::<T>(items),
            _ => None,
        }
    }

    fn from_json(json: &Json) -> (r: Option<Vec<T>>) {
        match json {
            Json::Array(items) => {
                let ghost all = json@->Array_0;
                let mut out: Vec<T> = Vec::new();
                let mut i: usize = 0;
                while i < items.len()
                    invariant
                        i <= items.len(),
                        json@ == JsonView::Array(all),
                        all.len() == items.len(),
                        forall|k: int| 0 <= k < items.len() ==> all[k] == items[k]@,
                        out.len() == i,
                        forall|k: int|
                            0 <= k < i ==> T::decoded(#[trigger] all[k]) == Some(
                                out[k].deep_view(),
                            ),
                    decreases items.len() - i,
                {
                    match T::from_json(&items[i]) {
                        Some(item) => {
                            out.push(item);
                        },
                        None => {
                            assert(T::decoded(all[i as int]) is None);
                            return None;
                        },
                    }
                    i += 1;
                }
                assert(out.deep_view() =~= decoded_items::<T>(all).unwrap());
                Some(out)
            },
            _ => None,
        }
    }
}

} // verus!
