//! Reading JSON text. The grammar is `serde_json`'s; this module turns what it
//! hands back into a [`Json`] document.

use crate::json::{
    entries_map, entries_view, items_view, lemma_entries_map_finite, lemma_find_member_at, Json,
    JsonView,
};
use vstd::prelude::*;

verus! {

/// `serde_json::Value`, of which nothing is known but what the functions below say.
#[verifier::external_type_specification]
#[verifier::external_body]
pub struct ExValue(serde_json::Value);

/// `serde_json::Error`, carried through and never looked into.
#[verifier::external_type_specification]
#[verifier::external_body]
pub struct ExError(serde_json::Error);

/// The document that `serde_json::from_str` reads out of a text, or `None`
/// where it reports an error.
pub uninterp spec fn parsed_text(text: Seq<char>) -> Option<JsonView>;

/// The document that a `serde_json::Value` holds: its variant, the text that
/// `Display` writes for a number, the items of an array in order, and the
/// members of an object as a map from names to values.
pub uninterp spec fn value_view(value: serde_json::Value) -> JsonView;

/// `serde_json::from_str` at the type `Value`. Assumed: the call is a function
/// of the text alone, and what it returns on success is the document named by
/// [`parsed_text`].
#[verifier::external_body]
fn parse_value(text: &str) -> (r: Result<serde_json::Value, serde_json::Error>)
    ensures
        match r {
            Ok(value) => parsed_text(text@) == Some(value_view(value)),
            Err(_) => parsed_text(text@) is None,
        },
{
    serde_json::from_str::<serde_json::Value>(text)
}

/// `Value::as_bool`. Assumed: `Some` with the flag for the variant `Bool`,
/// `None` for every other variant.
#[verifier::external_body]
fn value_as_bool(value: &serde_json::Value) -> (r: Option<bool>)
    ensures
        match r {
            Some(flag) => value_view(*value) == JsonView::Bool(flag),
            None => !(value_view(*value) is Bool),
        },
{
    value.as_bool()
}

/// `Value::as_number` followed by `to_string` on the number. Assumed: `Some`
/// for the variant `Number` and for no other, with the text that `Display`
/// writes for the number.
#[verifier::external_body]
fn value_number_text(value: &serde_json::Value) -> (r: Option<String>)
    ensures
        match r {
            Some(text) => value_view(*value) == JsonView::Number(text@),
            None => !(value_view(*value) is Number),
        },
{
    match value.as_number() {
        Some(number) => Some(number.to_string()),
        None => None,
    }
}

/// `Value::as_str`. Assumed: `Some` with the text for the variant `String`,
/// `None` for every other variant.
#[verifier::external_body]
fn value_as_str(value: &serde_json::Value) -> (r: Option<&str>)
    ensures
        match r {
            Some(text) => value_view(*value) == JsonView::String(text@),
            None => !(value_view(*value) is String),
        },
{
    value.as_str()
}

/// `Value::as_array`. Assumed: `Some` with the items in order for the variant
/// `Array`, `None` for every other variant.
#[verifier::external_body]
fn value_as_array(value: &serde_json::Value) -> (r: Option<&Vec<serde_json::Value>>)
    ensures
        match r {
            Some(items) => value_view(*value) == JsonView::Array(
                Seq::new(items@.len(), |i: int| value_view(items@[i])),
            ),
            None => !(value_view(*value) is Array),
        },
{
    value.as_array()
}

/// `Value::as_object` followed by `Map::iter`, collected. Assumed: `Some` for
/// the variant `Object` and for no other; the iteration hands out every member
/// of the map once, so no name comes twice, and the object is the map of what
/// was handed out.
#[verifier::external_body]
fn value_members(value: &serde_json::Value) -> (r: Option<Vec<(&String, &serde_json::Value)>>)
    ensures
        match r {
            Some(members) => {
                &&& value_view(*value) == JsonView::Object(
                    entries_map(
                        Seq::new(
                            members@.len(),
                            |i: int| (members@[i].0@, value_view(*members@[i].1)),
                        ),
                    ),
                )
                &&& forall|i: int, j: int|
                    0 <= i < j < members@.len() ==> members@[i].0@ != members@[j].0@
            },
            None => !(value_view(*value) is Object),
        },
{
    match value.as_object() {
        Some(map) => Some(map.iter().collect()),
        None => None,
    }
}

impl Json {
    /// Copies what a `serde_json::Value` holds into a document.
    pub fn from_value(value: &serde_json::Value) -> (json: Json)
        ensures
            json@ == value_view(*value),
        decreases value_view(*value),
    {
        match value_as_bool(value) {
            Some(flag) => {
                return Json::Bool(flag);
            },
            None => {},
        }
        match value_number_text(value) {
            Some(text) => {
                return Json::Number(text);
            },
            None => {},
        }
        match value_as_str(value) {
            Some(text) => {
                return Json::String(String::from_str(text));
            },
            None => {},
        }
        match value_as_array(value) {
            Some(items) => {
                let ghost all = value_view(*value)->Array_0;
                let mut out: Vec<Json> = Vec::new();
                let mut i: usize = 0;
                while i < items.len()
                    invariant
                        i <= items.len(),
                        value_view(*value) == JsonView::Array(all),
                        all.len() == items.len(),
                        forall|k: int| 0 <= k < items.len() ==> all[k] == value_view(items[k]),
                        out.len() == i,
                        forall|k: int| 0 <= k < i ==> out[k]@ == all[k],
                    decreases items.len() - i,
                {
                    proof {
                        assert(value_view(*value)->Array_0 == all);
                        assert(all[i as int] == value_view(items[i as int]));
                    }
                    out.push(Json::from_value(&items[i]));
                    i += 1;
                }
                assert(items_view(out@) =~= all);
                return Json::Array(out);
            },
            None => {},
        }
        match value_members(value) {
            Some(members) => {
                let ghost all = Seq::new(
                    members@.len(),
                    |i: int| (members@[i].0@, value_view(*members@[i].1)),
                );
                let mut out: Vec<(String, Json)> = Vec::new();
                let mut i: usize = 0;
                while i < members.len()
                    invariant
                        i <= members.len(),
                        value_view(*value) == JsonView::Object(entries_map(all)),
                        all.len() == members.len(),
                        forall|k: int|
                            0 <= k < members.len() ==> all[k] == (
                                members[k].0@,
                                value_view(*members[k].1),
                            ),
                        forall|j: int, k: int| 0 <= j < k < all.len() ==> all[j].0 != all[k].0,
                        out.len() == i,
                        forall|k: int| 0 <= k < i ==> (out[k].0@, out[k].1@) == all[k],
                    decreases members.len() - i,
                {
                    proof {
                        let map = entries_map(all);
                        let name = all[i as int].0;
                        lemma_entries_map_finite(all);
                        lemma_find_member_at(all, name, i as int);
                        assert(value_view(*value)->Object_0 == map);
                        assert(map.dom().contains(name));
                        assert(map[name] == value_view(*members[i as int].1));
                        assert(decreases_to!(map => map[name]));
                    }
                    let name = members[i].0.clone();
                    let inner = Json::from_value(members[i].1);
                    out.push((name, inner));
                    i += 1;
                }
                assert(entries_view(out@) =~= all);
                return Json::Object(out);
            },
            None => {},
        }
        Json::Null
    }
}

impl Json {
    /// Reads a JSON text into a document; `None` where the text is not JSON.
    pub fn parse(text: &str) -> (r: Option<Json>)
        ensures
            r.deep_view() == parsed_text(text@),
    {
        match parse_value(text) {
            Ok(value) => Some(Json::from_value(&value)),
            Err(_) => None,
        }
    }
}

} // verus!
