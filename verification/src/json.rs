//! JSON documents as plain data, and the member lookup the decoders are built from.

use vstd::prelude::*;
use vstd::string::*;

verus! {

/// A JSON document held as plain Rust values.
///
/// A number keeps the decimal text it was written with. An object keeps its
/// members in a list; where two members bear one name, the first one counts.
#[derive(Debug, PartialEq, Eq)]
pub enum Json {
    Null,
    Bool(bool),
    Number(String),
    String(String),
    Array(Vec<Json>),
    Object(Vec<(String, Json)>),
}

/// A JSON number, kept as the decimal text that writes it.
#[derive(Debug, Clone, PartialEq, Eq)]
pub struct Number {
    pub text: String,
}

impl DeepView for Number {
    type V = Seq<char>;

    open spec fn deep_view(&self) -> Seq<char> {
        self.text@
    }
}

/// The mathematical value of a [`Json`] document. An object is a map from
/// names to values: the order in which its members were written is no part of it.
pub enum JsonView {
    Null,
    Bool(bool),
    Number(Seq<char>),
    String(Seq<char>),
    Array(Seq<JsonView>),
    Object(Map<Seq<char>, JsonView>),
}

/// The value of the first member named `key`, if any member has that name.
pub open spec fn find_member(members: Seq<(Seq<char>, JsonView)>, key: Seq<char>) -> Option<
    JsonView,
>
    decreases members.len(),
{
    if members.len() == 0 {
        None
    } else if members[0].0 == key {
        Some(members[0].1)
    } else {
        find_member(members.drop_first(), key)
    }
}

/// The map that a list of members stands for.
pub open spec fn entries_map(entries: Seq<(Seq<char>, JsonView)>) -> Map<Seq<char>, JsonView> {
    Map::new(
        |key: Seq<char>| find_member(entries, key) is Some,
        |key: Seq<char>| find_member(entries, key).unwrap(),
    )
}

impl JsonView {
    /// The member `key` of an object; `None` for a missing member and for
    /// anything that is not an object.
    pub open spec fn member(self, key: Seq<char>) -> Option<JsonView> {
        match self {
            JsonView::Object(members) => if members.dom().contains(key) {
                Some(members[key])
            } else {
                None
            },
            _ => None,
        }
    }
}

/// What a document holds, member by member and item by item.
pub open spec fn json_view(json: Json) -> JsonView
    decreases json,
{
    match json {
        Json::Null => JsonView::Null,
        Json::Bool(b) => JsonView::Bool(b),
        Json::Number(text) => JsonView::Number(text@),
        Json::String(text) => JsonView::String(text@),
        Json::Array(items) => JsonView::Array(items_view(items@)),
        Json::Object(members) => JsonView::Object(entries_map(entries_view(members@))),
    }
}

/// The items of an array, each as the value it holds.
pub open spec fn items_view(items: Seq<Json>) -> Seq<JsonView>
    decreases items,
{
    Seq::new(
        items.len(),
        |i: int|
            if 0 <= i < items.len() {
                json_view(items[i])
            } else {
                JsonView::Null
            },
    )
}

/// The members of an object, each with the value it holds.
pub open spec fn entries_view(members: Seq<(String, Json)>) -> Seq<(Seq<char>, JsonView)>
    decreases members,
{
    Seq::new(
        members.len(),
        |i: int|
            if 0 <= i < members.len() {
                (members[i].0@, json_view(members[i].1))
            } else {
                (Seq::empty(), JsonView::Null)
            },
    )
}

impl View for Json {
    type V = JsonView;

    open spec fn view(&self) -> JsonView {
        json_view(*self)
    }
}

impl DeepView for Json {
    type V = JsonView;

    open spec fn deep_view(&self) -> JsonView {
        self@
    }
}

/// Skipping a member that bears another name does not change what a lookup finds.
pub proof fn lemma_find_member_skip(members: Seq<(Seq<char>, JsonView)>, key: Seq<char>, i: int)
    requires
        0 <= i < members.len(),
        members[i].0 != key,
    ensures
        find_member(members.skip(i), key) == find_member(members.skip(i + 1), key),
{
    assert(members.skip(i).drop_first() =~= members.skip(i + 1));
}

/// A lookup finds the member at `i` when no member before it bears the name.
pub proof fn lemma_find_member_at(members: Seq<(Seq<char>, JsonView)>, key: Seq<char>, i: int)
    requires
        0 <= i < members.len(),
        members[i].0 == key,
        forall|j: int| 0 <= j < i ==> (#[trigger] members[j]).0 != key,
    ensures
        find_member(members, key) == Some(members[i].1),
    decreases i,
{
    if i > 0 {
        let rest = members.drop_first();
        assert(rest[i - 1] == members[i]);
        assert forall|j: int| 0 <= j < i - 1 implies (#[trigger] rest[j]).0 != key by {
            assert(rest[j] == members[j + 1]);
        }
        lemma_find_member_at(rest, key, i - 1);
    }
}

/// The map of a list of members has no more names than the list has members.
pub proof fn lemma_entries_map_finite(entries: Seq<(Seq<char>, JsonView)>)
    ensures
        entries_map(entries).dom().finite(),
    decreases entries.len(),
{
    if entries.len() == 0 {
        assert(entries_map(entries).dom() =~= Set::empty());
    } else {
        lemma_entries_map_finite(entries.drop_first());
        assert(entries_map(entries).dom() =~= entries_map(entries.drop_first()).dom().insert(
            entries[0].0,
        ));
    }
}

/// Whether two texts hold the same characters.
pub fn same_text(a: &str, b: &str) -> (r: bool)
    ensures
        r == (a@ == b@),
{
    let left = a.as_bytes();
    let right = b.as_bytes();
    proof {
        vstd::utf8::encode_utf8_decode_utf8(a@);
        vstd::utf8::encode_utf8_decode_utf8(b@);
    }
    if left.len() != right.len() {
        return false;
    }
    let mut i: usize = 0;
    while i < left.len()
        invariant
            i <= left.len(),
            left.len() == right.len(),
            left@ == a.spec_bytes(),
            right@ == b.spec_bytes(),
            forall|k: int| 0 <= k < i ==> left@[k] == right@[k],
        decreases left.len() - i,
    {
        if left[i] != right[i] {
            return false;
        }
        i += 1;
    }
    assert(left@ =~= right@);
    true
}

impl Json {
    /// Whether the document is an object.
    pub fn is_object(&self) -> (r: bool)
        ensures
            r == (self@ is Object),
    {
        match self {
            Json::Object(_) => true,
            _ => false,
        }
    }

    /// Looks a member up by name.
    pub fn member(&self, key: &str) -> (r: Option<&Json>)
        ensures
            match r {
                Some(found) => self@.member(key@) == Some(found@),
                None => self@.member(key@) is None,
            },
    {
        match self {
            Json::Object(members) => {
                let ghost all = entries_view(members@);
                assert(all.skip(0) =~= all);
                let mut i: usize = 0;
                while i < members.len()
                    invariant
                        i <= members.len(),
                        all == entries_view(members@),
                        self@ == JsonView::Object(entries_map(all)),
                        find_member(all, key@) == find_member(all.skip(i as int), key@),
                    decreases members.len() - i,
                {
                    assert(all.skip(i as int)[0] == all[i as int]);
                    if same_text(members[i].0.as_str(), key) {
                        return Some(&members[i].1);
                    }
                    proof {
                        lemma_find_member_skip(all, key@, i as int);
                    }
                    i += 1;
                }
                None
            },
            _ => None,
        }
    }
}

impl Json {
    /// A copy that holds the same document.
    pub fn duplicate(&self) -> (r: Json)
        ensures
            r@ == self@,
        decreases *self,
    {
        match self {
            Json::Null => Json::Null,
            Json::Bool(b) => Json::Bool(*b),
            Json::Number(text) => Json::Number(text.clone()),
            Json::String(text) => Json::String(text.clone()),
            Json::Array(items) => {
                let mut copy: Vec<Json> = Vec::new();
                let mut i: usize = 0;
                while i < items.len()
                    invariant
                        i <= items.len(),
                        *self == Json::Array(*items),
                        copy.len() == i,
                        forall|k: int| 0 <= k < i ==> copy[k]@ == items[k]@,
                    decreases items.len() - i,
                {
                    proof {
                        assert(self->Array_0 == *items);
                    }
                    copy.push(items[i].duplicate());
                    i += 1;
                }
                assert(items_view(copy@) =~= items_view(items@));
                Json::Array(copy)
            },
            Json::Object(members) => {
                let mut copy: Vec<(String, Json)> = Vec::new();
                let mut i: usize = 0;
                while i < members.len()
                    invariant
                        i <= members.len(),
                        *self == Json::Object(*members),
                        copy.len() == i,
                        forall|k: int|
                            0 <= k < i ==> copy[k].0@ == members[k].0@ && copy[k].1@
                                == members[k].1@,
                    decreases members.len() - i,
                {
                    proof {
                        assert(self->Object_0 == *members);
                    }
                    copy.push((members[i].0.clone(), members[i].1.duplicate()));
                    i += 1;
                }
                assert(entries_view(copy@) =~= entries_view(members@));
                Json::Object(copy)
            },
        }
    }
}

impl Clone for Json {
    fn clone(&self) -> (r: Json)
        ensures
            r@ == self@,
    {
        self.duplicate()
    }
}

} // verus!
