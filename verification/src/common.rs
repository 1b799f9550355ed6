//! Shapes shared by every section of the service: image sets and paging.
//!
//! A record is read from a JSON object by the names of its fields. A field of
//! an `Option` type may be missing or `null`; any other field must be there
//! with the right shape. Members that no field is named after are passed over.

use crate::decode::{optional_member, read_optional, read_required, required_member, FromJson};
use crate::encode::{encoded_optional, write_optional, ToJson};
use crate::json::{
    entries_map, entries_view, lemma_find_member_at, Json, JsonView,
};
use vstd::prelude::*;
use vstd::string::*;

verus! {

/// The addresses of one picture in up to three sizes.
#[derive(Debug, Clone, PartialEq, Eq)]
pub struct ImageUrls {
    pub image_url: Option<String>,
    pub small_image_url: Option<String>,
    pub large_image_url: Option<String>,
}

/// The mathematical value of a [`ImageUrls`].
pub struct ImageUrlsView {
    pub image_url: Option<Seq<char>>,
    pub small_image_url: Option<Seq<char>>,
    pub large_image_url: Option<Seq<char>>,
}

impl DeepView for ImageUrls {
    type V = ImageUrlsView;

    open spec fn deep_view(&self) -> ImageUrlsView {
        ImageUrlsView {
            image_url: self.image_url.deep_view(),
            small_image_url: self.small_image_url.deep_view(),
            large_image_url: self.large_image_url.deep_view(),
        }
    }
}

impl FromJson for ImageUrls {
    open spec fn decoded(json: JsonView) -> Option<ImageUrlsView> {
        let image_url = optional_member::<String>(json, "image_url"@);
        let small_image_url = optional_member::<String>(json, "small_image_url"@);
        let large_image_url = optional_member::<String>(json, "large_image_url"@);
        if json is Object
            && image_url is Some
            && small_image_url is Some
            && large_image_url is Some {
            Some(
                ImageUrlsView {
                    image_url: image_url.unwrap(),
                    small_image_url: small_image_url.unwrap(),
                    large_image_url: large_image_url.unwrap(),
                },
            )
        } else {
            None
        }
    }

    fn from_json(json: &Json) -> (r: Option<ImageUrls>) {
        if !json.is_object() {
            return None;
        }
        let image_url = read_optional::<String>(json, "image_url")?;
        let small_image_url = read_optional::<String>(json, "small_image_url")?;
        let large_image_url = read_optional::<String>(json, "large_image_url")?;
        Some(ImageUrls { image_url, small_image_url, large_image_url })
    }
}

impl ImageUrls {
    /// The members that write a record, in the order of its fields.
    pub open spec fn members(value: ImageUrlsView) -> Seq<(Seq<char>, JsonView)> {
        seq![
            ("image_url"@, encoded_optional::<String>(value.image_url)),
            ("small_image_url"@, encoded_optional::<String>(value.small_image_url)),
            ("large_image_url"@, encoded_optional::<String>(value.large_image_url)),
        ]
    }
}

impl ToJson for ImageUrls {
    open spec fn encoded(value: ImageUrlsView) -> JsonView {
        JsonView::Object(entries_map(ImageUrls::members(value)))
    }

    fn to_json(&self) -> (r: Json) {
        let mut members: Vec<(String, Json)> = Vec::new();
        members.push((String::from_str("image_url"), write_optional(&self.image_url)));
        members.push((String::from_str("small_image_url"), write_optional(&self.small_image_url)));
        members.push((String::from_str("large_image_url"), write_optional(&self.large_image_url)));
        assert(entries_view(members@) =~= ImageUrls::members(self.deep_view()));
        Json::Object(members)
    }

    proof fn lemma_round_trip(value: ImageUrlsView) {
        let members = ImageUrls::members(value);
        reveal_strlit("image_url");
        reveal_strlit("small_image_url");
        reveal_strlit("large_image_url");
        assert("image_url"@.len() == 9);
        assert("small_image_url"@.len() == 15);
        assert("large_image_url"@.len() == 15);
        assert("small_image_url"@[0] != "large_image_url"@[0]);
        lemma_find_member_at(members, "image_url"@, 0);
        if let Some(inner) = value.image_url {
            <String as ToJson>::lemma_round_trip(inner);
        }
        lemma_find_member_at(members, "small_image_url"@, 1);
        if let Some(inner) = value.small_image_url {
            <String as ToJson>::lemma_round_trip(inner);
        }
        lemma_find_member_at(members, "large_image_url"@, 2);
        if let Some(inner) = value.large_image_url {
            <String as ToJson>::lemma_round_trip(inner);
        }
    }
}

/// The pictures of a profile, one set per file format.
#[derive(Debug, Clone, PartialEq, Eq)]
pub struct Images {
    pub jpg: Option<ImageUrls>,
    pub webp: Option<ImageUrls>,
}

/// The mathematical value of a [`Images`].
pub struct ImagesView {
    pub jpg: Option<ImageUrlsView>,
    pub webp: Option<ImageUrlsView>,
}

impl DeepView for Images {
    type V = ImagesView;

    open spec fn deep_view(&self) -> ImagesView {
        ImagesView {
            jpg: self.jpg.deep_view(),
            webp: self.webp.deep_view(),
        }
    }
}

impl FromJson for Images {
    open spec fn decoded(json: JsonView) -> Option<ImagesView> {
        let jpg = optional_member::<ImageUrls>(json, "jpg"@);
        let webp = optional_member::<ImageUrls>(json, "webp"@);
        if json is Object
            && jpg is Some
            && webp is Some {
            Some(
                ImagesView {
                    jpg: jpg.unwrap(),
                    webp: webp.unwrap(),
                },
            )
        } else {
            None
        }
    }

    fn from_json(json: &Json) -> (r: Option<Images>) {
        if !json.is_object() {
            return None;
        }
        let jpg = read_optional::<ImageUrls>(json, "jpg")?;
        let webp = read_optional::<ImageUrls>(json, "webp")?;
        Some(Images { jpg, webp })
    }
}

impl Images {
    /// The members that write a record, in the order of its fields.
    pub open spec fn members(value: ImagesView) -> Seq<(Seq<char>, JsonView)> {
        seq![
            ("jpg"@, encoded_optional::<ImageUrls>(value.jpg)),
            ("webp"@, encoded_optional::<ImageUrls>(value.webp)),
        ]
    }
}

impl ToJson for Images {
    open spec fn encoded(value: ImagesView) -> JsonView {
        JsonView::Object(entries_map(Images::members(value)))
    }

    fn to_json(&self) -> (r: Json) {
        let mut members: Vec<(String, Json)> = Vec::new();
        members.push((String::from_str("jpg"), write_optional(&self.jpg)));
        members.push((String::from_str("webp"), write_optional(&self.webp)));
        assert(entries_view(members@) =~= Images::members(self.deep_view()));
        Json::Object(members)
    }

    proof fn lemma_round_trip(value: ImagesView) {
        let members = Images::members(value);
        reveal_strlit("jpg");
        reveal_strlit("webp");
        assert("jpg"@.len() == 3);
        assert("webp"@.len() == 4);
        lemma_find_member_at(members, "jpg"@, 0);
        if let Some(inner) = value.jpg {
            <ImageUrls as ToJson>::lemma_round_trip(inner);
        }
        lemma_find_member_at(members, "webp"@, 1);
        if let Some(inner) = value.webp {
            <ImageUrls as ToJson>::lemma_round_trip(inner);
        }
    }
}

/// How many entries a listing holds in all and on each page.
#[derive(Debug, Clone, PartialEq, Eq)]
pub struct PaginationItems {
    pub count: i32,
    pub total: i32,
    pub per_page: i32,
}

/// The mathematical value of a [`PaginationItems`].
pub struct PaginationItemsView {
    pub count: i32,
    pub total: i32,
    pub per_page: i32,
}

impl DeepView for PaginationItems {
    type V = PaginationItemsView;

    open spec fn deep_view(&self) -> PaginationItemsView {
        PaginationItemsView {
            count: self.count.deep_view(),
            total: self.total.deep_view(),
            per_page: self.per_page.deep_view(),
        }
    }
}

impl FromJson for PaginationItems {
    open spec fn decoded(json: JsonView) -> Option<PaginationItemsView> {
        let count = required_member::<i32>(json, "count"@);
        let total = required_member::<i32>(json, "total"@);
        let per_page = required_member::<i32>(json, "per_page"@);
        if json is Object
            && count is Some
            && total is Some
            && per_page is Some {
            Some(
                PaginationItemsView {
                    count: count.unwrap(),
                    total: total.unwrap(),
                    per_page: per_page.unwrap(),
                },
            )
        } else {
            None
        }
    }

    fn from_json(json: &Json) -> (r: Option<PaginationItems>) {
        if !json.is_object() {
            return None;
        }
        let count = read_required::<i32>(json, "count")?;
        let total = read_required::<i32>(json, "total")?;
        let per_page = read_required::<i32>(json, "per_page")?;
        Some(PaginationItems { count, total, per_page })
    }
}

impl PaginationItems {
    /// The members that write a record, in the order of its fields.
    pub open spec fn members(value: PaginationItemsView) -> Seq<(Seq<char>, JsonView)> {
        seq![
            ("count"@, <i32 as ToJson>::encoded(value.count)),
            ("total"@, <i32 as ToJson>::encoded(value.total)),
            ("per_page"@, <i32 as ToJson>::encoded(value.per_page)),
        ]
    }
}

impl ToJson for PaginationItems {
    open spec fn encoded(value: PaginationItemsView) -> JsonView {
        JsonView::Object(entries_map(PaginationItems::members(value)))
    }

    fn to_json(&self) -> (r: Json) {
        let mut members: Vec<(String, Json)> = Vec::new();
        members.push((String::from_str("count"), self.count.to_json()));
        members.push((String::from_str("total"), self.total.to_json()));
        members.push((String::from_str("per_page"), self.per_page.to_json()));
        assert(entries_view(members@) =~= PaginationItems::members(self.deep_view()));
        Json::Object(members)
    }

    proof fn lemma_round_trip(value: PaginationItemsView) {
        let members = PaginationItems::members(value);
        reveal_strlit("count");
        reveal_strlit("total");
        reveal_strlit("per_page");
        assert("count"@.len() == 5);
        assert("total"@.len() == 5);
        assert("per_page"@.len() == 8);
        assert("count"@[0] != "total"@[0]);
        lemma_find_member_at(members, "count"@, 0);
        <i32 as ToJson>::lemma_round_trip(value.count);
        lemma_find_member_at(members, "total"@, 1);
        <i32 as ToJson>::lemma_round_trip(value.total);
        lemma_find_member_at(members, "per_page"@, 2);
        <i32 as ToJson>::lemma_round_trip(value.per_page);
    }
}

/// Where a page stands in a listing that the service cuts into pages.
#[derive(Debug, Clone, PartialEq, Eq)]
pub struct Pagination {
    pub last_visible_page: i32,
    pub has_next_page: bool,
    pub current_page: Option<i32>,
    pub items: Option<PaginationItems>,
}

/// The mathematical value of a [`Pagination`].
pub struct PaginationView {
    pub last_visible_page: i32,
    pub has_next_page: bool,
    pub current_page: Option<i32>,
    pub items: Option<PaginationItemsView>,
}

impl DeepView for Pagination {
    type V = PaginationView;

    open spec fn deep_view(&self) -> PaginationView {
        PaginationView {
            last_visible_page: self.last_visible_page.deep_view(),
            has_next_page: self.has_next_page.deep_view(),
            current_page: self.current_page.deep_view(),
            items: self.items.deep_view(),
        }
    }
}

impl FromJson for Pagination {
    open spec fn decoded(json: JsonView) -> Option<PaginationView> {
        let last_visible_page = required_member::<i32>(json, "last_visible_page"@);
        let has_next_page = required_member::<bool>(json, "has_next_page"@);
        let current_page = optional_member::<i32>(json, "current_page"@);
        let items = optional_member::<PaginationItems>(json, "items"@);
        if json is Object
            && last_visible_page is Some
            && has_next_page is Some
            && current_page is Some
            && items is Some {
            Some(
                PaginationView {
                    last_visible_page: last_visible_page.unwrap(),
                    has_next_page: has_next_page.unwrap(),
                    current_page: current_page.unwrap(),
                    items: items.unwrap(),
                },
            )
        } else {
            None
        }
    }

    fn from_json(json: &Json) -> (r: Option<Pagination>) {
        if !json.is_object() {
            return None;
        }
        let last_visible_page = read_required::<i32>(json, "last_visible_page")?;
        let has_next_page = read_required::<bool>(json, "has_next_page")?;
        let current_page = read_optional::<i32>(json, "current_page")?;
        let items = read_optional::<PaginationItems>(json, "items")?;
        Some(Pagination { last_visible_page, has_next_page, current_page, items })
    }
}

impl Pagination {
    /// The members that write a record, in the order of its fields.
    pub open spec fn members(value: PaginationView) -> Seq<(Seq<char>, JsonView)> {
        seq![
            ("last_visible_page"@, <i32 as ToJson>::encoded(value.last_visible_page)),
            ("has_next_page"@, <bool as ToJson>::encoded(value.has_next_page)),
            ("current_page"@, encoded_optional::<i32>(value.current_page)),
            ("items"@, encoded_optional::<PaginationItems>(value.items)),
        ]
    }
}

impl ToJson for Pagination {
    open spec fn encoded(value: PaginationView) -> JsonView {
        JsonView::Object(entries_map(Pagination::members(value)))
    }

    fn to_json(&self) -> (r: Json) {
        let mut members: Vec<(String, Json)> = Vec::new();
        members.push((String::from_str("last_visible_page"), self.last_visible_page.to_json()));
        members.push((String::from_str("has_next_page"), self.has_next_page.to_json()));
        members.push((String::from_str("current_page"), write_optional(&self.current_page)));
        members.push((String::from_str("items"), write_optional(&self.items)));
        assert(entries_view(members@) =~= Pagination::members(self.deep_view()));
        Json::Object(members)
    }

    proof fn lemma_round_trip(value: PaginationView) {
        let members = Pagination::members(value);
        reveal_strlit("last_visible_page");
        reveal_strlit("has_next_page");
        reveal_strlit("current_page");
        reveal_strlit("items");
        assert("last_visible_page"@.len() == 17);
        assert("has_next_page"@.len() == 13);
        assert("current_page"@.len() == 12);
        assert("items"@.len() == 5);
        lemma_find_member_at(members, "last_visible_page"@, 0);
        <i32 as ToJson>::lemma_round_trip(value.last_visible_page);
        lemma_find_member_at(members, "has_next_page"@, 1);
        <bool as ToJson>::lemma_round_trip(value.has_next_page);
        lemma_find_member_at(members, "current_page"@, 2);
        if let Some(inner) = value.current_page {
            <i32 as ToJson>::lemma_round_trip(inner);
        }
        lemma_find_member_at(members, "items"@, 3);
        if let Some(inner) = value.items {
            <PaginationItems as ToJson>::lemma_round_trip(inner);
        }
    }
}

} // verus!
