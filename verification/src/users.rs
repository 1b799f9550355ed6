//! The records of the users section, as the service writes them.
//!
//! They are read and written by the rules of [`crate::common`]. Where the
//! service writes a number that need not be whole, the record keeps its text.

use crate::common::{Images, ImagesView, Pagination, PaginationView};
use crate::decode::{optional_member, read_optional, read_required, required_member, FromJson};
use crate::encode::{encoded_optional, write_optional, ToJson};
use crate::json::{
    entries_map, entries_view, lemma_find_member_at, Json, JsonView, Number,
};
use vstd::prelude::*;
use vstd::string::*;

verus! {

/// The least that identifies a user.
#[derive(Debug, Clone, PartialEq, Eq)]
pub struct UserById {
    pub url: String,
    pub username: String,
}

/// The mathematical value of a [`UserById`].
pub struct UserByIdView {
    pub url: Seq<char>,
    pub username: Seq<char>,
}

impl DeepView for UserById {
    type V = UserByIdView;

    open spec fn deep_view(&self) -> UserByIdView {
        UserByIdView {
            url: self.url.deep_view(),
            username: self.username.deep_view(),
        }
    }
}

impl FromJson for UserById {
    open spec fn decoded(json: JsonView) -> Option<UserByIdView> {
        let url = required_member::<String>(json, "url"@);
        let username = required_member::<String>(json, "username"@);
        if json is Object
            && url is Some
            && username is Some {
            Some(
                UserByIdView {
                    url: url.unwrap(),
                    username: username.unwrap(),
                },
            )
        } else {
            None
        }
    }

    fn from_json(json: &Json) -> (r: Option<UserById>) {
        if !json.is_object() {
            return None;
        }
        let url = read_required::<String>(json, "url")?;
        let username = read_required::<String>(json, "username")?;
        Some(UserById { url, username })
    }
}

impl UserById {
    /// The members that write a record, in the order of its fields.
    pub open spec fn members(value: UserByIdView) -> Seq<(Seq<char>, JsonView)> {
        seq![
            ("url"@, <String as ToJson>::encoded(value.url)),
            ("username"@, <String as ToJson>::encoded(value.username)),
        ]
    }
}

impl ToJson for UserById {
    open spec fn encoded(value: UserByIdView) -> JsonView {
        JsonView::Object(entries_map(UserById::members(value)))
    }

    fn to_json(&self) -> (r: Json) {
        let mut members: Vec<(String, Json)> = Vec::new();
        members.push((String::from_str("url"), self.url.to_json()));
        members.push((String::from_str("username"), self.username.to_json()));
        assert(entries_view(members@) =~= UserById::members(self.deep_view()));
        Json::Object(members)
    }

    proof fn lemma_round_trip(value: UserByIdView) {
        let members = UserById::members(value);
        reveal_strlit("url");
        reveal_strlit("username");
        assert("url"@.len() == 3);
        assert("username"@.len() == 8);
        lemma_find_member_at(members, "url"@, 0);
        <String as ToJson>::lemma_round_trip(value.url);
        lemma_find_member_at(members, "username"@, 1);
        <String as ToJson>::lemma_round_trip(value.username);
    }
}

/// A profile in short.
#[derive(Debug, Clone, PartialEq, Eq)]
pub struct User {
    pub username: String,
    pub url: String,
    pub images: Option<Images>,
}

/// The mathematical value of a [`User`].
pub struct UserView {
    pub username: Seq<char>,
    pub url: Seq<char>,
    pub images: Option<ImagesView>,
}

impl DeepView for User {
    type V = UserView;

    open spec fn deep_view(&self) -> UserView {
        UserView {
            username: self.username.deep_view(),
            url: self.url.deep_view(),
            images: self.images.deep_view(),
        }
    }
}

impl FromJson for User {
    open spec fn decoded(json: JsonView) -> Option<UserView> {
        let username = required_member::<String>(json, "username"@);
        let url = required_member::<String>(json, "url"@);
        let images = optional_member::<Images>(json, "images"@);
        if json is Object
            && username is Some
            && url is Some
            && images is Some {
            Some(
                UserView {
                    username: username.unwrap(),
                    url: url.unwrap(),
                    images: images.unwrap(),
                },
            )
        } else {
            None
        }
    }

    fn from_json(json: &Json) -> (r: Option<User>) {
        if !json.is_object() {
            return None;
        }
        let username = read_required::<String>(json, "username")?;
        let url = read_required::<String>(json, "url")?;
        let images = read_optional::<Images>(json, "images")?;
        Some(User { username, url, images })
    }
}

impl User {
    /// The members that write a record, in the order of its fields.
    pub open spec fn members(value: UserView) -> Seq<(Seq<char>, JsonView)> {
        seq![
            ("username"@, <String as ToJson>::encoded(value.username)),
            ("url"@, <String as ToJson>::encoded(value.url)),
            ("images"@, encoded_optional::<Images>(value.images)),
        ]
    }
}

impl ToJson for User {
    open spec fn encoded(value: UserView) -> JsonView {
        JsonView::Object(entries_map(User::members(value)))
    }

    fn to_json(&self) -> (r: Json) {
        let mut members: Vec<(String, Json)> = Vec::new();
        members.push((String::from_str("username"), self.username.to_json()));
        members.push((String::from_str("url"), self.url.to_json()));
        members.push((String::from_str("images"), write_optional(&self.images)));
        assert(entries_view(members@) =~= User::members(self.deep_view()));
        Json::Object(members)
    }

    proof fn lemma_round_trip(value: UserView) {
        let members = User::members(value);
        reveal_strlit("username");
        reveal_strlit("url");
        reveal_strlit("images");
        assert("username"@.len() == 8);
        assert("url"@.len() == 3);
        assert("images"@.len() == 6);
        lemma_find_member_at(members, "username"@, 0);
        <String as ToJson>::lemma_round_trip(value.username);
        lemma_find_member_at(members, "url"@, 1);
        <String as ToJson>::lemma_round_trip(value.url);
        lemma_find_member_at(members, "images"@, 2);
        if let Some(inner) = value.images {
            <Images as ToJson>::lemma_round_trip(inner);
        }
    }
}

/// The author of a review; the pictures are always there.
#[derive(Debug, Clone, PartialEq, Eq)]
pub struct ReviewUser {
    pub url: String,
    pub username: String,
    pub images: Images,
}

/// The mathematical value of a [`ReviewUser`].
pub struct ReviewUserView {
    pub url: Seq<char>,
    pub username: Seq<char>,
    pub images: ImagesView,
}

impl DeepView for ReviewUser {
    type V = ReviewUserView;

    open spec fn deep_view(&self) -> ReviewUserView {
        ReviewUserView {
            url: self.url.deep_view(),
            username: self.username.deep_view(),
            images: self.images.deep_view(),
        }
    }
}

impl FromJson for ReviewUser {
    open spec fn decoded(json: JsonView) -> Option<ReviewUserView> {
        let url = required_member::<String>(json, "url"@);
        let username = required_member::<String>(json, "username"@);
        let images = required_member::<Images>(json, "images"@);
        if json is Object
            && url is Some
            && username is Some
            && images is Some {
            Some(
                ReviewUserView {
                    url: url.unwrap(),
                    username: username.unwrap(),
                    images: images.unwrap(),
                },
            )
        } else {
            None
        }
    }

    fn from_json(json: &Json) -> (r: Option<ReviewUser>) {
        if !json.is_object() {
            return None;
        }
        let url = read_required::<String>(json, "url")?;
        let username = read_required::<String>(json, "username")?;
        let images = read_required::<Images>(json, "images")?;
        Some(ReviewUser { url, username, images })
    }
}

impl ReviewUser {
    /// The members that write a record, in the order of its fields.
    pub open spec fn members(value: ReviewUserView) -> Seq<(Seq<char>, JsonView)> {
        seq![
            ("url"@, <String as ToJson>::encoded(value.url)),
            ("username"@, <String as ToJson>::encoded(value.username)),
            ("images"@, <Images as ToJson>::encoded(value.images)),
        ]
    }
}

impl ToJson for ReviewUser {
    open spec fn encoded(value: ReviewUserView) -> JsonView {
        JsonView::Object(entries_map(ReviewUser::members(value)))
    }

    fn to_json(&self) -> (r: Json) {
        let mut members: Vec<(String, Json)> = Vec::new();
        members.push((String::from_str("url"), self.url.to_json()));
        members.push((String::from_str("username"), self.username.to_json()));
        members.push((String::from_str("images"), self.images.to_json()));
        assert(entries_view(members@) =~= ReviewUser::members(self.deep_view()));
        Json::Object(members)
    }

    proof fn lemma_round_trip(value: ReviewUserView) {
        let members = ReviewUser::members(value);
        reveal_strlit("url");
        reveal_strlit("username");
        reveal_strlit("images");
        assert("url"@.len() == 3);
        assert("username"@.len() == 8);
        assert("images"@.len() == 6);
        lemma_find_member_at(members, "url"@, 0);
        <String as ToJson>::lemma_round_trip(value.url);
        lemma_find_member_at(members, "username"@, 1);
        <String as ToJson>::lemma_round_trip(value.username);
        lemma_find_member_at(members, "images"@, 2);
        <Images as ToJson>::lemma_round_trip(value.images);
    }
}

/// One entry of a user's list history.
#[derive(Debug, Clone, PartialEq, Eq)]
pub struct UserUpdate {
    pub user: User,
    pub score: Option<i32>,
    pub status: String,
    pub chapters_read: Option<i32>,
    pub chapters_total: Option<i32>,
    pub date: String,
}

/// The mathematical value of a [`UserUpdate`].
pub struct UserUpdateView {
    pub user: UserView,
    pub score: Option<i32>,
    pub status: Seq<char>,
    pub chapters_read: Option<i32>,
    pub chapters_total: Option<i32>,
    pub date: Seq<char>,
}

impl DeepView for UserUpdate {
    type V = UserUpdateView;

    open spec fn deep_view(&self) -> UserUpdateView {
        UserUpdateView {
            user: self.user.deep_view(),
            score: self.score.deep_view(),
            status: self.status.deep_view(),
            chapters_read: self.chapters_read.deep_view(),
            chapters_total: self.chapters_total.deep_view(),
            date: self.date.deep_view(),
        }
    }
}

impl FromJson for UserUpdate {
    open spec fn decoded(json: JsonView) -> Option<UserUpdateView> {
        let user = required_member::<User>(json, "user"@);
        let score = optional_member::<i32>(json, "score"@);
        let status = required_member::<String>(json, "status"@);
        let chapters_read = optional_member::<i32>(json, "chapters_read"@);
        let chapters_total = optional_member::<i32>(json, "chapters_total"@);
        let date = required_member::<String>(json, "date"@);
        if json is Object
            && user is Some
            && score is Some
            && status is Some
            && chapters_read is Some
            && chapters_total is Some
            && date is Some {
            Some(
                UserUpdateView {
                    user: user.unwrap(),
                    score: score.unwrap(),
                    status: status.unwrap(),
                    chapters_read: chapters_read.unwrap(),
                    chapters_total: chapters_total.unwrap(),
                    date: date.unwrap(),
                },
            )
        } else {
            None
        }
    }

    fn from_json(json: &Json) -> (r: Option<UserUpdate>) {
        if !json.is_object() {
            return None;
        }
        let user = read_required::<User>(json, "user")?;
        let score = read_optional::<i32>(json, "score")?;
        let status = read_required::<String>(json, "status")?;
        let chapters_read = read_optional::<i32>(json, "chapters_read")?;
        let chapters_total = read_optional::<i32>(json, "chapters_total")?;
        let date = read_required::<String>(json, "date")?;
        Some(UserUpdate { user, score, status, chapters_read, chapters_total, date })
    }
}

impl UserUpdate {
    /// The members that write a record, in the order of its fields.
    pub open spec fn members(value: UserUpdateView) -> Seq<(Seq<char>, JsonView)> {
        seq![
            ("user"@, <User as ToJson>::encoded(value.user)),
            ("score"@, encoded_optional::<i32>(value.score)),
            ("status"@, <String as ToJson>::encoded(value.status)),
            ("chapters_read"@, encoded_optional::<i32>(value.chapters_read)),
            ("chapters_total"@, encoded_optional::<i32>(value.chapters_total)),
            ("date"@, <String as ToJson>::encoded(value.date)),
        ]
    }
}

impl ToJson for UserUpdate {
    open spec fn encoded(value: UserUpdateView) -> JsonView {
        JsonView::Object(entries_map(UserUpdate::members(value)))
    }

    fn to_json(&self) -> (r: Json) {
        let mut members: Vec<(String, Json)> = Vec::new();
        members.push((String::from_str("user"), self.user.to_json()));
        members.push((String::from_str("score"), write_optional(&self.score)));
        members.push((String::from_str("status"), self.status.to_json()));
        members.push((String::from_str("chapters_read"), write_optional(&self.chapters_read)));
        members.push((String::from_str("chapters_total"), write_optional(&self.chapters_total)));
        members.push((String::from_str("date"), self.date.to_json()));
        assert(entries_view(members@) =~= UserUpdate::members(self.deep_view()));
        Json::Object(members)
    }

    proof fn lemma_round_trip(value: UserUpdateView) {
        let members = UserUpdate::members(value);
        reveal_strlit("user");
        reveal_strlit("score");
        reveal_strlit("status");
        reveal_strlit("chapters_read");
        reveal_strlit("chapters_total");
        reveal_strlit("date");
        assert("user"@.len() == 4);
        assert("score"@.len() == 5);
        assert("status"@.len() == 6);
        assert("chapters_read"@.len() == 13);
        assert("chapters_total"@.len() == 14);
        assert("date"@.len() == 4);
        assert("user"@[0] != "date"@[0]);
        lemma_find_member_at(members, "user"@, 0);
        <User as ToJson>::lemma_round_trip(value.user);
        lemma_find_member_at(members, "score"@, 1);
        if let Some(inner) = value.score {
            <i32 as ToJson>::lemma_round_trip(inner);
        }
        lemma_find_member_at(members, "status"@, 2);
        <String as ToJson>::lemma_round_trip(value.status);
        lemma_find_member_at(members, "chapters_read"@, 3);
        if let Some(inner) = value.chapters_read {
            <i32 as ToJson>::lemma_round_trip(inner);
        }
        lemma_find_member_at(members, "chapters_total"@, 4);
        if let Some(inner) = value.chapters_total {
            <i32 as ToJson>::lemma_round_trip(inner);
        }
        lemma_find_member_at(members, "date"@, 5);
        <String as ToJson>::lemma_round_trip(value.date);
    }
}

/// What a user has watched, in sums.
#[derive(Debug, Clone, PartialEq, Eq)]
pub struct UserAnimeInfo {
    pub days_watched: Number,
    pub mean_score: Number,
    pub watching: i32,
    pub completed: i32,
    pub on_hold: i32,
    pub dropped: i32,
    pub plan_to_watch: i32,
    pub total_entries: i32,
    pub rewatched: i32,
    pub episodes_watched: i32,
}

/// The mathematical value of a [`UserAnimeInfo`].
pub struct UserAnimeInfoView {
    pub days_watched: Seq<char>,
    pub mean_score: Seq<char>,
    pub watching: i32,
    pub completed: i32,
    pub on_hold: i32,
    pub dropped: i32,
    pub plan_to_watch: i32,
    pub total_entries: i32,
    pub rewatched: i32,
    pub episodes_watched: i32,
}

impl DeepView for UserAnimeInfo {
    type V = UserAnimeInfoView;

    open spec fn deep_view(&self) -> UserAnimeInfoView {
        UserAnimeInfoView {
            days_watched: self.days_watched.deep_view(),
            mean_score: self.mean_score.deep_view(),
            watching: self.watching.deep_view(),
            completed: self.completed.deep_view(),
            on_hold: self.on_hold.deep_view(),
            dropped: self.dropped.deep_view(),
            plan_to_watch: self.plan_to_watch.deep_view(),
            total_entries: self.total_entries.deep_view(),
            rewatched: self.rewatched.deep_view(),
            episodes_watched: self.episodes_watched.deep_view(),
        }
    }
}

impl FromJson for UserAnimeInfo {
    open spec fn decoded(json: JsonView) -> Option<UserAnimeInfoView> {
        let days_watched = required_member::<Number>(json, "days_watched"@);
        let mean_score = required_member::<Number>(json, "mean_score"@);
        let watching = required_member::<i32>(json, "watching"@);
        let completed = required_member::<i32>(json, "completed"@);
        let on_hold = required_member::<i32>(json, "on_hold"@);
        let dropped = required_member::<i32>(json, "dropped"@);
        let plan_to_watch = required_member::<i32>(json, "plan_to_watch"@);
        let total_entries = required_member::<i32>(json, "total_entries"@);
        let rewatched = required_member::<i32>(json, "rewatched"@);
        let episodes_watched = required_member::<i32>(json, "episodes_watched"@);
        if json is Object
            && days_watched is Some
            && mean_score is Some
            && watching is Some
            && completed is Some
            && on_hold is Some
            && dropped is Some
            && plan_to_watch is Some
            && total_entries is Some
            && rewatched is Some
            && episodes_watched is Some {
            Some(
                UserAnimeInfoView {
                    days_watched: days_watched.unwrap(),
                    mean_score: mean_score.unwrap(),
                    watching: watching.unwrap(),
                    completed: completed.unwrap(),
                    on_hold: on_hold.unwrap(),
                    dropped: dropped.unwrap(),
                    plan_to_watch: plan_to_watch.unwrap(),
                    total_entries: total_entries.unwrap(),
                    rewatched: rewatched.unwrap(),
                    episodes_watched: episodes_watched.unwrap(),
                },
            )
        } else {
            None
        }
    }

    fn from_json(json: &Json) -> (r: Option<UserAnimeInfo>) {
        if !json.is_object() {
            return None;
        }
        let days_watched = read_required::<Number>(json, "days_watched")?;
        let mean_score = read_required::<Number>(json, "mean_score")?;
        let watching = read_required::<i32>(json, "watching")?;
        let completed = read_required::<i32>(json, "completed")?;
        let on_hold = read_required::<i32>(json, "on_hold")?;
        let dropped = read_required::<i32>(json, "dropped")?;
        let plan_to_watch = read_required::<i32>(json, "plan_to_watch")?;
        let total_entries = read_required::<i32>(json, "total_entries")?;
        let rewatched = read_required::<i32>(json, "rewatched")?;
        let episodes_watched = read_required::<i32>(json, "episodes_watched")?;
        Some(UserAnimeInfo { days_watched, mean_score, watching, completed, on_hold, dropped, plan_to_watch, total_entries, rewatched, episodes_watched })
    }
}

impl UserAnimeInfo {
    /// The members that write a record, in the order of its fields.
    pub open spec fn members(value: UserAnimeInfoView) -> Seq<(Seq<char>, JsonView)> {
        seq![
            ("days_watched"@, <Number as ToJson>::encoded(value.days_watched)),
            ("mean_score"@, <Number as ToJson>::encoded(value.mean_score)),
            ("watching"@, <i32 as ToJson>::encoded(value.watching)),
            ("completed"@, <i32 as ToJson>::encoded(value.completed)),
            ("on_hold"@, <i32 as ToJson>::encoded(value.on_hold)),
            ("dropped"@, <i32 as ToJson>::encoded(value.dropped)),
            ("plan_to_watch"@, <i32 as ToJson>::encoded(value.plan_to_watch)),
            ("total_entries"@, <i32 as ToJson>::encoded(value.total_entries)),
            ("rewatched"@, <i32 as ToJson>::encoded(value.rewatched)),
            ("episodes_watched"@, <i32 as ToJson>::encoded(value.episodes_watched)),
        ]
    }
}

impl ToJson for UserAnimeInfo {
    open spec fn encoded(value: UserAnimeInfoView) -> JsonView {
        JsonView::Object(entries_map(UserAnimeInfo::members(value)))
    }

    fn to_json(&self) -> (r: Json) {
        let mut members: Vec<(String, Json)> = Vec::new();
        members.push((String::from_str("days_watched"), self.days_watched.to_json()));
        members.push((String::from_str("mean_score"), self.mean_score.to_json()));
        members.push((String::from_str("watching"), self.watching.to_json()));
        members.push((String::from_str("completed"), self.completed.to_json()));
        members.push((String::from_str("on_hold"), self.on_hold.to_json()));
        members.push((String::from_str("dropped"), self.dropped.to_json()));
        members.push((String::from_str("plan_to_watch"), self.plan_to_watch.to_json()));
        members.push((String::from_str("total_entries"), self.total_entries.to_json()));
        members.push((String::from_str("rewatched"), self.rewatched.to_json()));
        members.push((String::from_str("episodes_watched"), self.episodes_watched.to_json()));
        assert(entries_view(members@) =~= UserAnimeInfo::members(self.deep_view()));
        Json::Object(members)
    }

    proof fn lemma_round_trip(value: UserAnimeInfoView) {
        let members = UserAnimeInfo::members(value);
        reveal_strlit("days_watched");
        reveal_strlit("mean_score");
        reveal_strlit("watching");
        reveal_strlit("completed");
        reveal_strlit("on_hold");
        reveal_strlit("dropped");
        reveal_strlit("plan_to_watch");
        reveal_strlit("total_entries");
        reveal_strlit("rewatched");
        reveal_strlit("episodes_watched");
        assert("days_watched"@.len() == 12);
        assert("mean_score"@.len() == 10);
        assert("watching"@.len() == 8);
        assert("completed"@.len() == 9);
        assert("on_hold"@.len() == 7);
        assert("dropped"@.len() == 7);
        assert("plan_to_watch"@.len() == 13);
        assert("total_entries"@.len() == 13);
        assert("rewatched"@.len() == 9);
        assert("episodes_watched"@.len() == 16);
        assert("on_hold"@[0] != "dropped"@[0]);
        assert("plan_to_watch"@[0] != "total_entries"@[0]);
        assert("completed"@[0] != "rewatched"@[0]);
        lemma_find_member_at(members, "days_watched"@, 0);
        <Number as ToJson>::lemma_round_trip(value.days_watched);
        lemma_find_member_at(members, "mean_score"@, 1);
        <Number as ToJson>::lemma_round_trip(value.mean_score);
        lemma_find_member_at(members, "watching"@, 2);
        <i32 as ToJson>::lemma_round_trip(value.watching);
        lemma_find_member_at(members, "completed"@, 3);
        <i32 as ToJson>::lemma_round_trip(value.completed);
        lemma_find_member_at(members, "on_hold"@, 4);
        <i32 as ToJson>::lemma_round_trip(value.on_hold);
        lemma_find_member_at(members, "dropped"@, 5);
        <i32 as ToJson>::lemma_round_trip(value.dropped);
        lemma_find_member_at(members, "plan_to_watch"@, 6);
        <i32 as ToJson>::lemma_round_trip(value.plan_to_watch);
        lemma_find_member_at(members, "total_entries"@, 7);
        <i32 as ToJson>::lemma_round_trip(value.total_entries);
        lemma_find_member_at(members, "rewatched"@, 8);
        <i32 as ToJson>::lemma_round_trip(value.rewatched);
        lemma_find_member_at(members, "episodes_watched"@, 9);
        <i32 as ToJson>::lemma_round_trip(value.episodes_watched);
    }
}

/// What a user has read, in sums.
#[derive(Debug, Clone, PartialEq, Eq)]
pub struct UserMangaInfo {
    pub days_read: Number,
    pub mean_score: Number,
    pub reading: i32,
    pub completed: i32,
    pub on_hold: i32,
    pub dropped: i32,
    pub plan_to_read: i32,
    pub total_entries: i32,
    pub reread: i32,
    pub chapters_read: i32,
    pub volumes_read: i32,
}

/// The mathematical value of a [`UserMangaInfo`].
pub struct UserMangaInfoView {
    pub days_read: Seq<char>,
    pub mean_score: Seq<char>,
    pub reading: i32,
    pub completed: i32,
    pub on_hold: i32,
    pub dropped: i32,
    pub plan_to_read: i32,
    pub total_entries: i32,
    pub reread: i32,
    pub chapters_read: i32,
    pub volumes_read: i32,
}

impl DeepView for UserMangaInfo {
    type V = UserMangaInfoView;

    open spec fn deep_view(&self) -> UserMangaInfoView {
        UserMangaInfoView {
            days_read: self.days_read.deep_view(),
            mean_score: self.mean_score.deep_view(),
            reading: self.reading.deep_view(),
            completed: self.completed.deep_view(),
            on_hold: self.on_hold.deep_view(),
            dropped: self.dropped.deep_view(),
            plan_to_read: self.plan_to_read.deep_view(),
            total_entries: self.total_entries.deep_view(),
            reread: self.reread.deep_view(),
            chapters_read: self.chapters_read.deep_view(),
            volumes_read: self.volumes_read.deep_view(),
        }
    }
}

impl FromJson for UserMangaInfo {
    open spec fn decoded(json: JsonView) -> Option<UserMangaInfoView> {
        let days_read = required_member::<Number>(json, "days_read"@);
        let mean_score = required_member::<Number>(json, "mean_score"@);
        let reading = required_member::<i32>(json, "reading"@);
        let completed = required_member::<i32>(json, "completed"@);
        let on_hold = required_member::<i32>(json, "on_hold"@);
        let dropped = required_member::<i32>(json, "dropped"@);
        let plan_to_read = required_member::<i32>(json, "plan_to_read"@);
        let total_entries = required_member::<i32>(json, "total_entries"@);
        let reread = required_member::<i32>(json, "reread"@);
        let chapters_read = required_member::<i32>(json, "chapters_read"@);
        let volumes_read = required_member::<i32>(json, "volumes_read"@);
        if json is Object
            && days_read is Some
            && mean_score is Some
            && reading is Some
            && completed is Some
            && on_hold is Some
            && dropped is Some
            && plan_to_read is Some
            && total_entries is Some
            && reread is Some
            && chapters_read is Some
            && volumes_read is Some {
            Some(
                UserMangaInfoView {
                    days_read: days_read.unwrap(),
                    mean_score: mean_score.unwrap(),
                    reading: reading.unwrap(),
                    completed: completed.unwrap(),
                    on_hold: on_hold.unwrap(),
                    dropped: dropped.unwrap(),
                    plan_to_read: plan_to_read.unwrap(),
                    total_entries: total_entries.unwrap(),
                    reread: reread.unwrap(),
                    chapters_read: chapters_read.unwrap(),
                    volumes_read: volumes_read.unwrap(),
                },
            )
        } else {
            None
        }
    }

    fn from_json(json: &Json) -> (r: Option<UserMangaInfo>) {
        if !json.is_object() {
            return None;
        }
        let days_read = read_required::<Number>(json, "days_read")?;
        let mean_score = read_required::<Number>(json, "mean_score")?;
        let reading = read_required::<i32>(json, "reading")?;
        let completed = read_required::<i32>(json, "completed")?;
        let on_hold = read_required::<i32>(json, "on_hold")?;
        let dropped = read_required::<i32>(json, "dropped")?;
        let plan_to_read = read_required::<i32>(json, "plan_to_read")?;
        let total_entries = read_required::<i32>(json, "total_entries")?;
        let reread = read_required::<i32>(json, "reread")?;
        let chapters_read = read_required::<i32>(json, "chapters_read")?;
        let volumes_read = read_required::<i32>(json, "volumes_read")?;
        Some(UserMangaInfo { days_read, mean_score, reading, completed, on_hold, dropped, plan_to_read, total_entries, reread, chapters_read, volumes_read })
    }
}

impl UserMangaInfo {
    /// The members that write a record, in the order of its fields.
    pub open spec fn members(value: UserMangaInfoView) -> Seq<(Seq<char>, JsonView)> {
        seq![
            ("days_read"@, <Number as ToJson>::encoded(value.days_read)),
            ("mean_score"@, <Number as ToJson>::encoded(value.mean_score)),
            ("reading"@, <i32 as ToJson>::encoded(value.reading)),
            ("completed"@, <i32 as ToJson>::encoded(value.completed)),
            ("on_hold"@, <i32 as ToJson>::encoded(value.on_hold)),
            ("dropped"@, <i32 as ToJson>::encoded(value.dropped)),
            ("plan_to_read"@, <i32 as ToJson>::encoded(value.plan_to_read)),
            ("total_entries"@, <i32 as ToJson>::encoded(value.total_entries)),
            ("reread"@, <i32 as ToJson>::encoded(value.reread)),
            ("chapters_read"@, <i32 as ToJson>::encoded(value.chapters_read)),
            ("volumes_read"@, <i32 as ToJson>::encoded(value.volumes_read)),
        ]
    }
}

impl ToJson for UserMangaInfo {
    open spec fn encoded(value: UserMangaInfoView) -> JsonView {
        JsonView::Object(entries_map(UserMangaInfo::members(value)))
    }

    fn to_json(&self) -> (r: Json) {
        let mut members: Vec<(String, Json)> = Vec::new();
        members.push((String::from_str("days_read"), self.days_read.to_json()));
        members.push((String::from_str("mean_score"), self.mean_score.to_json()));
        members.push((String::from_str("reading"), self.reading.to_json()));
        members.push((String::from_str("completed"), self.completed.to_json()));
        members.push((String::from_str("on_hold"), self.on_hold.to_json()));
        members.push((String::from_str("dropped"), self.dropped.to_json()));
        members.push((String::from_str("plan_to_read"), self.plan_to_read.to_json()));
        members.push((String::from_str("total_entries"), self.total_entries.to_json()));
        members.push((String::from_str("reread"), self.reread.to_json()));
        members.push((String::from_str("chapters_read"), self.chapters_read.to_json()));
        members.push((String::from_str("volumes_read"), self.volumes_read.to_json()));
        assert(entries_view(members@) =~= UserMangaInfo::members(self.deep_view()));
        Json::Object(members)
    }

    proof fn lemma_round_trip(value: UserMangaInfoView) {
        let members = UserMangaInfo::members(value);
        reveal_strlit("days_read");
        reveal_strlit("mean_score");
        reveal_strlit("reading");
        reveal_strlit("completed");
        reveal_strlit("on_hold");
        reveal_strlit("dropped");
        reveal_strlit("plan_to_read");
        reveal_strlit("total_entries");
        reveal_strlit("reread");
        reveal_strlit("chapters_read");
        reveal_strlit("volumes_read");
        assert("days_read"@.len() == 9);
        assert("mean_score"@.len() == 10);
        assert("reading"@.len() == 7);
        assert("completed"@.len() == 9);
        assert("on_hold"@.len() == 7);
        assert("dropped"@.len() == 7);
        assert("plan_to_read"@.len() == 12);
        assert("total_entries"@.len() == 13);
        assert("reread"@.len() == 6);
        assert("chapters_read"@.len() == 13);
        assert("volumes_read"@.len() == 12);
        assert("days_read"@[0] != "completed"@[0]);
        assert("reading"@[0] != "on_hold"@[0]);
        assert("reading"@[0] != "dropped"@[0]);
        assert("on_hold"@[0] != "dropped"@[0]);
        assert("total_entries"@[0] != "chapters_read"@[0]);
        assert("plan_to_read"@[0] != "volumes_read"@[0]);
        lemma_find_member_at(members, "days_read"@, 0);
        <Number as ToJson>::lemma_round_trip(value.days_read);
        lemma_find_member_at(members, "mean_score"@, 1);
        <Number as ToJson>::lemma_round_trip(value.mean_score);
        lemma_find_member_at(members, "reading"@, 2);
        <i32 as ToJson>::lemma_round_trip(value.reading);
        lemma_find_member_at(members, "completed"@, 3);
        <i32 as ToJson>::lemma_round_trip(value.completed);
        lemma_find_member_at(members, "on_hold"@, 4);
        <i32 as ToJson>::lemma_round_trip(value.on_hold);
        lemma_find_member_at(members, "dropped"@, 5);
        <i32 as ToJson>::lemma_round_trip(value.dropped);
        lemma_find_member_at(members, "plan_to_read"@, 6);
        <i32 as ToJson>::lemma_round_trip(value.plan_to_read);
        lemma_find_member_at(members, "total_entries"@, 7);
        <i32 as ToJson>::lemma_round_trip(value.total_entries);
        lemma_find_member_at(members, "reread"@, 8);
        <i32 as ToJson>::lemma_round_trip(value.reread);
        lemma_find_member_at(members, "chapters_read"@, 9);
        <i32 as ToJson>::lemma_round_trip(value.chapters_read);
        lemma_find_member_at(members, "volumes_read"@, 10);
        <i32 as ToJson>::lemma_round_trip(value.volumes_read);
    }
}

/// Both sums of a user.
#[derive(Debug, Clone, PartialEq, Eq)]
pub struct UserStats {
    pub anime: UserAnimeInfo,
    pub manga: UserMangaInfo,
}

/// The mathematical value of a [`UserStats`].
pub struct UserStatsView {
    pub anime: UserAnimeInfoView,
    pub manga: UserMangaInfoView,
}

impl DeepView for UserStats {
    type V = UserStatsView;

    open spec fn deep_view(&self) -> UserStatsView {
        UserStatsView {
            anime: self.anime.deep_view(),
            manga: self.manga.deep_view(),
        }
    }
}

impl FromJson for UserStats {
    open spec fn decoded(json: JsonView) -> Option<UserStatsView> {
        let anime = required_member::<UserAnimeInfo>(json, "anime"@);
        let manga = required_member::<UserMangaInfo>(json, "manga"@);
        if json is Object
            && anime is Some
            && manga is Some {
            Some(
                UserStatsView {
                    anime: anime.unwrap(),
                    manga: manga.unwrap(),
                },
            )
        } else {
            None
        }
    }

    fn from_json(json: &Json) -> (r: Option<UserStats>) {
        if !json.is_object() {
            return None;
        }
        let anime = read_required::<UserAnimeInfo>(json, "anime")?;
        let manga = read_required::<UserMangaInfo>(json, "manga")?;
        Some(UserStats { anime, manga })
    }
}

impl UserStats {
    /// The members that write a record, in the order of its fields.
    pub open spec fn members(value: UserStatsView) -> Seq<(Seq<char>, JsonView)> {
        seq![
            ("anime"@, <UserAnimeInfo as ToJson>::encoded(value.anime)),
            ("manga"@, <UserMangaInfo as ToJson>::encoded(value.manga)),
        ]
    }
}

impl ToJson for UserStats {
    open spec fn encoded(value: UserStatsView) -> JsonView {
        JsonView::Object(entries_map(UserStats::members(value)))
    }

    fn to_json(&self) -> (r: Json) {
        let mut members: Vec<(String, Json)> = Vec::new();
        members.push((String::from_str("anime"), self.anime.to_json()));
        members.push((String::from_str("manga"), self.manga.to_json()));
        assert(entries_view(members@) =~= UserStats::members(self.deep_view()));
        Json::Object(members)
    }

    proof fn lemma_round_trip(value: UserStatsView) {
        let members = UserStats::members(value);
        reveal_strlit("anime");
        reveal_strlit("manga");
        assert("anime"@.len() == 5);
        assert("manga"@.len() == 5);
        assert("anime"@[0] != "manga"@[0]);
        lemma_find_member_at(members, "anime"@, 0);
        <UserAnimeInfo as ToJson>::lemma_round_trip(value.anime);
        lemma_find_member_at(members, "manga"@, 1);
        <UserMangaInfo as ToJson>::lemma_round_trip(value.manga);
    }
}

/// The envelope round a user's statistics.
#[derive(Debug, Clone, PartialEq, Eq)]
pub struct UserStatsResponse {
    pub data: UserStats,
    pub pagination: Option<Pagination>,
}

/// The mathematical value of a [`UserStatsResponse`].
pub struct UserStatsResponseView {
    pub data: UserStatsView,
    pub pagination: Option<PaginationView>,
}

impl DeepView for UserStatsResponse {
    type V = UserStatsResponseView;

    open spec fn deep_view(&self) -> UserStatsResponseView {
        UserStatsResponseView {
            data: self.data.deep_view(),
            pagination: self.pagination.deep_view(),
        }
    }
}

impl FromJson for UserStatsResponse {
    open spec fn decoded(json: JsonView) -> Option<UserStatsResponseView> {
        let data = required_member::<UserStats>(json, "data"@);
        let pagination = optional_member::<Pagination>(json, "pagination"@);
        if json is Object
            && data is Some
            && pagination is Some {
            Some(
                UserStatsResponseView {
                    data: data.unwrap(),
                    pagination: pagination.unwrap(),
                },
            )
        } else {
            None
        }
    }

    fn from_json(json: &Json) -> (r: Option<UserStatsResponse>) {
        if !json.is_object() {
            return None;
        }
        let data = read_required::<UserStats>(json, "data")?;
        let pagination = read_optional::<Pagination>(json, "pagination")?;
        Some(UserStatsResponse { data, pagination })
    }
}

impl UserStatsResponse {
    /// The members that write a record, in the order of its fields.
    pub open spec fn members(value: UserStatsResponseView) -> Seq<(Seq<char>, JsonView)> {
        seq![
            ("data"@, <UserStats as ToJson>::encoded(value.data)),
            ("pagination"@, encoded_optional::<Pagination>(value.pagination)),
        ]
    }
}

impl ToJson for UserStatsResponse {
    open spec fn encoded(value: UserStatsResponseView) -> JsonView {
        JsonView::Object(entries_map(UserStatsResponse::members(value)))
    }

    fn to_json(&self) -> (r: Json) {
        let mut members: Vec<(String, Json)> = Vec::new();
        members.push((String::from_str("data"), self.data.to_json()));
        members.push((String::from_str("pagination"), write_optional(&self.pagination)));
        assert(entries_view(members@) =~= UserStatsResponse::members(self.deep_view()));
        Json::Object(members)
    }

    proof fn lemma_round_trip(value: UserStatsResponseView) {
        let members = UserStatsResponse::members(value);
        reveal_strlit("data");
        reveal_strlit("pagination");
        assert("data"@.len() == 4);
        assert("pagination"@.len() == 10);
        lemma_find_member_at(members, "data"@, 0);
        <UserStats as ToJson>::lemma_round_trip(value.data);
        lemma_find_member_at(members, "pagination"@, 1);
        if let Some(inner) = value.pagination {
            <Pagination as ToJson>::lemma_round_trip(inner);
        }
    }
}

/// The envelope round one record.
#[derive(Debug, Clone, PartialEq, Eq)]
pub struct UserResponse<T> {
    pub data: T,
    pub pagination: Option<Pagination>,
}

/// The mathematical value of a [`UserResponse`].
pub struct UserResponseView<V> {
    pub data: V,
    pub pagination: Option<PaginationView>,
}

impl<T: DeepView> DeepView for UserResponse<T> {
    type V = UserResponseView<T::V>;

    open spec fn deep_view(&self) -> UserResponseView<T::V> {
        UserResponseView { data: self.data.deep_view(), pagination: self.pagination.deep_view() }
    }
}

impl<T: FromJson> FromJson for UserResponse<T> {
    open spec fn decoded(json: JsonView) -> Option<UserResponseView<T::V>> {
        let data = required_member::<T>(json, "data"@);
        let pagination = optional_member::<Pagination>(json, "pagination"@);
        if json is Object && data is Some && pagination is Some {
            Some(UserResponseView { data: data.unwrap(), pagination: pagination.unwrap() })
        } else {
            None
        }
    }

    fn from_json(json: &Json) -> (r: Option<UserResponse<T>>) {
        if !json.is_object() {
            return None;
        }
        let data = read_required::<T>(json, "data")?;
        let pagination = read_optional::<Pagination>(json, "pagination")?;
        Some(UserResponse { data, pagination })
    }
}

impl<T: ToJson> UserResponse<T> {
    /// The members that write an envelope: the payload, then the paging.
    pub open spec fn members(value: UserResponseView<T::V>) -> Seq<(Seq<char>, JsonView)> {
        seq![
            ("data"@, <T as ToJson>::encoded(value.data)),
            ("pagination"@, encoded_optional::<Pagination>(value.pagination)),
        ]
    }
}

impl<T: ToJson> ToJson for UserResponse<T> {
    open spec fn encoded(value: UserResponseView<T::V>) -> JsonView {
        JsonView::Object(entries_map(UserResponse::<T>::members(value)))
    }

    fn to_json(&self) -> (r: Json) {
        let mut members: Vec<(String, Json)> = Vec::new();
        members.push((String::from_str("data"), self.data.to_json()));
        members.push((String::from_str("pagination"), write_optional(&self.pagination)));
        assert(entries_view(members@) =~= UserResponse::<T>::members(self.deep_view()));
        Json::Object(members)
    }

    proof fn lemma_round_trip(value: UserResponseView<T::V>) {
        let members = UserResponse::<T>::members(value);
        reveal_strlit("data");
        reveal_strlit("pagination");
        assert("data"@.len() == 4);
        assert("pagination"@.len() == 10);
        lemma_find_member_at(members, "data"@, 0);
        <T as ToJson>::lemma_round_trip(value.data);
        lemma_find_member_at(members, "pagination"@, 1);
        if let Some(inner) = value.pagination {
            <Pagination as ToJson>::lemma_round_trip(inner);
        }
    }
}

/// The envelope round a list of records.
#[derive(Debug, Clone, PartialEq, Eq)]
pub struct UserVectorResponse<T> {
    pub data: Vec<T>,
    pub pagination: Option<Pagination>,
}

/// The mathematical value of a [`UserVectorResponse`].
pub struct UserVectorResponseView<V> {
    pub data: Seq<V>,
    pub pagination: Option<PaginationView>,
}

impl<T: DeepView> DeepView for UserVectorResponse<T> {
    type V = UserVectorResponseView<T::V>;

    open spec fn deep_view(&self) -> UserVectorResponseView<T::V> {
        UserVectorResponseView { data: self.data.deep_view(), pagination: self.pagination.deep_view() }
    }
}

impl<T: FromJson> FromJson for UserVectorResponse<T> {
    open spec fn decoded(json: JsonView) -> Option<UserVectorResponseView<T::V>> {
        let data = required_member::<Vec<T>>(json, "data"@);
        let pagination = optional_member::<Pagination>(json, "pagination"@);
        if json is Object && data is Some && pagination is Some {
            Some(UserVectorResponseView { data: data.unwrap(), pagination: pagination.unwrap() })
        } else {
            None
        }
    }

    fn from_json(json: &Json) -> (r: Option<UserVectorResponse<T>>) {
        if !json.is_object() {
            return None;
        }
        let data = read_required::<Vec<T>>(json, "data")?;
        let pagination = read_optional::<Pagination>(json, "pagination")?;
        Some(UserVectorResponse { data, pagination })
    }
}

impl<T: ToJson> UserVectorResponse<T> {
    /// The members that write an envelope: the payload, then the paging.
    pub open spec fn members(value: UserVectorResponseView<T::V>) -> Seq<(Seq<char>, JsonView)> {
        seq![
            ("data"@, <Vec<T> as ToJson>::encoded(value.data)),
            ("pagination"@, encoded_optional::<Pagination>(value.pagination)),
        ]
    }
}

impl<T: ToJson> ToJson for UserVectorResponse<T> {
    open spec fn encoded(value: UserVectorResponseView<T::V>) -> JsonView {
        JsonView::Object(entries_map(UserVectorResponse::<T>::members(value)))
    }

    fn to_json(&self) -> (r: Json) {
        let mut members: Vec<(String, Json)> = Vec::new();
        members.push((String::from_str("data"), self.data.to_json()));
        members.push((String::from_str("pagination"), write_optional(&self.pagination)));
        assert(entries_view(members@) =~= UserVectorResponse::<T>::members(self.deep_view()));
        Json::Object(members)
    }

    proof fn lemma_round_trip(value: UserVectorResponseView<T::V>) {
        let members = UserVectorResponse::<T>::members(value);
        reveal_strlit("data");
        reveal_strlit("pagination");
        assert("data"@.len() == 4);
        assert("pagination"@.len() == 10);
        lemma_find_member_at(members, "data"@, 0);
        <Vec<T> as ToJson>::lemma_round_trip(value.data);
        lemma_find_member_at(members, "pagination"@, 1);
        if let Some(inner) = value.pagination {
            <Pagination as ToJson>::lemma_round_trip(inner);
        }
    }
}

} // verus!
