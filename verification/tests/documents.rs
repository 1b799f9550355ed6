use jikan_users::common::{ImageUrls, Images, Pagination, PaginationItems};
use jikan_users::decode::{read_optional, read_required, FromJson};
use jikan_users::encode::{write_optional, ToJson};
use jikan_users::json::{same_text, Json, Number};
use jikan_users::users::{
    ReviewUser, User, UserAnimeInfo, UserById, UserMangaInfo, UserResponse, UserStats,
    UserStatsResponse, UserUpdate, UserVectorResponse,
};

fn text(value: &str) -> Json {
    Json::String(value.to_string())
}

fn num(value: &str) -> Json {
    Json::Number(value.to_string())
}

fn object(members: Vec<(&str, Json)>) -> Json {
    Json::Object(members.into_iter().map(|(key, value)| (key.to_string(), value)).collect())
}

#[test]
fn parse_reads_every_kind_of_value() {
    assert_eq!(Json::parse("null"), Some(Json::Null));
    assert_eq!(Json::parse("true"), Some(Json::Bool(true)));
    assert_eq!(Json::parse("false"), Some(Json::Bool(false)));
    assert_eq!(Json::parse("12"), Some(num("12")));
    assert_eq!(Json::parse("\"a\\nb\""), Some(text("a\nb")));
    assert_eq!(Json::parse("[]"), Some(Json::Array(vec![])));
    assert_eq!(Json::parse("{}"), Some(Json::Object(vec![])));
    assert_eq!(
        Json::parse(" [1, [2, [3]], {\"k\": [null]}] "),
        Some(Json::Array(vec![
            num("1"),
            Json::Array(vec![num("2"), Json::Array(vec![num("3")])]),
            object(vec![("k", Json::Array(vec![Json::Null]))]),
        ]))
    );
}

#[test]
fn parse_keeps_numbers_as_text() {
    assert_eq!(Json::parse("0"), Some(num("0")));
    assert_eq!(Json::parse("-7"), Some(num("-7")));
    assert_eq!(Json::parse("18446744073709551615"), Some(num("18446744073709551615")));
    assert_eq!(Json::parse("-9223372036854775808"), Some(num("-9223372036854775808")));
    assert_eq!(Json::parse("1.5"), Some(num("1.5")));
    assert_eq!(Json::parse("1.50"), Some(num("1.5")));
    assert_eq!(Json::parse("2.0"), Some(num("2.0")));
    assert_eq!(Json::parse("-0"), Some(num("-0.0")));
}

#[test]
fn parse_hands_members_out_by_name() {
    assert_eq!(
        Json::parse(r#"{"b":1,"a":2,"c":{"z":true,"y":false}}"#),
        Some(object(vec![
            ("a", num("2")),
            ("b", num("1")),
            ("c", object(vec![("y", Json::Bool(false)), ("z", Json::Bool(true))])),
        ]))
    );
    assert_eq!(Json::parse(r#"{"a":1,"a":2}"#), Some(object(vec![("a", num("2"))])));
}

#[test]
fn parse_refuses_what_is_not_json() {
    for source in ["", " ", "{", "}", "[1,]", "{\"a\"}", "nul", "01", "1 2", "'a'", "\"open", "1e999"] {
        assert_eq!(Json::parse(source), None, "{:?}", source);
    }
}

#[test]
fn parse_refuses_nesting_beyond_the_limit() {
    let deep = "[".repeat(200) + &"]".repeat(200);
    assert_eq!(Json::parse(&deep), None);
    let shallow = "[".repeat(100) + &"]".repeat(100);
    assert!(Json::parse(&shallow).is_some());
}

#[test]
fn member_finds_the_first_of_a_name() {
    let document = object(vec![("a", num("1")), ("b", num("2")), ("a", num("3"))]);
    assert_eq!(document.member("a"), Some(&num("1")));
    assert_eq!(document.member("b"), Some(&num("2")));
    assert_eq!(document.member("c"), None);
    assert_eq!(document.member(""), None);
    assert_eq!(Json::Array(vec![num("1")]).member("a"), None);
    assert_eq!(Json::Null.member("a"), None);
    assert_eq!(text("a").member("a"), None);
}

#[test]
fn is_object_tells_objects_apart() {
    assert!(Json::Object(vec![]).is_object());
    assert!(!Json::Array(vec![]).is_object());
    assert!(!Json::Null.is_object());
    assert!(!text("{}").is_object());
}

#[test]
fn clone_holds_the_same_document() {
    let document = object(vec![
        ("a", Json::Array(vec![num("1"), Json::Null, Json::Bool(true)])),
        ("b", object(vec![("c", text("d"))])),
    ]);
    assert_eq!(document.clone(), document);
    assert_eq!(document.duplicate(), document);
}

#[test]
fn required_and_optional_members_differ_on_null_and_absence() {
    let document = object(vec![("there", text("x")), ("void", Json::Null), ("wrong", num("1"))]);
    assert_eq!(read_required::<String>(&document, "there"), Some("x".to_string()));
    assert_eq!(read_required::<String>(&document, "void"), None);
    assert_eq!(read_required::<String>(&document, "absent"), None);
    assert_eq!(read_required::<String>(&document, "wrong"), None);
    assert_eq!(read_optional::<String>(&document, "there"), Some(Some("x".to_string())));
    assert_eq!(read_optional::<String>(&document, "void"), Some(None));
    assert_eq!(read_optional::<String>(&document, "absent"), Some(None));
    assert_eq!(read_optional::<String>(&document, "wrong"), None);
}

#[test]
fn plain_values_are_read_by_kind() {
    assert_eq!(String::from_json(&text("a")), Some("a".to_string()));
    assert_eq!(String::from_json(&num("1")), None);
    assert_eq!(bool::from_json(&Json::Bool(true)), Some(true));
    assert_eq!(bool::from_json(&text("true")), None);
    assert_eq!(i32::from_json(&num("-12")), Some(-12));
    assert_eq!(i32::from_json(&num("12.0")), None);
    assert_eq!(i32::from_json(&text("12")), None);
    assert_eq!(Number::from_json(&num("12.5")), Some(Number { text: "12.5".to_string() }));
    assert_eq!(Number::from_json(&text("12.5")), None);
    assert_eq!(Json::from_json(&Json::Null), Some(Json::Null));
    assert_eq!(Vec::<i32>::from_json(&Json::Array(vec![num("1"), num("2")])), Some(vec![1, 2]));
    assert_eq!(Vec::<i32>::from_json(&Json::Array(vec![num("1"), text("2")])), None);
    assert_eq!(Vec::<i32>::from_json(&Json::Array(vec![])), Some(vec![]));
    assert_eq!(Vec::<i32>::from_json(&object(vec![])), None);
}

#[test]
fn record_is_read_only_from_an_object() {
    assert_eq!(Images::from_json(&Json::Array(vec![])), None);
    assert_eq!(Images::from_json(&text("x")), None);
    assert_eq!(Images::from_json(&Json::Null), None);
    assert_eq!(Images::from_json(&object(vec![])), Some(Images { jpg: None, webp: None }));
    assert_eq!(
        ImageUrls::from_json(&object(vec![("large_image_url", text("l"))])),
        Some(ImageUrls { image_url: None, small_image_url: None, large_image_url: Some("l".to_string()) })
    );
    assert_eq!(ImageUrls::from_json(&object(vec![("image_url", num("1"))])), None);
}

#[test]
fn user_is_written_member_by_member() {
    let user = User { username: "alice".to_string(), url: "https://x/alice".to_string(), images: None };
    assert_eq!(
        user.to_json(),
        object(vec![("username", text("alice")), ("url", text("https://x/alice")), ("images", Json::Null)])
    );
    let pages = PaginationItems { count: 1, total: -2, per_page: 30 };
    assert_eq!(
        pages.to_json(),
        object(vec![("count", num("1")), ("total", num("-2")), ("per_page", num("30"))])
    );
    assert_eq!(write_optional::<i32>(&None), Json::Null);
    assert_eq!(write_optional::<i32>(&Some(4)), num("4"));
    assert_eq!(vec![true, false].to_json(), Json::Array(vec![Json::Bool(true), Json::Bool(false)]));
}

fn sample_images() -> Images {
    Images {
        jpg: Some(ImageUrls {
            image_url: Some("j".to_string()),
            small_image_url: None,
            large_image_url: Some("J".to_string()),
        }),
        webp: None,
    }
}

fn sample_pagination() -> Pagination {
    Pagination {
        last_visible_page: 9,
        has_next_page: true,
        current_page: Some(2),
        items: Some(PaginationItems { count: 25, total: 220, per_page: 25 }),
    }
}

fn sample_user() -> User {
    User { username: "n".to_string(), url: "u".to_string(), images: Some(sample_images()) }
}

#[test]
fn every_record_is_read_back_as_it_was_written() {
    let by_id = UserResponse {
        data: UserById { url: "u".to_string(), username: "n".to_string() },
        pagination: None,
    };
    assert_eq!(FromJson::from_json(&by_id.to_json()), Some(by_id));

    let profile = UserResponse { data: sample_user(), pagination: Some(sample_pagination()) };
    assert_eq!(FromJson::from_json(&profile.to_json()), Some(profile));

    let users = UserVectorResponse {
        data: vec![sample_user(), User { username: "m".to_string(), url: "v".to_string(), images: None }],
        pagination: Some(sample_pagination()),
    };
    assert_eq!(FromJson::from_json(&users.to_json()), Some(users));

    let reviews = UserVectorResponse {
        data: vec![ReviewUser { url: "u".to_string(), username: "n".to_string(), images: sample_images() }],
        pagination: None,
    };
    assert_eq!(FromJson::from_json(&reviews.to_json()), Some(reviews));

    let history = UserVectorResponse {
        data: vec![UserUpdate {
            user: sample_user(),
            score: Some(-3),
            status: "s".to_string(),
            chapters_read: None,
            chapters_total: Some(i32::MAX),
            date: "d".to_string(),
        }],
        pagination: None,
    };
    assert_eq!(FromJson::from_json(&history.to_json()), Some(history));

    let stats = UserStatsResponse {
        data: UserStats {
            anime: UserAnimeInfo {
                days_watched: Number { text: "1.5".to_string() },
                mean_score: Number { text: "7".to_string() },
                watching: 1,
                completed: 2,
                on_hold: 3,
                dropped: 4,
                plan_to_watch: 5,
                total_entries: 6,
                rewatched: 7,
                episodes_watched: 8,
            },
            manga: UserMangaInfo {
                days_read: Number { text: "0.25".to_string() },
                mean_score: Number { text: "1e-7".to_string() },
                reading: 1,
                completed: 2,
                on_hold: 3,
                dropped: 4,
                plan_to_read: 5,
                total_entries: 6,
                reread: 7,
                chapters_read: 8,
                volumes_read: i32::MIN,
            },
        },
        pagination: Some(sample_pagination()),
    };
    assert_eq!(FromJson::from_json(&stats.to_json()), Some(stats));

    let favorites = UserResponse {
        data: object(vec![("anime", Json::Array(vec![])), ("x", Json::Null)]),
        pagination: None,
    };
    assert_eq!(FromJson::from_json(&favorites.to_json()), Some(favorites));
}

#[test]
fn from_value_copies_every_kind_of_value() {
    let mut inner = serde_json::Map::new();
    inner.insert("z".to_string(), serde_json::Value::Null);
    inner.insert("a".to_string(), serde_json::Value::Bool(true));
    let value = serde_json::Value::Array(vec![
        serde_json::Value::Null,
        serde_json::Value::Bool(false),
        serde_json::Value::Number(serde_json::Number::from(-12i64)),
        serde_json::Value::Number(serde_json::Number::from(18446744073709551615u64)),
        serde_json::Value::String("text".to_string()),
        serde_json::Value::Array(vec![]),
        serde_json::Value::Object(inner),
    ]);
    assert_eq!(
        Json::from_value(&value),
        Json::Array(vec![
            Json::Null,
            Json::Bool(false),
            num("-12"),
            num("18446744073709551615"),
            text("text"),
            Json::Array(vec![]),
            object(vec![("a", Json::Bool(true)), ("z", Json::Null)]),
        ])
    );
}

#[test]
fn same_text_compares_character_by_character() {
    assert!(same_text("", ""));
    assert!(same_text("data", "data"));
    assert!(same_text("ユーザー", "ユーザー"));
    assert!(!same_text("data", "date"));
    assert!(!same_text("data", "dat"));
    assert!(!same_text("", "a"));
    assert!(!same_text("Data", "data"));
    assert!(!same_text("é", "e\u{301}"));
}
