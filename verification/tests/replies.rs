use jikan_users::client::{read_body, read_document, read_reply, status_is_success, JikanError, Reply};
use jikan_users::common::{ImageUrls, Images, Pagination, PaginationItems};
use jikan_users::endpoints::{
    read_answer, GetUser, GetUserById, GetUserFavorites, GetUserFriends, GetUserFull,
    GetUserHistory, GetUserReviews, GetUserStats, GetUsers,
};
use jikan_users::json::{Json, Number};
use jikan_users::users::{
    ReviewUser, User, UserAnimeInfo, UserById, UserMangaInfo, UserResponse, UserStats,
    UserStatsResponse, UserUpdate, UserVectorResponse,
};

fn answered(status: u16, body: &str) -> Reply {
    Reply::Answered { status, body: body.to_string() }
}

fn name(username: &str) -> String {
    username.to_string()
}

#[test]
fn list_all_example_yields_one_user_without_images() {
    let body = r#"{"data":[{"username":"alice","url":"https://x/alice","images":null}],"pagination":null}"#;
    let answer = read_answer(&GetUsers, &answered(200, body)).unwrap();
    assert_eq!(answer.data.len(), 1);
    assert_eq!(answer.data[0].username, "alice");
    assert_eq!(answer.data[0].url, "https://x/alice");
    assert_eq!(answer.data[0].images, None);
    assert_eq!(answer.pagination, None);
}

#[test]
fn by_id_example_yields_the_identity() {
    let body = r#"{"data":{"url":"https://x/5","username":"bob"}}"#;
    let answer = read_answer(&GetUserById { id: 5 }, &answered(200, body)).unwrap();
    assert_eq!(
        answer,
        UserResponse {
            data: UserById { url: "https://x/5".to_string(), username: "bob".to_string() },
            pagination: None,
        }
    );
}

#[test]
fn profile_with_images_and_pagination_is_read_field_for_field() {
    let body = r#"{
        "data": {
            "username": "carol",
            "url": "https://x/carol",
            "images": {
                "jpg": {"image_url": "https://img/c.jpg"},
                "webp": {"image_url": "https://img/c.webp", "small_image_url": null}
            },
            "joined": "2020-01-01"
        },
        "pagination": {"last_visible_page": 3, "has_next_page": true,
                       "items": {"count": 25, "total": 60, "per_page": 25}}
    }"#;
    let expected = UserResponse {
        data: User {
            username: "carol".to_string(),
            url: "https://x/carol".to_string(),
            images: Some(Images {
                jpg: Some(ImageUrls {
                    image_url: Some("https://img/c.jpg".to_string()),
                    small_image_url: None,
                    large_image_url: None,
                }),
                webp: Some(ImageUrls {
                    image_url: Some("https://img/c.webp".to_string()),
                    small_image_url: None,
                    large_image_url: None,
                }),
            }),
        },
        pagination: Some(Pagination {
            last_visible_page: 3,
            has_next_page: true,
            current_page: None,
            items: Some(PaginationItems { count: 25, total: 60, per_page: 25 }),
        }),
    };
    assert_eq!(read_answer(&GetUserFull { username: name("carol") }, &answered(200, body)), Ok(expected.clone()));
    assert_eq!(read_answer(&GetUser { username: name("carol") }, &answered(200, body)), Ok(expected));
}

#[test]
fn friends_are_read_in_order() {
    let body = r#"{"data":[
        {"username":"a","url":"u/a"},
        {"username":"b","url":"u/b","images":{}},
        {"username":"c","url":"u/c","images":null}
    ]}"#;
    let answer = read_answer(&GetUserFriends { username: name("x") }, &answered(200, body)).unwrap();
    let names: Vec<&str> = answer.data.iter().map(|user| user.username.as_str()).collect();
    assert_eq!(names, vec!["a", "b", "c"]);
    assert_eq!(answer.data[0].images, None);
    assert_eq!(answer.data[1].images, Some(Images { jpg: None, webp: None }));
    assert_eq!(answer.data[2].images, None);
}

#[test]
fn empty_list_is_a_success() {
    let answer = read_answer(&GetUsers, &answered(200, r#"{"data":[]}"#)).unwrap();
    assert_eq!(answer, UserVectorResponse { data: vec![], pagination: None });
}

#[test]
fn review_author_needs_images() {
    let endpoint = GetUserReviews { username: name("x") };
    let with = r#"{"data":[{"url":"u","username":"n","images":{"jpg":{"image_url":"j"}}}]}"#;
    let answer = read_answer(&endpoint, &answered(200, with)).unwrap();
    assert_eq!(
        answer.data,
        vec![ReviewUser {
            url: "u".to_string(),
            username: "n".to_string(),
            images: Images {
                jpg: Some(ImageUrls {
                    image_url: Some("j".to_string()),
                    small_image_url: None,
                    large_image_url: None,
                }),
                webp: None,
            },
        }]
    );
    let null = r#"{"data":[{"url":"u","username":"n","images":null}]}"#;
    assert_eq!(read_answer(&endpoint, &answered(200, null)), Err(JikanError::Deserialize));
    let missing = r#"{"data":[{"url":"u","username":"n"}]}"#;
    assert_eq!(read_answer(&endpoint, &answered(200, missing)), Err(JikanError::Deserialize));
}

#[test]
fn history_entry_keeps_what_is_optional_apart() {
    let body = r#"{"data":[
        {"user":{"username":"n","url":"u"},"score":7,"status":"Reading",
         "chapters_read":12,"chapters_total":null,"date":"2024-05-01T00:00:00+00:00"},
        {"user":{"username":"m","url":"v"},"status":"Completed","date":"d"}
    ]}"#;
    let answer = read_answer(&GetUserHistory { username: name("n") }, &answered(200, body)).unwrap();
    assert_eq!(
        answer.data,
        vec![
            UserUpdate {
                user: User { username: "n".to_string(), url: "u".to_string(), images: None },
                score: Some(7),
                status: "Reading".to_string(),
                chapters_read: Some(12),
                chapters_total: None,
                date: "2024-05-01T00:00:00+00:00".to_string(),
            },
            UserUpdate {
                user: User { username: "m".to_string(), url: "v".to_string(), images: None },
                score: None,
                status: "Completed".to_string(),
                chapters_read: None,
                chapters_total: None,
                date: "d".to_string(),
            },
        ]
    );
}

fn number(text: &str) -> Number {
    Number { text: text.to_string() }
}

#[test]
fn statistics_keep_the_text_of_their_numbers() {
    let body = r#"{"data":{
        "anime":{"days_watched":12.5,"mean_score":7.25,"watching":1,"completed":2,"on_hold":3,
                 "dropped":4,"plan_to_watch":5,"total_entries":15,"rewatched":6,"episodes_watched":700},
        "manga":{"days_read":3,"mean_score":0.0,"reading":7,"completed":8,"on_hold":9,
                 "dropped":10,"plan_to_read":11,"total_entries":45,"reread":12,"chapters_read":13,
                 "volumes_read":14}
    }}"#;
    let answer = read_answer(&GetUserStats { username: name("n") }, &answered(200, body)).unwrap();
    assert_eq!(
        answer,
        UserStatsResponse {
            data: UserStats {
                anime: UserAnimeInfo {
                    days_watched: number("12.5"),
                    mean_score: number("7.25"),
                    watching: 1,
                    completed: 2,
                    on_hold: 3,
                    dropped: 4,
                    plan_to_watch: 5,
                    total_entries: 15,
                    rewatched: 6,
                    episodes_watched: 700,
                },
                manga: UserMangaInfo {
                    days_read: number("3"),
                    mean_score: number("0.0"),
                    reading: 7,
                    completed: 8,
                    on_hold: 9,
                    dropped: 10,
                    plan_to_read: 11,
                    total_entries: 45,
                    reread: 12,
                    chapters_read: 13,
                    volumes_read: 14,
                },
            },
            pagination: None,
        }
    );
}

#[test]
fn statistics_refuse_a_count_that_is_not_whole() {
    let body = r#"{"data":{
        "anime":{"days_watched":12.5,"mean_score":7.25,"watching":1.5,"completed":2,"on_hold":3,
                 "dropped":4,"plan_to_watch":5,"total_entries":15,"rewatched":6,"episodes_watched":700},
        "manga":{"days_read":3,"mean_score":0.0,"reading":7,"completed":8,"on_hold":9,
                 "dropped":10,"plan_to_read":11,"total_entries":45,"reread":12,"chapters_read":13,
                 "volumes_read":14}
    }}"#;
    assert_eq!(
        read_answer(&GetUserStats { username: name("n") }, &answered(200, body)),
        Err(JikanError::Deserialize)
    );
}

#[test]
fn favorites_hand_on_any_payload() {
    let endpoint = GetUserFavorites { username: name("n") };
    let object = r#"{"data":{"anime":[{"mal_id":1,"title":"t"}],"people":[]}}"#;
    assert_eq!(
        read_answer(&endpoint, &answered(200, object)).unwrap().data,
        Json::Object(vec![
            (
                "anime".to_string(),
                Json::Array(vec![Json::Object(vec![
                    ("mal_id".to_string(), Json::Number("1".to_string())),
                    ("title".to_string(), Json::String("t".to_string())),
                ])]),
            ),
            ("people".to_string(), Json::Array(vec![])),
        ])
    );
    let array = r#"{"data":[1,"two",false,null]}"#;
    assert_eq!(
        read_answer(&endpoint, &answered(200, array)).unwrap().data,
        Json::Array(vec![
            Json::Number("1".to_string()),
            Json::String("two".to_string()),
            Json::Bool(false),
            Json::Null,
        ])
    );
    let text = r#"{"data":"plain"}"#;
    assert_eq!(read_answer(&endpoint, &answered(200, text)).unwrap().data, Json::String("plain".to_string()));
    let null = r#"{"data":null}"#;
    assert_eq!(read_answer(&endpoint, &answered(200, null)).unwrap().data, Json::Null);
}

#[test]
fn favorites_still_need_their_envelope() {
    let endpoint = GetUserFavorites { username: name("n") };
    assert_eq!(read_answer(&endpoint, &answered(200, r#"{"other":1}"#)), Err(JikanError::Deserialize));
    assert_eq!(read_answer(&endpoint, &answered(200, r#"[1,2]"#)), Err(JikanError::Deserialize));
    assert_eq!(
        read_answer(&endpoint, &answered(200, r#"{"data":1,"pagination":"no"}"#)),
        Err(JikanError::Deserialize)
    );
}

#[test]
fn status_outside_2xx_is_an_error_for_every_endpoint() {
    let body = r#"{"data":{"url":"https://x/5","username":"bob"}}"#;
    for status in [0u16, 100, 199, 300, 301, 400, 404, 429, 500, 503, 65535] {
        let reply = answered(status, body);
        assert_eq!(read_answer(&GetUserFull { username: name("n") }, &reply), Err(JikanError::Status(status)));
        assert_eq!(read_answer(&GetUser { username: name("n") }, &reply), Err(JikanError::Status(status)));
        assert_eq!(read_answer(&GetUsers, &reply), Err(JikanError::Status(status)));
        assert_eq!(read_answer(&GetUserById { id: 5 }, &reply), Err(JikanError::Status(status)));
        assert_eq!(read_answer(&GetUserStats { username: name("n") }, &reply), Err(JikanError::Status(status)));
        assert_eq!(read_answer(&GetUserFriends { username: name("n") }, &reply), Err(JikanError::Status(status)));
        assert_eq!(read_answer(&GetUserReviews { username: name("n") }, &reply), Err(JikanError::Status(status)));
        assert_eq!(read_answer(&GetUserHistory { username: name("n") }, &reply), Err(JikanError::Status(status)));
        assert_eq!(read_answer(&GetUserFavorites { username: name("n") }, &reply), Err(JikanError::Status(status)));
    }
}

#[test]
fn every_status_from_200_to_299_is_a_success() {
    let body = r#"{"data":{"url":"https://x/5","username":"bob"}}"#;
    for status in 200u16..=299 {
        assert!(status_is_success(status));
        assert!(read_answer(&GetUserById { id: 5 }, &answered(status, body)).is_ok());
    }
    assert!(!status_is_success(199));
    assert!(!status_is_success(300));
}

#[test]
fn malformed_json_is_a_deserialization_error_for_every_endpoint() {
    for body in ["", "{", "not json", r#"{"data":"#, r#"{"data":[]} trailing"#, "{'data':[]}"] {
        let reply = answered(200, body);
        assert_eq!(read_answer(&GetUserFull { username: name("n") }, &reply), Err(JikanError::Deserialize));
        assert_eq!(read_answer(&GetUser { username: name("n") }, &reply), Err(JikanError::Deserialize));
        assert_eq!(read_answer(&GetUsers, &reply), Err(JikanError::Deserialize));
        assert_eq!(read_answer(&GetUserById { id: 5 }, &reply), Err(JikanError::Deserialize));
        assert_eq!(read_answer(&GetUserStats { username: name("n") }, &reply), Err(JikanError::Deserialize));
        assert_eq!(read_answer(&GetUserFriends { username: name("n") }, &reply), Err(JikanError::Deserialize));
        assert_eq!(read_answer(&GetUserReviews { username: name("n") }, &reply), Err(JikanError::Deserialize));
        assert_eq!(read_answer(&GetUserHistory { username: name("n") }, &reply), Err(JikanError::Deserialize));
        assert_eq!(read_answer(&GetUserFavorites { username: name("n") }, &reply), Err(JikanError::Deserialize));
    }
}

#[test]
fn document_of_another_shape_is_a_deserialization_error() {
    let endpoint = GetUserById { id: 5 };
    for body in [
        r#"{}"#,
        r#"{"data":null}"#,
        r#"{"data":{"url":"u"}}"#,
        r#"{"data":{"url":"u","username":null}}"#,
        r#"{"data":{"url":"u","username":7}}"#,
        r#"{"data":["u","n"]}"#,
        r#"["u","n"]"#,
        r#"{"data":{"url":"u","username":"n"},"pagination":{"has_next_page":true}}"#,
        r#"{"data":{"url":"u","username":"n"},"pagination":{"last_visible_page":2147483648,"has_next_page":true}}"#,
        r#"{"data":{"url":"u","username":"n"},"pagination":{"last_visible_page":1.0,"has_next_page":true}}"#,
        r#"{"data":{"url":"u","username":"n"},"pagination":{"last_visible_page":1,"has_next_page":"yes"}}"#,
    ] {
        assert_eq!(read_answer(&endpoint, &answered(200, body)), Err(JikanError::Deserialize), "{}", body);
    }
}

#[test]
fn failed_request_is_a_network_error() {
    let reply = Reply::Failed { reason: "connection refused".to_string() };
    assert_eq!(
        read_answer(&GetUsers, &reply),
        Err(JikanError::Network("connection refused".to_string()))
    );
    assert_eq!(
        read_reply::<UserResponse<User>>(&reply),
        Err(JikanError::Network("connection refused".to_string()))
    );
}

#[test]
fn body_and_document_are_read_alike() {
    let body = r#"{"data":{"url":"https://x/5","username":"bob"}}"#;
    let expected = UserResponse {
        data: UserById { url: "https://x/5".to_string(), username: "bob".to_string() },
        pagination: None,
    };
    assert_eq!(read_body::<UserResponse<UserById>>(body), Ok(expected.clone()));
    let document = Json::parse(body).unwrap();
    assert_eq!(read_document::<UserResponse<UserById>>(&document), Ok(expected));
    assert_eq!(read_document::<UserResponse<UserById>>(&Json::Null), Err(JikanError::Deserialize));
}

#[test]
fn pagination_bounds_of_i32_are_read() {
    let body = r#"{"data":[],"pagination":{"last_visible_page":2147483647,"has_next_page":false,"current_page":-2147483648}}"#;
    let answer = read_answer(&GetUsers, &answered(200, body)).unwrap();
    assert_eq!(
        answer.pagination,
        Some(Pagination {
            last_visible_page: 2147483647,
            has_next_page: false,
            current_page: Some(-2147483648),
            items: None,
        })
    );
}

#[test]
fn every_error_says_what_went_wrong() {
    assert_eq!(
        JikanError::Network("timed out".to_string()).message(),
        "request failed: timed out"
    );
    assert_eq!(JikanError::Network(String::new()).message(), "request failed: ");
    assert_eq!(JikanError::Status(404).message(), "unexpected status 404");
    assert_eq!(JikanError::Status(0).message(), "unexpected status 0");
    assert_eq!(JikanError::Status(65535).message(), "unexpected status 65535");
    assert_eq!(JikanError::Deserialize.message(), "the body does not have the expected shape");
}
