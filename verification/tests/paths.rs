use jikan_users::decimal::{format_i32, parse_i32};
use jikan_users::endpoints::{
    request_url, Endpoint, GetUser, GetUserById, GetUserFavorites, GetUserFriends, GetUserFull, GetUserHistory,
    GetUserReviews, GetUserStats, GetUsers,
};

fn name(username: &str) -> String {
    username.to_string()
}

#[test]
fn every_endpoint_writes_its_path() {
    assert_eq!(GetUserFull { username: name("alice") }.path(), "/users/alice/full");
    assert_eq!(GetUser { username: name("alice") }.path(), "/users/alice");
    assert_eq!(GetUsers.path(), "/users/");
    assert_eq!(GetUserById { id: 5 }.path(), "/users/userbyid/5");
    assert_eq!(GetUserStats { username: name("alice") }.path(), "/users/alice/statistics");
    assert_eq!(GetUserFriends { username: name("alice") }.path(), "/users/alice/friends");
    assert_eq!(GetUserReviews { username: name("alice") }.path(), "/users/alice/reviews");
    assert_eq!(GetUserHistory { username: name("alice") }.path(), "/users/alice/history");
    assert_eq!(GetUserFavorites { username: name("alice") }.path(), "/users/alice/favorites");
}

#[test]
fn username_goes_into_the_path_as_it_is() {
    assert_eq!(GetUser { username: name("") }.path(), "/users/");
    assert_eq!(GetUserFull { username: name("") }.path(), "/users//full");
    assert_eq!(GetUser { username: name("a b/c?d") }.path(), "/users/a b/c?d");
    assert_eq!(GetUserFriends { username: name("ユーザー") }.path(), "/users/ユーザー/friends");
}

#[test]
fn identifier_is_written_in_decimal() {
    assert_eq!(GetUserById { id: 0 }.path(), "/users/userbyid/0");
    assert_eq!(GetUserById { id: 1234567 }.path(), "/users/userbyid/1234567");
    assert_eq!(GetUserById { id: -42 }.path(), "/users/userbyid/-42");
    assert_eq!(GetUserById { id: i32::MAX }.path(), "/users/userbyid/2147483647");
    assert_eq!(GetUserById { id: i32::MIN }.path(), "/users/userbyid/-2147483648");
}

#[test]
fn format_i32_writes_exact_text() {
    assert_eq!(format_i32(0), "0");
    assert_eq!(format_i32(7), "7");
    assert_eq!(format_i32(10), "10");
    assert_eq!(format_i32(909), "909");
    assert_eq!(format_i32(-1), "-1");
    assert_eq!(format_i32(-100), "-100");
    assert_eq!(format_i32(i32::MAX), "2147483647");
    assert_eq!(format_i32(i32::MIN), "-2147483648");
}

#[test]
fn format_i32_agrees_with_std() {
    for value in [0, 1, 9, 10, 11, 99, 100, 101, 65535, 65536, 1000000, -1, -9, -10, -99999] {
        assert_eq!(format_i32(value), value.to_string());
    }
}

#[test]
fn parse_i32_reads_whole_numbers_in_range() {
    assert_eq!(parse_i32("0"), Some(0));
    assert_eq!(parse_i32("-0"), Some(0));
    assert_eq!(parse_i32("7"), Some(7));
    assert_eq!(parse_i32("007"), Some(7));
    assert_eq!(parse_i32("-15"), Some(-15));
    assert_eq!(parse_i32("2147483647"), Some(i32::MAX));
    assert_eq!(parse_i32("-2147483648"), Some(i32::MIN));
    assert_eq!(parse_i32("0000000000000000000000000000002147483647"), Some(i32::MAX));
}

#[test]
fn parse_i32_refuses_what_is_out_of_range() {
    assert_eq!(parse_i32("2147483648"), None);
    assert_eq!(parse_i32("-2147483649"), None);
    assert_eq!(parse_i32("4294967296"), None);
    assert_eq!(parse_i32("18446744073709551615"), None);
    assert_eq!(parse_i32("99999999999999999999999999999999999999999"), None);
    assert_eq!(parse_i32("-99999999999999999999999999999999999999999"), None);
}

#[test]
fn parse_i32_refuses_what_is_no_whole_number() {
    for text in ["", "-", "+1", "1.0", "1e3", " 1", "1 ", "--1", "1-", "0x10", "１２", "1_000", "-1.5"] {
        assert_eq!(parse_i32(text), None, "{:?}", text);
    }
}

#[test]
fn parse_i32_reads_back_what_format_i32_wrote() {
    for value in [0, 1, -1, 10, -10, 12345, -12345, i32::MAX, i32::MIN, i32::MAX - 1, i32::MIN + 1] {
        assert_eq!(parse_i32(&format_i32(value)), Some(value));
    }
}

#[test]
fn request_url_puts_the_path_behind_the_base() {
    assert_eq!(
        request_url("https://api.jikan.moe/v4", &GetUser { username: name("alice") }),
        "https://api.jikan.moe/v4/users/alice"
    );
    assert_eq!(request_url("", &GetUsers), "/users/");
    assert_eq!(request_url("http://localhost:8080", &GetUserById { id: -3 }), "http://localhost:8080/users/userbyid/-3");
}
