//! The requests of the users section: for each, the path it is sent to and
//! the shape of the answer.

use crate::client::{outcome_view, read_reply, reply_outcome, JikanError, Reply};
use crate::decimal::{format_i32, integer_text};
use crate::decode::FromJson;
use crate::json::Json;
use crate::users::{
    ReviewUser, User, UserById, UserResponse, UserStatsResponse, UserUpdate, UserVectorResponse,
};
use vstd::prelude::*;
use vstd::string::*;

verus! {

/// A request that the service answers with a JSON body of a known shape.
pub trait Endpoint {
    /// The shape of the answer.
    type Answer: FromJson;

    /// The path of the request below the address of the service.
    spec fn path_text(&self) -> Seq<char>;

    /// Writes the path of the request.
    fn path(&self) -> (r: String)
        ensures
            r@ == self.path_text(),
    ;
}

/// Writes the address of a request: the address of the service, then the path.
pub fn request_url<E: Endpoint>(base: &str, endpoint: &E) -> (r: String)
    ensures
        r@ == base@ + endpoint.path_text(),
{
    let mut url = String::from_str(base);
    let path = endpoint.path();
    url.append(path.as_str());
    url
}

/// Reads the reply to a request as the answer that the request asks for.
pub fn read_answer<E: Endpoint>(endpoint: &E, reply: &Reply) -> (r: Result<E::Answer, JikanError>)
    ensures
        outcome_view(r) == reply_outcome::<E::Answer>(reply.deep_view()),
{
    read_reply::<E::Answer>(reply)
}

/// A user's profile with everything the service knows.
#[derive(Debug, Clone, PartialEq, Eq)]
pub struct GetUserFull {
    pub username: String,
}

impl Endpoint for GetUserFull {
    type Answer = UserResponse<User>;

    open spec fn path_text(&self) -> Seq<char> {
        "/users/"@ + self.username@ + "/full"@
    }

    fn path(&self) -> (r: String) {
        let mut path = String::from_str("/users/");
        path.append(self.username.as_str());
        path.append("/full");
        path
    }
}

/// A user's profile.
#[derive(Debug, Clone, PartialEq, Eq)]
pub struct GetUser {
    pub username: String,
}

impl Endpoint for GetUser {
    type Answer = UserResponse<User>;

    open spec fn path_text(&self) -> Seq<char> {
        "/users/"@ + self.username@
    }

    fn path(&self) -> (r: String) {
        let mut path = String::from_str("/users/");
        path.append(self.username.as_str());
        path
    }
}

/// A user's statistics.
#[derive(Debug, Clone, PartialEq, Eq)]
pub struct GetUserStats {
    pub username: String,
}

impl Endpoint for GetUserStats {
    type Answer = UserStatsResponse;

    open spec fn path_text(&self) -> Seq<char> {
        "/users/"@ + self.username@ + "/statistics"@
    }

    fn path(&self) -> (r: String) {
        let mut path = String::from_str("/users/");
        path.append(self.username.as_str());
        path.append("/statistics");
        path
    }
}

/// A user's friends.
#[derive(Debug, Clone, PartialEq, Eq)]
pub struct GetUserFriends {
    pub username: String,
}

impl Endpoint for GetUserFriends {
    type Answer = UserVectorResponse<User>;

    open spec fn path_text(&self) -> Seq<char> {
        "/users/"@ + self.username@ + "/friends"@
    }

    fn path(&self) -> (r: String) {
        let mut path = String::from_str("/users/");
        path.append(self.username.as_str());
        path.append("/friends");
        path
    }
}

/// The reviews a user wrote.
#[derive(Debug, Clone, PartialEq, Eq)]
pub struct GetUserReviews {
    pub username: String,
}

impl Endpoint for GetUserReviews {
    type Answer = UserVectorResponse<ReviewUser>;

    open spec fn path_text(&self) -> Seq<char> {
        "/users/"@ + self.username@ + "/reviews"@
    }

    fn path(&self) -> (r: String) {
        let mut path = String::from_str("/users/");
        path.append(self.username.as_str());
        path.append("/reviews");
        path
    }
}

/// A user's list history.
#[derive(Debug, Clone, PartialEq, Eq)]
pub struct GetUserHistory {
    pub username: String,
}

impl Endpoint for GetUserHistory {
    type Answer = UserVectorResponse<UserUpdate>;

    open spec fn path_text(&self) -> Seq<char> {
        "/users/"@ + self.username@ + "/history"@
    }

    fn path(&self) -> (r: String) {
        let mut path = String::from_str("/users/");
        path.append(self.username.as_str());
        path.append("/history");
        path
    }
}

/// A user's favorites; the payload has no fixed shape and is kept as it came.
#[derive(Debug, Clone, PartialEq, Eq)]
pub struct GetUserFavorites {
    pub username: String,
}

impl Endpoint for GetUserFavorites {
    type Answer = UserResponse<Json>;

    open spec fn path_text(&self) -> Seq<char> {
        "/users/"@ + self.username@ + "/favorites"@
    }

    fn path(&self) -> (r: String) {
        let mut path = String::from_str("/users/");
        path.append(self.username.as_str());
        path.append("/favorites");
        path
    }
}

/// Every user, page by page.
#[derive(Debug, Clone, PartialEq, Eq)]
pub struct GetUsers;

impl Endpoint for GetUsers {
    type Answer = UserVectorResponse<User>;

    open spec fn path_text(&self) -> Seq<char> {
        "/users/"@
    }

    fn path(&self) -> (r: String) {
        String::from_str("/users/")
    }
}

/// The user behind a numeric identifier.
#[derive(Debug, Clone, PartialEq, Eq)]
pub struct GetUserById {
    pub id: i32,
}

impl Endpoint for GetUserById {
    type Answer = UserResponse<UserById>;

    open spec fn path_text(&self) -> Seq<char> {
        "/users/userbyid/"@ + integer_text(self.id as int)
    }

    fn path(&self) -> (r: String) {
        let mut path = String::from_str("/users/userbyid/");
        let id = format_i32(self.id);
        path.append(id.as_str());
        path
    }
}

} // verus!
