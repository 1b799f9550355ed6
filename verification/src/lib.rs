//! Verified core of a client for the users section of the Jikan REST API:
//! request paths, the JSON shapes of the replies, and the rules that turn a
//! reply into a typed record or an error.

pub mod client;
pub mod common;
pub mod decimal;
pub mod decode;
pub mod encode;
pub mod endpoints;
pub mod json;
pub mod laws;
pub mod reader;
pub mod users;
