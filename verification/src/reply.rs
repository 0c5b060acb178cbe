//! The replies that the handlers send.

use vstd::prelude::*;
use crate::models::{Mahasiswa, ResponseLoginUser, ResponseModel, ResponseUser};

verus! {

/// 200 OK.
pub const OK: u16 = 200;
/// 400 Bad Request.
pub const BAD_REQUEST: u16 = 400;
/// 401 Unauthorized.
pub const UNAUTHORIZED: u16 = 401;
/// 404 Not Found.
pub const NOT_FOUND: u16 = 404;
/// 500 Internal Server Error.
pub const INTERNAL_SERVER_ERROR: u16 = 500;

/// What a reply carries.
#[derive(Debug, Clone, PartialEq, Eq)]
pub enum Body {
    /// No body at all.
    Empty,
    /// A plain-text body.
    Text(String),
    /// The JSON object `{"status": <word>}`.
    Status(String),
    /// A registered user as JSON.
    User(ResponseUser),
    /// The envelope of a login as JSON.
    Login(ResponseModel<ResponseLoginUser>),
    /// The envelope of a student listing as JSON.
    Students(ResponseModel<Vec<Mahasiswa>>),
}

/// An HTTP status code and a body.
#[derive(Debug, Clone, PartialEq, Eq)]
pub struct Reply {
    pub status: u16,
    pub body: Body,
}

/// The reply is `status` with the plain text `text`.
pub open spec fn is_text_reply(r: Reply, status: u16, text: Seq<char>) -> bool {
    &&& r.status == status
    &&& r.body matches Body::Text(t) && t@ == text
}

/// The reply is `status` with the JSON object `{"status": word}`.
pub open spec fn is_status_reply(r: Reply, status: u16, word: Seq<char>) -> bool {
    &&& r.status == status
    &&& r.body matches Body::Status(t) && t@ == word
}

/// A plain-text reply.
pub fn text_reply(status: u16, text: &str) -> (r: Reply)
    ensures
        is_text_reply(r, status, text@),
{
    Reply { status, body: Body::Text(String::from_str(text)) }
}

/// A `{"status": word}` reply.
pub fn status_reply(status: u16, word: &str) -> (r: Reply)
    ensures
        is_status_reply(r, status, word@),
{
    Reply { status, body: Body::Status(String::from_str(word)) }
}

} // verus!
