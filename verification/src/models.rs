//! The records that the service reads from requests and writes into replies.

use vstd::prelude::*;

verus! {

/// A student record as it is listed to clients.
#[derive(Debug, Clone, PartialEq, Eq)]
pub struct Mahasiswa {
    pub id: i32,
    pub nama: String,
    /// Date of birth, `YYYY-MM-DD`.
    pub tgl_lahir: String,
    pub user_id: i32,
}

/// The body of a request that adds a student.
#[derive(Debug, Clone, PartialEq, Eq)]
pub struct CreateMahasiswa {
    pub id: i32,
    pub nama: String,
    pub tgl_lahir: String,
}

/// The body of a request that registers a user.
#[derive(Debug, Clone, PartialEq, Eq)]
pub struct ReqUser {
    pub id: i32,
    pub username: String,
    pub password: String,
}

/// The body of a login request.
#[derive(Debug, Clone, PartialEq, Eq)]
pub struct ReqLogin {
    pub username: String,
    pub password: String,
}

/// The envelope of a JSON reply: a code, a status word and an optional payload.
#[derive(Debug, Clone, PartialEq, Eq)]
pub struct ResponseModel<T> {
    pub kode: i32,
    pub status: String,
    pub data: Option<T>,
}

/// A registered user as it is echoed back after registration.
#[derive(Debug, Clone, PartialEq, Eq)]
pub struct ResponseUser {
    pub id: i32,
    pub username: String,
}

/// A logged-in user together with the access token of the session.
#[derive(Debug, Clone, PartialEq, Eq)]
pub struct ResponseLoginUser {
    pub id: i32,
    pub username: String,
    pub token: String,
}

/// A logged-in user with both tokens of the session.
#[derive(Debug, Clone, PartialEq, Eq)]
pub struct ResponseLoginRefUser {
    pub id: i32,
    pub username: String,
    pub token: String,
    pub refresh_token: String,
}

/// The reply to a file upload to object storage.
#[derive(Debug, Clone, PartialEq, Eq)]
pub struct FileUploadResponse {
    pub file_id: String,
    pub file_name: String,
    pub created_date: String,
}

/// The reply to a deletion in object storage.
#[derive(Debug, Clone, PartialEq, Eq)]
pub struct DeleteResponse {
    pub message: String,
}

/// A student row as the database stores it: the date of birth is a number
/// of days after 1970-01-01.
#[derive(Debug, Clone, PartialEq, Eq)]
pub struct StudentRow {
    pub id: i32,
    pub nama: String,
    pub tgl_lahir: i32,
    pub user_id: i32,
}

/// A user row as the login reads it: id, password hash and name.
#[derive(Debug, Clone, PartialEq, Eq)]
pub struct CredentialRow {
    pub id: i32,
    pub password: String,
    pub username: String,
}

} // verus!
