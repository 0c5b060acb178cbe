//! The protocol between a handler's state machine and the application that
//! performs its operations.
//!
//! A handler is started with the request's values and answers with an
//! [`Action`]. The application performs the action and hands the outcome
//! back as an [`Event`], until the action is [`Action::Respond`] (or
//! [`Action::Admit`] for the authentication guard).

use vstd::prelude::*;
use crate::models::{CredentialRow, ResponseLoginUser, StudentRow};
use crate::reply::Reply;

verus! {

/// A parameter bound to a `?` of an SQL statement.
#[derive(Debug, Clone, PartialEq, Eq)]
pub enum SqlParam {
    Int(i32),
    Text(String),
}

/// Which columns a query's rows are read as.
#[derive(Debug, Clone, Copy, PartialEq, Eq)]
pub enum RowShape {
    /// Columns 0 to 3: id, name, date of birth (days after 1970-01-01), user id.
    Students,
    /// Columns 0 to 2: id, password hash, username.
    Credentials,
    /// Column 0 is the id, column 1 the username, and the token is read
    /// from column `token_column`.
    SessionUsers { token_column: usize },
}

/// An operation that a handler asks the application to perform.
#[derive(Debug, Clone, PartialEq, Eq)]
pub enum Action {
    /// Take the lock of the shared database connection, and hold it until
    /// the handler ends.
    Lock,
    /// Prepare `sql` and execute it with `params`.
    Execute { sql: String, params: Vec<SqlParam> },
    /// Prepare `sql` and run it as a query with `params`, reading every row
    /// in the given shape.
    Query { sql: String, params: Vec<SqlParam>, shape: RowShape },
    /// Tell whether the directory `path` exists.
    DirExists { path: String },
    /// Create the directory `path` and its parents; failures are ignored.
    CreateDirAll { path: String },
    /// Move a file; failures are ignored.
    Rename { from: String, to: String },
    /// Issue an access token and a refresh token.
    IssueTokens,
    /// Tell whether an object-storage bucket exists.
    BucketExists { bucket: String },
    /// Create an object-storage bucket.
    MakeBucket { bucket: String },
    /// Upload the local file `filename` as `object` into `bucket`.
    UploadObject { bucket: String, object: String, filename: String },
    /// Let the request through, with the authenticated user attached.
    Admit(ResponseLoginUser),
    /// Send this reply; the handler is done.
    Respond(Reply),
}

/// What performing an [`Action`] gave. Error texts are those of the
/// failing library.
#[derive(Debug, PartialEq, Eq)]
pub enum Event {
    /// The lock was taken, or it is poisoned (with the error's text).
    Locked(Result<(), String>),
    /// The statement changed this many rows, or preparing or running it failed.
    Executed(Result<usize, String>),
    /// The rows of a `Students` query, or the failure of the query.
    Students(Result<Vec<Result<StudentRow, String>>, String>),
    /// The rows of a `Credentials` query, or the failure of the query.
    Credentials(Result<Vec<Result<CredentialRow, String>>, String>),
    /// The rows of a `SessionUsers` query, or the failure of the query.
    SessionUsers(Result<Vec<Result<ResponseLoginUser, String>>, String>),
    /// Whether the directory exists.
    DirChecked(bool),
    /// A file-system operation whose outcome is ignored was performed.
    FsDone,
    /// The issued tokens.
    Tokens { access: String, refresh: String },
    /// Whether the bucket exists, or the failure of the check.
    BucketChecked(Result<bool, String>),
    /// The bucket was created, or the failure.
    BucketMade(Result<(), String>),
    /// The file was uploaded, or the failure (reading the file or sending it).
    Uploaded(Result<(), String>),
}

/// `event` is the kind of outcome that performing `action` gives.
pub open spec fn answers(action: Action, event: Event) -> bool {
    match action {
        Action::Lock => event is Locked,
        Action::Execute { .. } => event is Executed,
        Action::Query { shape, .. } => match shape {
            RowShape::Students => event is Students,
            RowShape::Credentials => event is Credentials,
            RowShape::SessionUsers { .. } => event is SessionUsers,
        },
        Action::DirExists { .. } => event is DirChecked,
        Action::CreateDirAll { .. } => event is FsDone,
        Action::Rename { .. } => event is FsDone,
        Action::IssueTokens => event is Tokens,
        Action::BucketExists { .. } => event is BucketChecked,
        Action::MakeBucket { .. } => event is BucketMade,
        Action::UploadObject { .. } => event is Uploaded,
        Action::Admit(_) => false,
        Action::Respond(_) => false,
    }
}

/// Whether `event` is the kind of outcome that performing `action` gives.
pub fn is_answer(action: &Action, event: &Event) -> (b: bool)
    ensures
        b == answers(*action, *event),
{
    match action {
        Action::Lock => matches!(event, Event::Locked(_)),
        Action::Execute { .. } => matches!(event, Event::Executed(_)),
        Action::Query { shape, .. } => match shape {
            RowShape::Students => matches!(event, Event::Students(_)),
            RowShape::Credentials => matches!(event, Event::Credentials(_)),
            RowShape::SessionUsers { .. } => matches!(event, Event::SessionUsers(_)),
        },
        Action::DirExists { .. } => matches!(event, Event::DirChecked(_)),
        Action::CreateDirAll { .. } => matches!(event, Event::FsDone),
        Action::Rename { .. } => matches!(event, Event::FsDone),
        Action::IssueTokens => matches!(event, Event::Tokens { .. }),
        Action::BucketExists { .. } => matches!(event, Event::BucketChecked(_)),
        Action::MakeBucket { .. } => matches!(event, Event::BucketMade(_)),
        Action::UploadObject { .. } => matches!(event, Event::Uploaded(_)),
        Action::Admit(_) => false,
        Action::Respond(_) => false,
    }
}

} // verus!
