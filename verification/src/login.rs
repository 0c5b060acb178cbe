//! The login handler.

use vstd::prelude::*;
use crate::flow::{Action, Event, RowShape, SqlParam};
use crate::models::{CredentialRow, ReqLogin, ResponseLoginUser, ResponseModel};
use crate::passwords::{password_check, verify_password};
use crate::reply::{
    Body, Reply, INTERNAL_SERVER_ERROR, NOT_FOUND, OK, UNAUTHORIZED, is_text_reply, text_reply,
};

verus! {

/// Every credential row before position `n` was read.
pub open spec fn credentials_read_before(rows: Seq<Result<CredentialRow, String>>, n: int) -> bool {
    forall|j: int| 0 <= j < n ==> (#[trigger] rows[j]) is Ok
}

/// What the lookup of the credential rows gives: the error of the first
/// row that could not be read, or the last row, or (with no row) the row
/// with id 0 and an empty password and name.
pub open spec fn credentials_of(
    rows: Seq<Result<CredentialRow, String>>,
    picked: Result<CredentialRow, String>,
) -> bool {
    match picked {
        Ok(u) => {
            &&& credentials_read_before(rows, rows.len() as int)
            &&& if rows.len() == 0 {
                u.id == 0 && u.password@.len() == 0 && u.username@.len() == 0
            } else {
                u == rows.last()->Ok_0
            }
        },
        Err(e) => exists|i: int|
            0 <= i < rows.len() && credentials_read_before(rows, i) && #[trigger] rows[i] == Err::<
                CredentialRow,
                String,
            >(e),
    }
}

fn copy_credentials(u: &CredentialRow) -> (c: CredentialRow)
    ensures
        c == *u,
{
    CredentialRow { id: u.id, password: u.password.clone(), username: u.username.clone() }
}

/// Picks the user row of a login among the rows that the user query returned.
pub fn pick_credentials(rows: &Vec<Result<CredentialRow, String>>) -> (picked: Result<
    CredentialRow,
    String,
>)
    ensures
        credentials_of(rows@, picked),
{
    let mut result_user = CredentialRow { id: 0, password: String::new(), username: String::new() };
    let mut i: usize = 0;
    while i < rows.len()
        invariant
            i <= rows@.len(),
            credentials_read_before(rows@, i as int),
            i == 0 ==> result_user.id == 0 && result_user.password@.len() == 0
                && result_user.username@.len() == 0,
            i > 0 ==> result_user == rows@[i - 1]->Ok_0,
        decreases rows@.len() - i,
    {
        match &rows[i] {
            Ok(res) => {
                result_user = copy_credentials(res);
            },
            Err(e) => {
                return Err(e.clone());
            },
        }
        i = i + 1;
    }
    Ok(result_user)
}

/// The last session row that could be read, if any.
pub open spec fn last_session(rows: Seq<Result<ResponseLoginUser, String>>) -> Option<
    ResponseLoginUser,
>
    decreases rows.len(),
{
    if rows.len() == 0 {
        None
    } else if rows.last() is Ok {
        Some(rows.last()->Ok_0)
    } else {
        last_session(rows.drop_last())
    }
}

fn copy_session(u: &ResponseLoginUser) -> (c: ResponseLoginUser)
    ensures
        c == *u,
{
    ResponseLoginUser { id: u.id, username: u.username.clone(), token: u.token.clone() }
}

/// Picks the session to report among the rows that the session query
/// returned: the last one that could be read; rows that could not be read
/// are skipped.
pub fn pick_session(rows: &Vec<Result<ResponseLoginUser, String>>) -> (picked: Option<
    ResponseLoginUser,
>)
    ensures
        picked == last_session(rows@),
{
    let mut picked: Option<ResponseLoginUser> = None;
    let mut i: usize = 0;
    while i < rows.len()
        invariant
            i <= rows@.len(),
            picked == last_session(rows@.take(i as int)),
        decreases rows@.len() - i,
    {
        assert(rows@.take(i + 1).drop_last() =~= rows@.take(i as int));
        match &rows[i] {
            Ok(user) => {
                picked = Some(copy_session(user));
            },
            Err(_) => {},
        }
        i = i + 1;
    }
    assert(rows@.take(rows@.len() as int) =~= rows@);
    picked
}

/// The reply of a login that reached its session query: 200 with the
/// session in a "Sukses" envelope, or 404 with an empty "Gagal" envelope.
pub open spec fn is_session_reply(r: Reply, session: Option<ResponseLoginUser>) -> bool {
    match session {
        Some(u) => {
            &&& r.status == OK
            &&& r.body matches Body::Login(m) && m.kode == 200 && m.status@ == "Sukses"@ && m.data
                == Some(u)
        },
        None => {
            &&& r.status == NOT_FOUND
            &&& r.body matches Body::Login(m) && m.kode == 404 && m.status@ == "Gagal"@ && m.data
                is None
        },
    }
}

fn session_reply(session: Option<ResponseLoginUser>) -> (r: Reply)
    ensures
        is_session_reply(r, session),
{
    match session {
        Some(user) => Reply {
            status: OK,
            body: Body::Login(
                ResponseModel { kode: 200, status: String::from_str("Sukses"), data: Some(user) },
            ),
        },
        None => Reply {
            status: NOT_FOUND,
            body: Body::Login(
                ResponseModel { kode: 404, status: String::from_str("Gagal"), data: None },
            ),
        },
    }
}

/// Where a login stands.
#[derive(Debug)]
pub enum LoginStage {
    AwaitLock,
    AwaitUser,
    /// The password was accepted for `user`.
    AwaitTokens { user: CredentialRow },
    AwaitInsert,
    AwaitSession,
    Done,
}

/// One login.
pub struct LoginFlow {
    pub request: ReqLogin,
    pub stage: LoginStage,
    /// The stored hash that the request's password was accepted against.
    pub accepted_hash: Ghost<Seq<char>>,
}

/// The reply 401 "Password atau username salah".
pub open spec fn is_wrong_credentials(action: Action) -> bool {
    action matches Action::Respond(r) && is_text_reply(
        r,
        UNAUTHORIZED,
        "Password atau username salah"@,
    )
}

/// A 500 with `text`.
pub open spec fn is_failure(action: Action, text: Seq<char>) -> bool {
    action matches Action::Respond(r) && is_text_reply(r, INTERNAL_SERVER_ERROR, text)
}

/// What a login decides once its user row is known: refuse an empty
/// password (no such user) or a password that bcrypt rejects with 401,
/// answer a hash that bcrypt cannot read with 500, and otherwise issue
/// tokens.
pub open spec fn decides_on_user(
    password: Seq<char>,
    user: CredentialRow,
    action: Action,
) -> bool {
    if user.password@.len() == 0 {
        is_wrong_credentials(action)
    } else {
        match password_check(password, user.password@) {
            Err(_) => is_failure(action, "500 Internal Server Error"@),
            Ok(false) => is_wrong_credentials(action),
            Ok(true) => action == Action::IssueTokens,
        }
    }
}

/// A user row whose stored hash is one that registration wrote for a
/// password (a 60-character hash that bcrypt accepts the password against)
/// lets a login with that password past the password check: the login
/// goes on to issue tokens.
pub proof fn lemma_registered_password_passes(password: Seq<char>, user: CredentialRow)
    requires
        password_check(password, user.password@) == Ok::<bool, u16>(true),
        user.password@.len() == 60,
    ensures
        decides_on_user(password, user, Action::IssueTokens),
{
}

impl LoginFlow {
    /// The login is consistent: a login past its password check holds the
    /// hash that the password was accepted against.
    pub open spec fn wf(self) -> bool {
        match self.stage {
            LoginStage::AwaitTokens { user } => {
                &&& self.accepted_hash@ == user.password@
                &&& password_check(self.request.password@, user.password@) == Ok::<bool, u16>(
                    true,
                )
            },
            LoginStage::AwaitInsert | LoginStage::AwaitSession => password_check(
                self.request.password@,
                self.accepted_hash@,
            ) == Ok::<bool, u16>(true),
            _ => true,
        }
    }

    /// `event` is the outcome the login waits for.
    pub open spec fn awaits(self, event: Event) -> bool {
        match self.stage {
            LoginStage::AwaitLock => event is Locked,
            LoginStage::AwaitUser => event is Credentials,
            LoginStage::AwaitTokens { .. } => event is Tokens,
            LoginStage::AwaitInsert => event is Executed,
            LoginStage::AwaitSession => event is SessionUsers,
            LoginStage::Done => false,
        }
    }

    /// How many outcomes the login can still wait for.
    pub open spec fn remaining(self) -> nat {
        match self.stage {
            LoginStage::AwaitLock => 5,
            LoginStage::AwaitUser => 4,
            LoginStage::AwaitTokens { .. } => 3,
            LoginStage::AwaitInsert => 2,
            LoginStage::AwaitSession => 1,
            LoginStage::Done => 0,
        }
    }

    /// Starts the login of `request`: first take the lock.
    pub fn login_user(request: ReqLogin) -> (started: (LoginFlow, Action))
        ensures
            started.0.request == request,
            started.0.stage is AwaitLock,
            started.0.wf(),
            started.1 == Action::Lock,
    {
        (
            LoginFlow { request, stage: LoginStage::AwaitLock, accepted_hash: Ghost(Seq::empty()) },
            Action::Lock,
        )
    }

    /// Takes the outcome of the last action and answers with the next one.
    /// A login is answered 200 only after bcrypt accepted the request's
    /// password against the hash stored for its user name.
    pub fn step(&mut self, event: Event) -> (action: Action)
        requires
            old(self).wf(),
            old(self).awaits(event),
        ensures
            final(self).wf(),
            final(self).request == old(self).request,
            action is Respond ==> final(self).stage is Done,
            !(action is Respond) ==> final(self).remaining() < old(self).remaining(),
            action matches Action::Respond(r) && r.status == OK ==> password_check(
                old(self).request.password@,
                old(self).accepted_hash@,
            ) == Ok::<bool, u16>(true),
            match (old(self).stage, event) {
                (_, Event::Locked(Err(_))) => is_failure(action, "Failed to lock connection"@),
                (_, Event::Locked(Ok(_))) => {
                    &&& action matches Action::Query { sql, params, shape } && sql@
                        == "SELECT id, password, username FROM user WHERE username = ?"@
                        && params@ == seq![SqlParam::Text(old(self).request.username)] && shape
                        == RowShape::Credentials
                    &&& final(self).stage is AwaitUser
                },
                (_, Event::Credentials(Err(e))) => is_failure(action, e@),
                (_, Event::Credentials(Ok(rows))) => exists|
                    picked: Result<CredentialRow, String>,
                | #[trigger] credentials_of(rows@, picked) && match picked {
                    Err(e) => action matches Action::Respond(r) && is_text_reply(
                        r,
                        UNAUTHORIZED,
                        e@,
                    ),
                    Ok(user) => {
                        &&& decides_on_user(old(self).request.password@, user, action)
                        &&& action is IssueTokens ==> final(self).stage == (LoginStage::AwaitTokens {
                            user,
                        })
                    },
                },
                (LoginStage::AwaitTokens { user }, Event::Tokens { access, refresh }) => {
                    &&& action matches Action::Execute { sql, params } && sql@
                        == "INSERT INTO token_user (id, id_user, username, access_token, refresh_token) VALUES (1, ?, ?, ?, ?)"@
                        && params@ == seq![
                        SqlParam::Int(user.id),
                        SqlParam::Text(user.username),
                        SqlParam::Text(access),
                        SqlParam::Text(refresh),
                    ]
                    &&& final(self).stage is AwaitInsert
                },
                (_, Event::Executed(Err(e))) => is_failure(action, e@),
                (_, Event::Executed(Ok(_))) => {
                    &&& action matches Action::Query { sql, params, shape } && sql@
                        == "SELECT id_user, username, access_token FROM token_user WHERE username =?"@
                        && params@ == seq![SqlParam::Text(old(self).request.username)] && shape
                        == (RowShape::SessionUsers { token_column: 2 })
                    &&& final(self).stage is AwaitSession
                },
                (_, Event::SessionUsers(Err(e))) => is_failure(action, e@),
                (_, Event::SessionUsers(Ok(rows))) => action matches Action::Respond(r)
                    && is_session_reply(r, last_session(rows@)),
                _ => false,
            },
    {
        let mut stage = LoginStage::Done;
        std::mem::swap(&mut stage, &mut self.stage);
        match event {
            Event::Locked(Err(_)) => {
                Action::Respond(text_reply(INTERNAL_SERVER_ERROR, "Failed to lock connection"))
            },
            Event::Locked(Ok(_)) => {
                self.stage = LoginStage::AwaitUser;
                let mut params: Vec<SqlParam> = Vec::new();
                params.push(SqlParam::Text(self.request.username.clone()));
                assert(params@ =~= seq![SqlParam::Text(self.request.username)]);
                Action::Query {
                    sql: String::from_str(
                        "SELECT id, password, username FROM user WHERE username = ?",
                    ),
                    params,
                    shape: RowShape::Credentials,
                }
            },
            Event::Credentials(Err(e)) => {
                Action::Respond(Reply { status: INTERNAL_SERVER_ERROR, body: crate::reply::Body::Text(e) })
            },
            Event::Credentials(Ok(rows)) => {
                let picked = pick_credentials(&rows);
                match picked {
                    Err(e) => Action::Respond(
                        Reply { status: UNAUTHORIZED, body: crate::reply::Body::Text(e) },
                    ),
                    Ok(user) => {
                        if user.password.as_str().is_empty() {
                            Action::Respond(text_reply(UNAUTHORIZED, "Password atau username salah"))
                        } else {
                            match verify_password(
                                self.request.password.clone(),
                                user.password.as_str(),
                            ) {
                                Err(_) => Action::Respond(
                                    text_reply(INTERNAL_SERVER_ERROR, "500 Internal Server Error"),
                                ),
                                Ok(false) => Action::Respond(
                                    text_reply(UNAUTHORIZED, "Password atau username salah"),
                                ),
                                Ok(true) => {
                                    self.accepted_hash = Ghost(user.password@);
                                    self.stage = LoginStage::AwaitTokens { user };
                                    Action::IssueTokens
                                },
                            }
                        }
                    },
                }
            },
            Event::Tokens { access, refresh } => {
                match stage {
                    LoginStage::AwaitTokens { user } => {
                        self.stage = LoginStage::AwaitInsert;
                        let mut params: Vec<SqlParam> = Vec::new();
                        params.push(SqlParam::Int(user.id));
                        params.push(SqlParam::Text(user.username));
                        params.push(SqlParam::Text(access));
                        params.push(SqlParam::Text(refresh));
                        Action::Execute {
                            sql: String::from_str(
                                "INSERT INTO token_user (id, id_user, username, access_token, refresh_token) VALUES (1, ?, ?, ?, ?)",
                            ),
                            params,
                        }
                    },
                    _ => Action::Respond(text_reply(INTERNAL_SERVER_ERROR, "Failed to lock connection")),
                }
            },
            Event::Executed(Err(e)) => {
                Action::Respond(Reply { status: INTERNAL_SERVER_ERROR, body: crate::reply::Body::Text(e) })
            },
            Event::Executed(Ok(_)) => {
                self.stage = LoginStage::AwaitSession;
                let mut params: Vec<SqlParam> = Vec::new();
                params.push(SqlParam::Text(self.request.username.clone()));
                assert(params@ =~= seq![SqlParam::Text(self.request.username)]);
                Action::Query {
                    sql: String::from_str(
                        "SELECT id_user, username, access_token FROM token_user WHERE username =?",
                    ),
                    params,
                    shape: RowShape::SessionUsers { token_column: 2 },
                }
            },
            Event::SessionUsers(Err(e)) => {
                Action::Respond(Reply { status: INTERNAL_SERVER_ERROR, body: crate::reply::Body::Text(e) })
            },
            Event::SessionUsers(Ok(rows)) => {
                Action::Respond(session_reply(pick_session(&rows)))
            },
            _ => Action::Respond(text_reply(INTERNAL_SERVER_ERROR, "Failed to lock connection")),
        }
    }
}

} // verus!
