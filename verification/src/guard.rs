//! The authentication guard in front of the protected routes.

use vstd::prelude::*;
use crate::flow::{Action, Event, RowShape, SqlParam};
use crate::models::ResponseLoginUser;
use crate::reply::{
    BAD_REQUEST, INTERNAL_SERVER_ERROR, UNAUTHORIZED, is_text_reply, text_reply,
};

verus! {

/// Every row before position `n` was read and carries `token`.
pub open spec fn agrees_before(
    token: Seq<char>,
    rows: Seq<Result<ResponseLoginUser, String>>,
    n: int,
) -> bool {
    forall|j: int| 0 <= j < n ==> ((#[trigger] rows[j]) matches Ok(u) && u.token@ == token)
}

/// The user with id 0 and an empty name and token, which stands for "no user".
pub open spec fn is_nobody(u: ResponseLoginUser) -> bool {
    u.id == 0 && u.username@.len() == 0 && u.token@.len() == 0
}

/// What looking `token` up among the user rows gives: the first row that
/// could not be read is a 500 and the first row with another token a 401;
/// otherwise the last row, or nobody when there is none.
pub open spec fn token_lookup(
    token: Seq<char>,
    rows: Seq<Result<ResponseLoginUser, String>>,
    found: Result<ResponseLoginUser, u16>,
) -> bool {
    match found {
        Ok(u) => {
            &&& agrees_before(token, rows, rows.len() as int)
            &&& if rows.len() == 0 {
                is_nobody(u)
            } else {
                u == rows.last()->Ok_0
            }
        },
        Err(code) => exists|i: int|
            0 <= i < rows.len() && agrees_before(token, rows, i) && match #[trigger] rows[i] {
                Err(_) => code == INTERNAL_SERVER_ERROR,
                Ok(u) => u.token@ != token && code == UNAUTHORIZED,
            },
    }
}

/// A lookup that found a user with a non-empty token found a user whose
/// stored token is the token looked up; no row leads to nobody.
pub proof fn lemma_found_user_holds_token(
    token: Seq<char>,
    rows: Seq<Result<ResponseLoginUser, String>>,
    user: ResponseLoginUser,
)
    requires
        token_lookup(token, rows, Ok(user)),
    ensures
        user.token@.len() > 0 ==> user.token@ == token,
        rows.len() == 0 ==> is_nobody(user),
{
    if rows.len() > 0 {
        assert(rows[rows.len() - 1] is Ok);
    }
}

fn copy_user(u: &ResponseLoginUser) -> (c: ResponseLoginUser)
    ensures
        c == *u,
{
    ResponseLoginUser { id: u.id, username: u.username.clone(), token: u.token.clone() }
}

/// Looks `token` up among the user rows that the token query returned.
pub fn cek_token(token: &String, rows: &Vec<Result<ResponseLoginUser, String>>) -> (found: Result<
    ResponseLoginUser,
    u16,
>)
    ensures
        token_lookup(token@, rows@, found),
{
    let mut user_result = ResponseLoginUser {
        id: 0,
        username: String::new(),
        token: String::new(),
    };
    let mut i: usize = 0;
    while i < rows.len()
        invariant
            i <= rows@.len(),
            agrees_before(token@, rows@, i as int),
            i == 0 ==> is_nobody(user_result),
            i > 0 ==> user_result == rows@[i - 1]->Ok_0,
        decreases rows@.len() - i,
    {
        match &rows[i] {
            Err(_) => {
                return Err(INTERNAL_SERVER_ERROR);
            },
            Ok(user) => {
                if user.token != *token {
                    return Err(UNAUTHORIZED);
                }
                user_result = copy_user(user);
            },
        }
        i = i + 1;
    }
    Ok(user_result)
}

/// Where the guard stands.
#[derive(Debug, Clone, Copy, PartialEq, Eq)]
pub enum GuardStage {
    AwaitLock,
    AwaitUser,
    Done,
}

/// The guard of one request.
#[derive(Debug)]
pub struct GuardFlow {
    /// The bearer token of the request.
    pub token: String,
    pub stage: GuardStage,
}

/// The guard replied 500 "Error pada server".
pub open spec fn is_server_error(action: Action) -> bool {
    action matches Action::Respond(r) && is_text_reply(
        r,
        INTERNAL_SERVER_ERROR,
        "Error pada server"@,
    )
}

impl GuardFlow {
    /// `event` is the outcome the guard waits for.
    pub open spec fn awaits(self, event: Event) -> bool {
        match self.stage {
            GuardStage::AwaitLock => event is Locked,
            GuardStage::AwaitUser => event is SessionUsers,
            GuardStage::Done => false,
        }
    }

    /// How many outcomes the guard can still wait for.
    pub open spec fn remaining(self) -> nat {
        match self.stage {
            GuardStage::AwaitLock => 2,
            GuardStage::AwaitUser => 1,
            GuardStage::Done => 0,
        }
    }

    /// Guards a request whose bearer token is `token` (`None` when the
    /// request has no `Authorization: Bearer` header): without one the
    /// request is refused with 400, with one the connection is locked.
    pub fn guard_route(token: Option<String>) -> (started: (GuardFlow, Action))
        ensures
            match token {
                None => {
                    &&& started.1 matches Action::Respond(r) && is_text_reply(
                        r,
                        BAD_REQUEST,
                        "token tidak ditemukan"@,
                    )
                    &&& started.0.stage == GuardStage::Done
                },
                Some(t) => {
                    &&& started.1 == Action::Lock
                    &&& started.0.stage == GuardStage::AwaitLock
                    &&& started.0.token == t
                },
            },
    {
        match token {
            None => (
                GuardFlow { token: String::new(), stage: GuardStage::Done },
                Action::Respond(text_reply(BAD_REQUEST, "token tidak ditemukan")),
            ),
            Some(t) => (GuardFlow { token: t, stage: GuardStage::AwaitLock }, Action::Lock),
        }
    }

    /// Takes the outcome of the last action and answers with the next one.
    /// A request is let through only with the user whose stored token is
    /// the request's token, and only when that token is not empty.
    pub fn step(&mut self, event: Event) -> (action: Action)
        requires
            old(self).awaits(event),
        ensures
            final(self).token == old(self).token,
            (action is Respond || action is Admit) ==> final(self).stage == GuardStage::Done,
            !(action is Respond || action is Admit) ==> final(self).remaining() < old(
                self,
            ).remaining(),
            action matches Action::Admit(u) ==> u.token@ == old(self).token@ && u.token@.len()
                > 0,
            match event {
                Event::Locked(Err(_)) => is_server_error(action),
                Event::Locked(Ok(_)) => {
                    &&& action matches Action::Query { sql, params, shape } && sql@
                        == "SELECT * FROM user WHERE token =?"@ && params@ == seq![
                        SqlParam::Text(old(self).token),
                    ] && shape == (RowShape::SessionUsers { token_column: 3 })
                    &&& final(self).stage == GuardStage::AwaitUser
                },
                Event::SessionUsers(Err(_)) => is_server_error(action),
                Event::SessionUsers(Ok(rows)) => exists|found: Result<ResponseLoginUser, u16>|
                    #[trigger] token_lookup(old(self).token@, rows@, found) && match found {
                        Err(_) => is_server_error(action),
                        Ok(u) => if u.token@.len() == 0 {
                            action matches Action::Respond(r) && is_text_reply(
                                r,
                                UNAUTHORIZED,
                                "Token tidak valid"@,
                            )
                        } else {
                            action == Action::Admit(u)
                        },
                    },
                _ => false,
            },
    {
        match event {
            Event::Locked(Ok(_)) => {
                self.stage = GuardStage::AwaitUser;
                let mut params: Vec<SqlParam> = Vec::new();
                params.push(SqlParam::Text(self.token.clone()));
                assert(params@ =~= seq![SqlParam::Text(self.token)]);
                Action::Query {
                    sql: String::from_str("SELECT * FROM user WHERE token =?"),
                    params,
                    shape: RowShape::SessionUsers { token_column: 3 },
                }
            },
            Event::SessionUsers(Ok(rows)) => {
                self.stage = GuardStage::Done;
                let found = cek_token(&self.token, &rows);
                match found {
                    Ok(user) => {
                        if user.token.as_str().is_empty() {
                            Action::Respond(text_reply(UNAUTHORIZED, "Token tidak valid"))
                        } else {
                            Action::Admit(user)
                        }
                    },
                    Err(_) => Action::Respond(text_reply(INTERNAL_SERVER_ERROR, "Error pada server")),
                }
            },
            _ => {
                self.stage = GuardStage::Done;
                Action::Respond(text_reply(INTERNAL_SERVER_ERROR, "Error pada server"))
            },
        }
    }
}

} // verus!
