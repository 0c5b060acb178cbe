//! The handlers of users: registration and logout.

use vstd::prelude::*;
use crate::flow::SqlParam;
use crate::models::{ReqUser, ResponseLoginUser, ResponseUser};
use crate::passwords::{hash_password, password_check};
use crate::reply::{Body, Reply, OK, UNAUTHORIZED, is_status_reply, status_reply};
use crate::script::{Finish, Op, Script};
use crate::students::{is_plain_lock, is_required_run};

verus! {

/// The script that registers `req` with the stored hash `hash`: lock,
/// insert the user row (id, name, hash), reply 200 with the id and the name.
pub open spec fn is_registration(req: ReqUser, hash: String, s: Script) -> bool {
    &&& s.ops@.len() == 2
    &&& is_plain_lock(s.ops@[0])
    &&& is_required_run(
        s.ops@[1],
        "INSERT INTO user (id, username, password) VALUES (?,?,?)"@,
        seq![SqlParam::Int(req.id), SqlParam::Text(req.username), SqlParam::Text(hash)],
    )
    &&& s.finish == Finish::Always(
        Reply { status: OK, body: Body::User(ResponseUser { id: req.id, username: req.username }) },
    )
}

/// What registering `req` does once its password was hashed: with a hash,
/// the registration script that stores it; when hashing failed, `None`,
/// on which the handler gives up.
pub fn register_hashed(req: ReqUser, hashed: Result<String, u16>) -> (script: Option<Script>)
    ensures
        match hashed {
            Ok(hash) => script matches Some(s) && is_registration(req, hash, s),
            Err(_) => script is None,
        },
{
    match hashed {
        Err(_) => None,
        Ok(pass) => {
            let mut ops: Vec<Op> = Vec::new();
            ops.push(crate::students::plain_lock());
            let mut params: Vec<SqlParam> = Vec::new();
            params.push(SqlParam::Int(req.id));
            params.push(SqlParam::Text(req.username.clone()));
            params.push(SqlParam::Text(pass));
            assert(params@ =~= seq![
                SqlParam::Int(req.id),
                SqlParam::Text(req.username),
                SqlParam::Text(pass),
            ]);
            ops.push(
                Op::Run {
                    sql: String::from_str(
                        "INSERT INTO user (id, username, password) VALUES (?,?,?)",
                    ),
                    params,
                    required: true,
                },
            );
            let reply = Reply {
                status: OK,
                body: Body::User(ResponseUser { id: req.id, username: req.username }),
            };
            Some(Script { ops, finish: Finish::Always(reply) })
        },
    }
}

/// Registering `req`: its password is hashed (cost 12) and the user row is
/// inserted with the hash; the reply echoes the id and the name. `None`
/// when the hasher failed (for want of random bytes), on which the handler
/// gives up.
pub fn add_user(req: ReqUser) -> (script: Option<Script>)
    ensures
        script matches Some(s) ==> exists|hash: String|
            #[trigger] is_registration(req, hash, s) && password_check(req.password@, hash@)
                == Ok::<bool, u16>(true) && hash@.len() == 60 && hash@.subrange(0, 7)
                == "$2b$12$"@,
{
    let hashed = hash_password(req.password.clone());
    let script = register_hashed(req, hashed);
    proof {
        if script is Some {
            let hash = hashed->Ok_0;
            assert(is_registration(req, hash, script->Some_0));
        }
    }
    script
}

/// Logging out `user`: its sessions are deleted; 200 `{"status": "sukses"}`
/// when there was one, 401 `{"status": "Unauthorized"}` when there was none.
pub fn logout_user(user: ResponseLoginUser) -> (script: Script)
    ensures
        script.ops@.len() == 2,
        is_plain_lock(script.ops@[0]),
        is_required_run(
            script.ops@[1],
            "DELETE FROM token_user WHERE username = ?"@,
            seq![SqlParam::Text(user.username)],
        ),
        script.finish matches Finish::ByChanges { none, some } && is_status_reply(
            none,
            UNAUTHORIZED,
            "Unauthorized"@,
        ) && is_status_reply(some, OK, "sukses"@),
{
    let mut ops: Vec<Op> = Vec::new();
    ops.push(crate::students::plain_lock());
    let mut params: Vec<SqlParam> = Vec::new();
    params.push(SqlParam::Text(user.username));
    ops.push(
        Op::Run {
            sql: String::from_str("DELETE FROM token_user WHERE username = ?"),
            params,
            required: true,
        },
    );
    assert(ops@[1]->Run_params@ =~= seq![SqlParam::Text(user.username)]);
    Script {
        ops,
        finish: Finish::ByChanges {
            none: status_reply(UNAUTHORIZED, "Unauthorized"),
            some: status_reply(OK, "sukses"),
        },
    }
}

} // verus!
