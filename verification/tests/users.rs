use axum_learn_duckdb::flow::{is_answer, Action, Event, RowShape, SqlParam};
use axum_learn_duckdb::guard::{cek_token, GuardFlow};
use axum_learn_duckdb::jwt::{create_jwt, judge_token, Claims, TokenCheck};
use axum_learn_duckdb::login::{pick_credentials, pick_session, LoginFlow};
use axum_learn_duckdb::models::{CredentialRow, ReqLogin, ReqUser, ResponseLoginUser, ResponseModel, ResponseUser};
use axum_learn_duckdb::passwords::{hash_password, verify_password};
use axum_learn_duckdb::reply::{Body, Reply};
use axum_learn_duckdb::script::{Finish, Op, ScriptRun};
use axum_learn_duckdb::uploads::{storage_failed, UploadFlow};
use axum_learn_duckdb::users::{add_user, logout_user, register_hashed};

fn session(id: i32, name: &str, token: &str) -> ResponseLoginUser {
    ResponseLoginUser { id, username: name.to_string(), token: token.to_string() }
}

fn text(status: u16, t: &str) -> Action {
    Action::Respond(Reply { status, body: Body::Text(t.to_string()) })
}

#[test]
fn hashed_password_verifies() {
    let hashed = hash_password("rahasia".to_string()).unwrap();
    assert_eq!(hashed.len(), 60);
    assert!(hashed.starts_with("$2b$12$"));
    assert_eq!(verify_password("rahasia".to_string(), &hashed), Ok(true));
    assert_eq!(verify_password("salah".to_string(), &hashed), Ok(false));
}

#[test]
fn unreadable_hash_is_a_server_error() {
    assert_eq!(verify_password("x".to_string(), "not a hash"), Err(500));
    let known = "$2a$04$UuTkLRZZ6QofpDOlMz32MuuxEHA43WOemOYHPz6.SjsVsyO1tDU96";
    assert_eq!(verify_password("password".to_string(), known), Ok(true));
}

#[test]
fn token_claims_and_verdicts() {
    let c = Claims::issued_at(1_700_000_000);
    assert_eq!(c, Claims { exp: 1_700_000_030, iat: 1_700_000_000 });
    assert_eq!(judge_token(TokenCheck::Valid), Ok(true));
    assert_eq!(judge_token(TokenCheck::Expired), Err(401));
    assert_eq!(judge_token(TokenCheck::Rejected), Err(500));
}

#[test]
fn create_jwt_signs_the_claims() {
    let now: i64 = 1_700_000_000;
    let token = create_jwt(now, b"rahasia").unwrap();

    let mut claims = serde_json::Map::new();
    claims.insert("exp".to_string(), serde_json::Value::from(1_700_000_030u64));
    claims.insert("iat".to_string(), serde_json::Value::from(1_700_000_000u64));
    let expected = jsonwebtoken::encode(
        &jsonwebtoken::Header::default(),
        &claims,
        &jsonwebtoken::EncodingKey::from_secret(b"rahasia"),
    )
    .unwrap();
    assert_eq!(token, expected);
    assert_eq!(token.split('.').count(), 3);

    let mut validation = jsonwebtoken::Validation::new(jsonwebtoken::Algorithm::HS256);
    validation.validate_exp = false;
    let decoded = jsonwebtoken::decode::<serde_json::Value>(
        &token,
        &jsonwebtoken::DecodingKey::from_secret(b"rahasia"),
        &validation,
    )
    .unwrap();
    assert_eq!(decoded.claims["exp"], serde_json::Value::from(1_700_000_030u64));
    assert_eq!(decoded.claims["iat"], serde_json::Value::from(1_700_000_000u64));

    assert_eq!(create_jwt(now, b"rahasia").unwrap(), token);
    assert_ne!(create_jwt(now, b"lain").unwrap(), token);
    assert_ne!(create_jwt(now + 1, b"rahasia").unwrap(), token);
}

#[test]
fn add_user_stores_a_verifiable_hash() {
    let script = add_user(ReqUser { id: 4, username: "sari".to_string(), password: "pw".to_string() })
        .expect("hashing works here");
    assert_eq!(script.ops.len(), 2);
    match &script.ops[1] {
        Op::Run { sql, params, required } => {
            assert_eq!(sql, "INSERT INTO user (id, username, password) VALUES (?,?,?)");
            assert!(*required);
            assert_eq!(params[0], SqlParam::Int(4));
            assert_eq!(params[1], SqlParam::Text("sari".to_string()));
            match &params[2] {
                SqlParam::Text(h) => assert_eq!(verify_password("pw".to_string(), h), Ok(true)),
                other => panic!("unexpected {other:?}"),
            }
        }
        other => panic!("unexpected {other:?}"),
    }
    assert_eq!(
        script.finish,
        Finish::Always(Reply { status: 200, body: Body::User(ResponseUser { id: 4, username: "sari".to_string() }) })
    );
}

#[test]
fn logout_depends_on_deleted_sessions() {
    let user = session(1, "sari", "tok");
    let (mut run, _) = ScriptRun::start(logout_user(user.clone()));
    assert_eq!(
        run.step(Event::Locked(Ok(()))),
        Action::Execute {
            sql: "DELETE FROM token_user WHERE username = ?".to_string(),
            params: vec![SqlParam::Text("sari".to_string())]
        }
    );
    assert_eq!(
        run.step(Event::Executed(Ok(0))),
        Action::Respond(Reply { status: 401, body: Body::Status("Unauthorized".to_string()) })
    );
    let (mut run, _) = ScriptRun::start(logout_user(user.clone()));
    run.step(Event::Locked(Ok(())));
    assert_eq!(
        run.step(Event::Executed(Ok(2))),
        Action::Respond(Reply { status: 200, body: Body::Status("sukses".to_string()) })
    );
    let (mut run, _) = ScriptRun::start(logout_user(user));
    run.step(Event::Locked(Ok(())));
    assert_eq!(run.step(Event::Executed(Err("io".to_string()))), text(500, "io"));
}

#[test]
fn cek_token_lookup() {
    let t = "abc".to_string();
    assert_eq!(cek_token(&t, &vec![]), Ok(session(0, "", "")));
    assert_eq!(cek_token(&t, &vec![Ok(session(1, "a", "abc")), Ok(session(2, "b", "abc"))]), Ok(session(2, "b", "abc")));
    assert_eq!(cek_token(&t, &vec![Ok(session(1, "a", "xyz"))]), Err(401));
    assert_eq!(cek_token(&t, &vec![Err("e".to_string()), Ok(session(1, "a", "xyz"))]), Err(500));
}

#[test]
fn guard_without_token_is_bad_request() {
    let (_, action) = GuardFlow::guard_route(None);
    assert_eq!(action, text(400, "token tidak ditemukan"));
}

#[test]
fn guard_admits_matching_token() {
    let (mut g, action) = GuardFlow::guard_route(Some("abc".to_string()));
    assert_eq!(action, Action::Lock);
    assert_eq!(
        g.step(Event::Locked(Ok(()))),
        Action::Query {
            sql: "SELECT * FROM user WHERE token =?".to_string(),
            params: vec![SqlParam::Text("abc".to_string())],
            shape: RowShape::SessionUsers { token_column: 3 },
        }
    );
    assert_eq!(
        g.step(Event::SessionUsers(Ok(vec![Ok(session(3, "bob", "abc"))]))),
        Action::Admit(session(3, "bob", "abc"))
    );
}

#[test]
fn guard_refusals() {
    let (mut g, _) = GuardFlow::guard_route(Some("abc".to_string()));
    g.step(Event::Locked(Ok(())));
    assert_eq!(g.step(Event::SessionUsers(Ok(vec![]))), text(401, "Token tidak valid"));

    let (mut g, _) = GuardFlow::guard_route(Some("abc".to_string()));
    g.step(Event::Locked(Ok(())));
    assert_eq!(g.step(Event::SessionUsers(Ok(vec![Ok(session(3, "bob", "zzz"))]))), text(500, "Error pada server"));

    let (mut g, _) = GuardFlow::guard_route(Some("abc".to_string()));
    assert_eq!(g.step(Event::Locked(Err("poisoned".to_string()))), text(500, "Error pada server"));

    let (mut g, _) = GuardFlow::guard_route(Some("".to_string()));
    g.step(Event::Locked(Ok(())));
    assert_eq!(g.step(Event::SessionUsers(Ok(vec![Ok(session(3, "bob", ""))]))), text(401, "Token tidak valid"));
}

#[test]
fn credential_and_session_picks() {
    let rows = vec![
        Ok(CredentialRow { id: 1, password: "h1".to_string(), username: "a".to_string() }),
        Ok(CredentialRow { id: 2, password: "h2".to_string(), username: "a".to_string() }),
    ];
    assert_eq!(pick_credentials(&rows).unwrap().id, 2);
    assert_eq!(pick_credentials(&vec![]).unwrap(), CredentialRow { id: 0, password: String::new(), username: String::new() });
    assert_eq!(pick_credentials(&vec![Err("x".to_string())]), Err("x".to_string()));
    let sessions = vec![Ok(session(1, "a", "t1")), Ok(session(2, "a", "t2")), Err("bad".to_string())];
    assert_eq!(pick_session(&sessions), Some(session(2, "a", "t2")));
    assert_eq!(pick_session(&vec![Err("bad".to_string())]), None);
}

fn login_until_user(password: &str, rows: Vec<Result<CredentialRow, String>>) -> (LoginFlow, Action) {
    let (mut flow, action) = LoginFlow::login_user(ReqLogin { username: "sari".to_string(), password: password.to_string() });
    assert_eq!(action, Action::Lock);
    assert_eq!(
        flow.step(Event::Locked(Ok(()))),
        Action::Query {
            sql: "SELECT id, password, username FROM user WHERE username = ?".to_string(),
            params: vec![SqlParam::Text("sari".to_string())],
            shape: RowShape::Credentials,
        }
    );
    let action = flow.step(Event::Credentials(Ok(rows)));
    (flow, action)
}

#[test]
fn login_succeeds_with_right_password() {
    let hash = hash_password("pw".to_string()).unwrap();
    let rows = vec![Ok(CredentialRow { id: 8, password: hash, username: "sari".to_string() })];
    let (mut flow, action) = login_until_user("pw", rows);
    assert_eq!(action, Action::IssueTokens);
    assert_eq!(
        flow.step(Event::Tokens { access: "acc".to_string(), refresh: "ref".to_string() }),
        Action::Execute {
            sql: "INSERT INTO token_user (id, id_user, username, access_token, refresh_token) VALUES (1, ?, ?, ?, ?)".to_string(),
            params: vec![
                SqlParam::Int(8),
                SqlParam::Text("sari".to_string()),
                SqlParam::Text("acc".to_string()),
                SqlParam::Text("ref".to_string())
            ],
        }
    );
    assert_eq!(
        flow.step(Event::Executed(Ok(1))),
        Action::Query {
            sql: "SELECT id_user, username, access_token FROM token_user WHERE username =?".to_string(),
            params: vec![SqlParam::Text("sari".to_string())],
            shape: RowShape::SessionUsers { token_column: 2 },
        }
    );
    assert_eq!(
        flow.step(Event::SessionUsers(Ok(vec![Ok(session(8, "sari", "acc"))]))),
        Action::Respond(Reply {
            status: 200,
            body: Body::Login(ResponseModel { kode: 200, status: "Sukses".to_string(), data: Some(session(8, "sari", "acc")) })
        })
    );
}

#[test]
fn login_without_session_row_is_not_found() {
    let hash = hash_password("pw".to_string()).unwrap();
    let rows = vec![Ok(CredentialRow { id: 8, password: hash, username: "sari".to_string() })];
    let (mut flow, _) = login_until_user("pw", rows);
    flow.step(Event::Tokens { access: "a".to_string(), refresh: "r".to_string() });
    flow.step(Event::Executed(Ok(1)));
    assert_eq!(
        flow.step(Event::SessionUsers(Ok(vec![Err("bad".to_string())]))),
        Action::Respond(Reply {
            status: 404,
            body: Body::Login(ResponseModel { kode: 404, status: "Gagal".to_string(), data: None })
        })
    );
}

#[test]
fn login_refusals() {
    let hash = hash_password("pw".to_string()).unwrap();
    let rows = vec![Ok(CredentialRow { id: 8, password: hash, username: "sari".to_string() })];
    assert_eq!(login_until_user("wrong", rows).1, text(401, "Password atau username salah"));
    assert_eq!(login_until_user("pw", vec![]).1, text(401, "Password atau username salah"));
    assert_eq!(login_until_user("pw", vec![Err("row".to_string())]).1, text(401, "row"));
    let bad = vec![Ok(CredentialRow { id: 8, password: "plain".to_string(), username: "sari".to_string() })];
    assert_eq!(login_until_user("pw", bad).1, text(500, "500 Internal Server Error"));
    let (mut flow, _) = LoginFlow::login_user(ReqLogin { username: "s".to_string(), password: "p".to_string() });
    assert_eq!(flow.step(Event::Locked(Err("p".to_string()))), text(500, "Failed to lock connection"));
}

#[test]
fn login_insert_failure() {
    let hash = hash_password("pw".to_string()).unwrap();
    let rows = vec![Ok(CredentialRow { id: 8, password: hash, username: "sari".to_string() })];
    let (mut flow, _) = login_until_user("pw", rows);
    flow.step(Event::Tokens { access: "a".to_string(), refresh: "r".to_string() });
    assert_eq!(flow.step(Event::Executed(Err("dup".to_string()))), text(500, "dup"));
}

#[test]
fn upload_creates_missing_bucket() {
    let (mut up, action) = UploadFlow::upload_file();
    assert_eq!(action, Action::BucketExists { bucket: "newbucket".to_string() });
    assert_eq!(up.step(Event::BucketChecked(Ok(false))), Action::MakeBucket { bucket: "newbucket".to_string() });
    assert_eq!(
        up.step(Event::BucketMade(Ok(()))),
        Action::UploadObject {
            bucket: "newbucket".to_string(),
            object: "test.png".to_string(),
            filename: "/Users/ighfarhasbiash/Desktop/test.png".to_string()
        }
    );
    assert_eq!(up.step(Event::Uploaded(Ok(()))), text(200, "Berhasil upload"));
}

#[test]
fn upload_failures_and_strict_upload() {
    let (mut up, _) = UploadFlow::upload_file();
    assert!(matches!(up.step(Event::BucketChecked(Ok(true))), Action::UploadObject { .. }));
    assert_eq!(up.step(Event::Uploaded(Err("no file".to_string()))), text(500, "no file"));
    let (mut up, _) = UploadFlow::upload_file();
    assert_eq!(up.step(Event::BucketChecked(Err("down".to_string()))), text(500, "down"));

    let (mut up, action) = UploadFlow::cocoba();
    assert_eq!(action, Action::BucketExists { bucket: "newbucket2".to_string() });
    up.step(Event::BucketChecked(Ok(true)));
    assert_eq!(up.step(Event::Uploaded(Ok(()))), Action::Respond(Reply { status: 200, body: Body::Empty }));
}

#[test]
fn answers_match_actions() {
    assert!(is_answer(&Action::Lock, &Event::Locked(Ok(()))));
    assert!(!is_answer(&Action::Lock, &Event::FsDone));
    assert!(is_answer(
        &Action::Query { sql: String::new(), params: vec![], shape: RowShape::Credentials },
        &Event::Credentials(Ok(vec![]))
    ));
    assert!(!is_answer(&Action::IssueTokens, &Event::Executed(Ok(0))));
}

#[test]
fn storage_failures_are_recognised() {
    assert!(storage_failed(&Event::Uploaded(Err("x".to_string()))));
    assert!(storage_failed(&Event::BucketChecked(Err("x".to_string()))));
    assert!(!storage_failed(&Event::BucketChecked(Ok(false))));
    assert!(!storage_failed(&Event::FsDone));
}

#[test]
fn registration_follows_the_hash_outcome() {
    let req = || ReqUser { id: 6, username: "tono".to_string(), password: "pw".to_string() };
    assert!(register_hashed(req(), Err(500)).is_none());
    let script = register_hashed(req(), Ok("$2b$12$hash".to_string())).unwrap();
    assert_eq!(
        script.ops[1],
        Op::Run {
            sql: "INSERT INTO user (id, username, password) VALUES (?,?,?)".to_string(),
            params: vec![
                SqlParam::Int(6),
                SqlParam::Text("tono".to_string()),
                SqlParam::Text("$2b$12$hash".to_string())
            ],
            required: true,
        }
    );
    assert_eq!(
        script.finish,
        Finish::Always(Reply { status: 200, body: Body::User(ResponseUser { id: 6, username: "tono".to_string() }) })
    );
}
