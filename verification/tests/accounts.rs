use citra_web::accounts::PasswordBody;
use citra_web::models::{BanList, Headers, Session, User};
use citra_web::rules::username_rule;
use citra_web::service::{Body, Status, WebState};
use citra_web::table::Table;

fn s(t: &str) -> String {
    t.to_string()
}

fn fresh_state() -> WebState {
    let (state, _) = WebState::new(16, 32, 20, 100, 50, Table::new(), Table::new(), BanList::new());
    state
}

fn payload(name: &str, password: &str) -> User {
    User {
        username: s(name),
        password_hash: s(password),
        yuzu_token: String::new(),
        avatar_url: s("http://a/b.png"),
        roles: vec![],
        is_banned: false,
        ban_reason: None,
    }
}

fn headers(session: Option<&str>) -> Headers {
    Headers { session_token: session.map(s), username: None, token: None, authorization: None }
}

fn register(state: &mut WebState, name: &str, password: &str) -> citra_web::service::Response {
    let rule = username_rule(state.max_username_length).unwrap();
    state.register_user(&rule, Some(payload(name, password)))
}

fn error_of(body: &Body) -> String {
    match body {
        Body::Error(m) => m.clone(),
        other => panic!("not an error body: {:?}", other),
    }
}

#[test]
fn register_stores_hashed_account() {
    let mut st = fresh_state();
    let r = register(&mut st, "alice", "hunter2");
    assert_eq!(r.status, Status::Success);
    assert!(r.persist.users && !r.persist.sessions);
    match &r.body {
        Body::Profile(u) => {
            assert_eq!(u.username, "alice");
            assert_eq!(u.password_hash, "hunter2");
        }
        other => panic!("{:?}", other),
    }
    let u = st.users.get(&s("alice")).unwrap();
    assert_eq!(u.username, "alice");
    assert_eq!(u.avatar_url, "http://a/b.png");
    assert!(u.roles.is_empty());
    assert!(!u.is_banned);
    assert_ne!(u.password_hash, "hunter2");
    assert!(bcrypt::verify("hunter2", &u.password_hash).unwrap());
    assert_eq!(u.password_hash.len(), 60);
    assert!(u.password_hash.starts_with("$2b$12$"));
    assert!(u.password_hash[7..].chars().all(|c| c == '.' || c == '/' || c.is_ascii_alphanumeric()));
    assert_eq!(u.yuzu_token.len(), 36);
    assert!(u.yuzu_token.chars().all(|c| c == '-' || c.is_ascii_digit() || ('a'..='f').contains(&c)));
}

#[test]
fn register_refusals() {
    let mut st = fresh_state();
    let rule = username_rule(16).unwrap();
    let r = st.register_user(&rule, None);
    assert_eq!((r.status, error_of(&r.body)), (Status::BadRequest, s("Invalid JSON")));

    let r = register(&mut st, "bob", "123456789012345678901");
    assert_eq!(r.status, Status::BadRequest);
    assert_eq!(error_of(&r.body), "Password too long (max 20 chars)");
    // The limit counts bytes: ten two-byte characters are twenty bytes.
    let r = register(&mut st, "bob", "éééééééééé");
    assert_eq!(r.status, Status::Success);
    let r = register(&mut st, "carl", "ééééééééééé");
    assert_eq!(error_of(&r.body), "Password too long (max 20 chars)");

    let r = register(&mut st, "bad name", "pw");
    assert_eq!(r.status, Status::BadRequest);
    assert_eq!(
        error_of(&r.body),
        "Invalid Username. Allowed: a-z, 0-9, _, -, . (Max 16 chars). No spaces or other symbols allowed."
    );
    let r = register(&mut st, "abcdefghijklmnopq", "pw");
    assert_eq!(r.status, Status::BadRequest);

    let r = register(&mut st, "bob", "other");
    assert_eq!((r.status, error_of(&r.body)), (Status::Conflict, s("User exists")));
    assert!(!r.persist.users);
}

#[test]
fn register_refuses_banned_words() {
    let mut st = fresh_state();
    st.ban_words.words.push(s("*admin*"));
    st.ban_words.words.push(s("^mod"));
    let r = register(&mut st, "superadmin1", "pw");
    assert_eq!(r.status, Status::BadRequest);
    assert_eq!(
        error_of(&r.body),
        "Username contains a forbidden word. Do not attempt to bypass this restriction."
    );
    let r = register(&mut st, "moderator", "pw");
    assert_eq!(r.status, Status::BadRequest);
    let r = register(&mut st, "themod", "pw");
    assert_eq!(r.status, Status::Success);
    assert!(!st.users.contains_key(&s("superadmin1")));
}

#[test]
fn finish_registration_with_given_values() {
    let mut st = fresh_state();
    let r = st.finish_registration(payload("dora", "pw"), s("tok-1"), Some(s("HASH")));
    assert_eq!(r.status, Status::Success);
    let u = st.users.get(&s("dora")).unwrap();
    assert_eq!((u.password_hash.as_str(), u.yuzu_token.as_str()), ("HASH", "tok-1"));
    let r = st.finish_registration(payload("erin", "pw"), s("tok-2"), None);
    assert_eq!(r.status, Status::InternalServerError);
    assert_eq!(error_of(&r.body), "Password Hash Failed");
    assert!(!st.users.contains_key(&s("erin")));
}

#[test]
fn login_creates_session_and_who_am_i_works() {
    let mut st = fresh_state();
    register(&mut st, "alice", "hunter2");
    let r = st.login_web(Some(payload("alice", "hunter2")));
    assert_eq!(r.status, Status::Success);
    assert!(r.persist.sessions);
    let sid = match &r.body {
        Body::LoggedIn { user, session_id } => {
            assert_eq!(user.username, "alice");
            session_id.clone()
        }
        other => panic!("{:?}", other),
    };
    assert_eq!(sid.len(), 36);
    let session = st.sessions.get(&sid).unwrap();
    assert_eq!(session.username, "alice");
    let now = chrono::Utc::now().timestamp();
    assert!(session.expires_at > now + 3500 && session.expires_at <= now + 3600);

    let who = st.get_current_user(&headers(Some(&sid)));
    assert_eq!(who.status, Status::Success);
    match who.body {
        Body::Profile(u) => assert_eq!(u.username, "alice"),
        other => panic!("{:?}", other),
    }
}

#[test]
fn login_refusals() {
    let mut st = fresh_state();
    register(&mut st, "alice", "hunter2");
    let r = st.login_web(Some(payload("alice", "wrong")));
    assert_eq!((r.status, error_of(&r.body)), (Status::Unauthorized, s("Invalid Credentials")));
    let r = st.login_web(Some(payload("nobody", "hunter2")));
    assert_eq!((r.status, error_of(&r.body)), (Status::Unauthorized, s("Invalid Credentials")));
    let r = st.login_web(None);
    assert_eq!((r.status, error_of(&r.body)), (Status::BadRequest, s("Invalid JSON")));
    assert_eq!(st.sessions.len(), 0);
    // The seeded account stores its password in the clear, which never verifies.
    let r = st.login_web(Some(payload("suyu", "password")));
    assert_eq!(r.status, Status::Unauthorized);
}

#[test]
fn complete_login_with_given_values() {
    let mut st = fresh_state();
    st.users.insert(s("key"), payload("alice", "x"));
    let r = st.complete_login(&s("key"), true, 1000, s("sid-1"));
    assert_eq!(r.status, Status::Success);
    let sess = st.sessions.get(&s("sid-1")).unwrap();
    assert_eq!((sess.id.as_str(), sess.username.as_str(), sess.expires_at), ("sid-1", "alice", 4600));
    let r = st.complete_login(&s("key"), false, 1000, s("sid-2"));
    assert_eq!(r.status, Status::Unauthorized);
    assert!(!st.sessions.contains_key(&s("sid-2")));
}

#[test]
fn banned_user_cannot_log_in() {
    let mut st = fresh_state();
    let mut u = payload("eve", "x");
    u.is_banned = true;
    u.ban_reason = Some(s("spam"));
    st.users.insert(s("eve"), u);
    let r = st.complete_login(&s("eve"), true, 0, s("sid"));
    assert_eq!(r.status, Status::Forbidden);
    match r.body {
        Body::BannedUser { reason } => assert_eq!(reason, "spam"),
        other => panic!("{:?}", other),
    }
    let mut u = payload("mallory", "x");
    u.is_banned = true;
    st.users.insert(s("mallory"), u);
    let r = st.complete_login(&s("mallory"), true, 0, s("sid"));
    match r.body {
        Body::BannedUser { reason } => assert_eq!(reason, "No reason provided"),
        other => panic!("{:?}", other),
    }
    assert_eq!(st.sessions.len(), 0);
}

#[test]
fn current_user_respects_expiry() {
    let mut st = fresh_state();
    st.users.insert(s("alice"), payload("alice", "x"));
    st.sessions.insert(s("t1"), Session { id: s("t1"), username: s("alice"), expires_at: 100 });
    assert_eq!(st.get_current_user_at(&headers(Some("t1")), 100).status, Status::Success);
    let r = st.get_current_user_at(&headers(Some("t1")), 101);
    assert_eq!(r.status, Status::Unauthorized);
    assert!(matches!(r.body, Body::Empty));
    assert_eq!(st.get_current_user_at(&headers(Some("t2")), 0).status, Status::Unauthorized);
    assert_eq!(st.get_current_user_at(&headers(None), 0).status, Status::Unauthorized);
}

#[test]
fn logout_removes_session() {
    let mut st = fresh_state();
    st.sessions.insert(s("t1"), Session { id: s("t1"), username: s("alice"), expires_at: 100 });
    let r = st.logout_user(&headers(Some("t1")));
    assert_eq!(r.status, Status::Success);
    assert!(r.persist.sessions);
    match r.body {
        Body::Text(t) => assert_eq!(t, "Logged out"),
        other => panic!("{:?}", other),
    }
    assert!(!st.sessions.contains_key(&s("t1")));
    let r = st.logout_user(&headers(None));
    assert_eq!(r.status, Status::Success);
    assert!(!r.persist.sessions);
}

#[test]
fn regenerate_token_flow() {
    let mut st = fresh_state();
    register(&mut st, "alice", "hunter2");
    st.sessions.insert(s("t1"), Session { id: s("t1"), username: s("alice"), expires_at: 0 });
    let pw = |p: Option<&str>| Some(PasswordBody { password: p.map(s) });

    let r = st.regenerate_token_with(&headers(Some("t1")), None, s("new"));
    assert_eq!((r.status, error_of(&r.body)), (Status::BadRequest, s("Invalid JSON")));
    let r = st.regenerate_token_with(&headers(Some("t1")), pw(None), s("new"));
    assert_eq!((r.status, error_of(&r.body)), (Status::BadRequest, s("Password required")));
    let r = st.regenerate_token_with(&headers(None), pw(Some("hunter2")), s("new"));
    assert_eq!((r.status, error_of(&r.body)), (Status::Unauthorized, s("Not logged in")));
    let r = st.regenerate_token_with(&headers(Some("zz")), pw(Some("hunter2")), s("new"));
    assert_eq!((r.status, error_of(&r.body)), (Status::Unauthorized, s("Invalid session")));
    let r = st.regenerate_token_with(&headers(Some("t1")), pw(Some("bad")), s("new"));
    assert_eq!((r.status, error_of(&r.body)), (Status::Unauthorized, s("Invalid password")));
    assert_ne!(st.users.get(&s("alice")).unwrap().yuzu_token, "new");

    // An expired session still renews the token, as the service always did.
    let r = st.regenerate_token_with(&headers(Some("t1")), pw(Some("hunter2")), s("new"));
    assert_eq!(r.status, Status::Success);
    assert!(r.persist.users);
    match r.body {
        Body::NewToken { yuzu_token } => assert_eq!(yuzu_token, "new"),
        other => panic!("{:?}", other),
    }
    assert_eq!(st.users.get(&s("alice")).unwrap().yuzu_token, "new");

    let r = st.regenerate_token(&headers(Some("t1")), pw(Some("hunter2")));
    assert_eq!(r.status, Status::Success);
    let t = st.users.get(&s("alice")).unwrap().yuzu_token.clone();
    assert_eq!(t.len(), 36);
    assert_ne!(t, "new");
}

#[test]
fn renewal_for_missing_account() {
    let mut st = fresh_state();
    st.sessions.insert(s("t1"), Session { id: s("t1"), username: s("ghost"), expires_at: 0 });
    let r = st.regenerate_token_with(&headers(Some("t1")), Some(PasswordBody { password: Some(s("x")) }), s("n"));
    assert_eq!((r.status, error_of(&r.body)), (Status::NotFound, s("User not found")));
    let r = st.complete_token_renewal(&s("ghost"), true, s("n"));
    assert_eq!(r.status, Status::NotFound);
}

#[test]
fn new_state_seeds_default_account() {
    let (st, persist) = WebState::new(16, 32, 20, 100, 50, Table::new(), Table::new(), BanList::new());
    assert!(persist.users);
    let u = st.users.get(&s("suyu")).unwrap();
    assert_eq!((u.password_hash.as_str(), u.yuzu_token.as_str(), u.avatar_url.as_str()), ("password", "sutoken", ""));
    let limits = st.get_limits();
    assert_eq!(
        (limits.max_username_length, limits.max_roomname_length, limits.max_password_length, limits.max_description_length, limits.max_game_name_length),
        (16, 32, 20, 100, 50)
    );

    let mut users = Table::new();
    users.insert(s("suyu"), payload("suyu", "custom"));
    let (st, persist) = WebState::new(1, 2, 3, 4, 5, users, Table::new(), BanList::new());
    assert!(!persist.users);
    assert_eq!(st.users.get(&s("suyu")).unwrap().password_hash, "custom");
}

#[test]
fn register_request_compiles_the_rule_after_the_password_check() {
    let mut st = fresh_state();
    let r = st.register_request(None);
    assert_eq!((r.status, error_of(&r.body)), (Status::BadRequest, s("Invalid JSON")));
    let r = st.register_request(Some(payload("zoe", "pw")));
    assert_eq!(r.status, Status::Success);
    assert!(st.users.contains_key(&s("zoe")));

    // A limit of zero makes the username rule `{1,0}`, which does not compile.
    let (mut broken, _) = WebState::new(0, 32, 4, 100, 50, Table::new(), Table::new(), BanList::new());
    let r = broken.register_request(Some(payload("amy", "too long")));
    assert_eq!((r.status, error_of(&r.body)), (Status::BadRequest, s("Password too long (max 4 chars)")));
    let r = broken.register_request(Some(payload("amy", "pw")));
    assert_eq!(r.status, Status::InternalServerError);
    assert!(matches!(r.body, Body::Empty));
    assert!(!r.persist.users);
    assert!(!broken.users.contains_key(&s("amy")));
}
