use citra_web::admin::{BanBody, WordBody};
use citra_web::auth::Grant;
use citra_web::models::{BanList, Headers, Session, User};
use citra_web::rules::username_rule;
use citra_web::service::{Body, Status, WebState};
use citra_web::table::Table;

fn s(t: &str) -> String {
    t.to_string()
}

fn user(name: &str, password: &str, roles: &[&str]) -> User {
    User {
        username: s(name),
        password_hash: s(password),
        yuzu_token: s("t0"),
        avatar_url: String::new(),
        roles: roles.iter().map(|r| s(r)).collect(),
        is_banned: false,
        ban_reason: None,
    }
}

fn headers(session: Option<&str>) -> Headers {
    Headers { session_token: session.map(s), username: None, token: None, authorization: None }
}

fn game_headers(name: &str, token: &str) -> Headers {
    Headers { session_token: None, username: Some(s(name)), token: Some(s(token)), authorization: None }
}

fn state() -> WebState {
    let (mut st, _) = WebState::new(16, 32, 64, 100, 50, Table::new(), Table::new(), BanList::new());
    st.users.insert(s("root"), user("root", "h", &["admin"]));
    st.sessions.insert(s("adm"), Session { id: s("adm"), username: s("root"), expires_at: 1000 });
    st
}

#[test]
fn registered_account_logs_in_with_its_password() {
    let mut st = state();
    let rule = username_rule(16).unwrap();
    assert_eq!(st.register_user(&rule, Some(user("newbie", "pa55word", &[]))).status, Status::Success);
    let r = st.login_web_at(Some(user("newbie", "pa55word", &[])), 50, s("sid-n"));
    assert_eq!(r.status, Status::Success);
    match r.body {
        Body::LoggedIn { user, session_id } => {
            assert_eq!((user.username.as_str(), session_id.as_str()), ("newbie", "sid-n"));
            assert!(user.roles.is_empty() && !user.is_banned);
        }
        other => panic!("{:?}", other),
    }
    // And the session identifies the account until it expires.
    assert_eq!(st.get_current_user_at(&headers(Some("sid-n")), 50 + 3600).status, Status::Success);
    assert_eq!(st.get_current_user_at(&headers(Some("sid-n")), 50 + 3601).status, Status::Unauthorized);
}

#[test]
fn logout_ends_the_session() {
    let mut st = state();
    st.users.insert(s("amy"), user("amy", "h", &[]));
    st.complete_login(&s("amy"), true, 0, s("sid-a"));
    assert_eq!(st.get_current_user_at(&headers(Some("sid-a")), 10).status, Status::Success);
    st.logout_user(&headers(Some("sid-a")));
    assert_eq!(st.get_current_user_at(&headers(Some("sid-a")), 10).status, Status::Unauthorized);
}

#[test]
fn ban_locks_the_account_out() {
    let mut st = state();
    st.users.insert(s("bob"), user("bob", "h", &[]));
    st.complete_login(&s("bob"), true, 0, s("sid-b"));
    let body = BanBody { username: Some(s("bob")), banned: None, reason: Some(s("cheating")) };
    assert_eq!(st.ban_user_at(&headers(Some("adm")), Some(body), 5).status, Status::Success);
    assert!(!st.sessions.contains_key(&s("sid-b")));
    let r = st.complete_login(&s("bob"), true, 10, s("sid-c"));
    assert_eq!(r.status, Status::Forbidden);
    assert!(!st.sessions.contains_key(&s("sid-c")));
    assert!(matches!(st.jwt_internal(&game_headers("bob", "t0")), Grant::Banned));
    assert!(matches!(st.jwt_external(&Some(s("bob"))), Grant::Banned));
}

#[test]
fn refused_moderation_changes_nothing() {
    let mut st = state();
    st.users.insert(s("bob"), user("bob", "h", &[]));
    let body = BanBody { username: Some(s("bob")), banned: Some(true), reason: None };
    let r = st.ban_user_at(&headers(Some("adm")), Some(body), 1001);
    assert_eq!(r.status, Status::Unauthorized);
    assert!(!r.persist.users && !r.persist.sessions);
    assert!(!st.users.get(&s("bob")).unwrap().is_banned);
    assert!(st.sessions.contains_key(&s("adm")));
}

#[test]
fn adding_a_word_twice_lists_it_once() {
    let mut st = state();
    for _ in 0..2 {
        st.add_ban_word_at(&headers(Some("adm")), Some(WordBody { word: Some(s("foo")) }), 5);
    }
    assert_eq!(st.ban_words.words, vec![s("foo")]);
}

#[test]
fn removing_a_word_takes_every_copy() {
    let mut st = state();
    st.ban_words.words = vec![s("a"), s("b"), s("a"), s("c"), s("a")];
    st.remove_ban_word_at(&headers(Some("adm")), Some(WordBody { word: Some(s("a")) }), 5);
    assert_eq!(st.ban_words.words, vec![s("b"), s("c")]);
}

#[test]
fn renewed_token_replaces_the_old_one() {
    let mut st = state();
    st.users.insert(s("gus"), user("gus", "h", &[]));
    assert!(matches!(st.jwt_internal(&game_headers("gus", "t0")), Grant::Issue(_)));
    st.complete_token_renewal(&s("gus"), true, s("t1"));
    assert!(matches!(st.jwt_internal(&game_headers("gus", "t0")), Grant::Denied));
    assert!(matches!(st.jwt_internal(&game_headers("gus", "t1")), Grant::Issue(_)));
}

#[test]
fn fresh_service_has_the_default_account() {
    let mut users = Table::new();
    users.insert(s("other"), user("other", "h", &[]));
    let (st, persist) = WebState::new(1, 1, 1, 1, 1, users, Table::new(), BanList::new());
    assert!(persist.users);
    assert!(st.users.contains_key(&s("suyu")));
    assert!(st.users.contains_key(&s("other")));
    assert_eq!(st.users.len(), 2);
}

#[test]
fn banning_twice_is_banning_once() {
    let mut st = state();
    st.users.insert(s("bob"), user("bob", "h", &[]));
    st.complete_login(&s("bob"), true, 0, s("sid-b"));
    for _ in 0..2 {
        let body = BanBody { username: Some(s("bob")), banned: Some(true), reason: Some(s("r")) };
        assert_eq!(st.ban_user_at(&headers(Some("adm")), Some(body), 5).status, Status::Success);
    }
    let b = st.users.get(&s("bob")).unwrap();
    assert!(b.is_banned);
    assert_eq!(b.ban_reason.as_deref(), Some("r"));
    assert_eq!(st.users.len(), 3);
    assert_eq!(st.sessions.len(), 1);
}

#[test]
fn registration_ignores_requested_roles_and_ban() {
    let mut st = state();
    let mut p = user("alice", "pw", &["admin"]);
    p.is_banned = true;
    p.ban_reason = Some(s("x"));
    assert_eq!(st.register_request(Some(p)).status, Status::Success);
    let u = st.users.get(&s("alice")).unwrap();
    assert!(u.roles.is_empty() && !u.is_banned && u.ban_reason.is_none());
    assert_ne!(u.password_hash, "pw");
    assert!(u.password_hash.starts_with("$2b$12$"));
    assert!(bcrypt::verify("pw", &u.password_hash).unwrap());
    assert_eq!(st.sessions.len(), 1);
}
