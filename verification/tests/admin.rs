use citra_web::admin::{delete_room_parsed, room_id, update_room_parsed, BanBody, RoomPatch, WordBody};
use citra_web::models::{BanList, Headers, Session, User};
use citra_web::rooms::RoomRegistry;
use citra_web::service::{Body, RoomInfo, Status, WebState};
use citra_web::table::Table;

fn s(t: &str) -> String {
    t.to_string()
}

fn user(name: &str, roles: &[&str]) -> User {
    User {
        username: s(name),
        password_hash: s("h"),
        yuzu_token: format!("tok-{}", name),
        avatar_url: String::new(),
        roles: roles.iter().map(|r| s(r)).collect(),
        is_banned: false,
        ban_reason: None,
    }
}

fn session(id: &str, name: &str, expires_at: i64) -> Session {
    Session { id: s(id), username: s(name), expires_at }
}

fn headers(session: Option<&str>) -> Headers {
    Headers { session_token: session.map(s), username: None, token: None, authorization: None }
}

/// A state with an admin (session "adm", valid until 1000) and a plain user
/// "bob" (sessions "b1" and "b2", valid for a long time).
fn state() -> WebState {
    let (mut st, _) = WebState::new(16, 32, 20, 100, 50, Table::new(), Table::new(), BanList::new());
    st.users.insert(s("root"), user("root", &["mod", "admin"]));
    st.users.insert(s("bob"), user("bob", &[]));
    st.sessions.insert(s("adm"), session("adm", "root", 1000));
    st.sessions.insert(s("b1"), session("b1", "bob", 4_000_000_000_000));
    st.sessions.insert(s("b2"), session("b2", "bob", 4_000_000_000_001));
    st
}

fn error_of(body: &Body) -> String {
    match body {
        Body::Error(m) => m.clone(),
        other => panic!("not an error body: {:?}", other),
    }
}

#[test]
fn admin_check_cases() {
    let st = state();
    assert!(st.check_admin_at(&headers(Some("adm")), 1000).is_ok());
    assert_eq!(st.check_admin_at(&headers(None), 0), Err((Status::Forbidden, s("Admin Access Required"))));
    assert_eq!(st.check_admin_at(&headers(Some("nope")), 0), Err((Status::Forbidden, s("Admin Access Required"))));
    assert_eq!(st.check_admin_at(&headers(Some("b1")), 0), Err((Status::Forbidden, s("Admin Access Required"))));
    assert_eq!(st.check_admin_at(&headers(Some("adm")), 1001), Err((Status::Unauthorized, s("Session Expired"))));
    // With the real clock, the admin session (expired in 1970) is refused.
    assert_eq!(st.check_admin(&headers(Some("adm"))), Err((Status::Unauthorized, s("Session Expired"))));
}

#[test]
fn listings_for_admins_only() {
    let st = state();
    assert!(matches!(st.get_users_at(&headers(Some("adm")), 5).body, Body::UserList));
    assert!(matches!(st.get_sessions_at(&headers(Some("adm")), 5).body, Body::SessionList));
    assert!(matches!(st.get_ban_words_at(&headers(Some("adm")), 5).body, Body::BanWordList));
    let r = st.get_users_at(&headers(Some("b1")), 5);
    assert_eq!((r.status, error_of(&r.body)), (Status::Forbidden, s("Admin Access Required")));
    let r = st.get_sessions(&headers(None));
    assert_eq!(r.status, Status::Forbidden);
    let r = st.get_ban_words(&headers(Some("b1")));
    assert_eq!(r.status, Status::Forbidden);
    assert_eq!(st.get_users(&headers(Some("adm"))).status, Status::Unauthorized);
}

fn ban(username: Option<&str>, banned: Option<bool>, reason: Option<&str>) -> Option<BanBody> {
    Some(BanBody { username: username.map(s), banned, reason: reason.map(s) })
}

#[test]
fn ban_and_unban() {
    let mut st = state();
    let r = st.ban_user_at(&headers(Some("adm")), ban(Some("bob"), None, Some("spam")), 5);
    assert_eq!(r.status, Status::Success);
    assert!(matches!(r.body, Body::Success));
    assert!(r.persist.users && r.persist.sessions);
    let b = st.users.get(&s("bob")).unwrap();
    assert!(b.is_banned);
    assert_eq!(b.ban_reason.as_deref(), Some("spam"));
    assert!(!st.sessions.contains_key(&s("b1")));
    assert!(!st.sessions.contains_key(&s("b2")));
    assert!(st.sessions.contains_key(&s("adm")));

    let r = st.ban_user_at(&headers(Some("adm")), ban(Some("bob"), Some(false), Some("ignored")), 5);
    assert_eq!(r.status, Status::Success);
    assert!(r.persist.users && !r.persist.sessions);
    let b = st.users.get(&s("bob")).unwrap();
    assert!(!b.is_banned);
    assert_eq!(b.ban_reason, None);
}

#[test]
fn ban_refusals() {
    let mut st = state();
    let r = st.ban_user_at(&headers(Some("adm")), None, 5);
    assert_eq!((r.status, error_of(&r.body)), (Status::BadRequest, s("Invalid JSON")));
    let r = st.ban_user_at(&headers(Some("adm")), ban(None, Some(true), None), 5);
    assert_eq!((r.status, error_of(&r.body)), (Status::BadRequest, s("Missing username")));
    let r = st.ban_user_at(&headers(Some("adm")), ban(Some("zed"), Some(true), None), 5);
    assert_eq!((r.status, error_of(&r.body)), (Status::BadRequest, s("User not found")));
    let r = st.ban_user_at(&headers(Some("b1")), ban(Some("root"), Some(true), None), 5);
    assert_eq!(r.status, Status::Forbidden);
    assert!(!st.users.get(&s("root")).unwrap().is_banned);
    let r = st.ban_user(&headers(Some("adm")), ban(Some("bob"), None, None));
    assert_eq!(r.status, Status::Unauthorized);
    assert!(!st.users.get(&s("bob")).unwrap().is_banned);
}

#[test]
fn admin_token_renewal() {
    let mut st = state();
    let r = st.admin_regenerate_token_at(&s("bob"), &headers(Some("adm")), 5, s("fresh"));
    assert_eq!(r.status, Status::Success);
    match r.body {
        Body::AdminNewToken { username, yuzu_token } => assert_eq!((username.as_str(), yuzu_token.as_str()), ("bob", "fresh")),
        other => panic!("{:?}", other),
    }
    assert_eq!(st.users.get(&s("bob")).unwrap().yuzu_token, "fresh");
    let r = st.admin_regenerate_token_at(&s("zed"), &headers(Some("adm")), 5, s("fresh"));
    assert_eq!((r.status, error_of(&r.body)), (Status::NotFound, s("User not found")));
    let r = st.admin_regenerate_token(&s("bob"), &headers(Some("b1")));
    assert_eq!(r.status, Status::Forbidden);
    assert_eq!(st.users.get(&s("bob")).unwrap().yuzu_token, "fresh");
}

fn word(w: Option<&str>) -> Option<WordBody> {
    Some(WordBody { word: w.map(s) })
}

#[test]
fn ban_word_list_edits() {
    let mut st = state();
    let r = st.add_ban_word_at(&headers(Some("adm")), word(Some("*evil*")), 5);
    assert_eq!(r.status, Status::Success);
    assert!(r.persist.ban_words);
    let r = st.add_ban_word_at(&headers(Some("adm")), word(Some("*evil*")), 5);
    assert_eq!(r.status, Status::Success);
    assert!(!r.persist.ban_words);
    st.add_ban_word_at(&headers(Some("adm")), word(Some("x")), 5);
    assert_eq!(st.ban_words.words, vec![s("*evil*"), s("x")]);
    let r = st.add_ban_word_at(&headers(Some("adm")), word(None), 5);
    assert_eq!((r.status, error_of(&r.body)), (Status::BadRequest, s("Missing word")));
    let r = st.add_ban_word_at(&headers(Some("adm")), None, 5);
    assert_eq!((r.status, error_of(&r.body)), (Status::BadRequest, s("Invalid JSON")));

    st.ban_words.words.push(s("*evil*"));
    let r = st.remove_ban_word_at(&headers(Some("adm")), word(Some("*evil*")), 5);
    assert_eq!(r.status, Status::Success);
    assert!(r.persist.ban_words);
    assert_eq!(st.ban_words.words, vec![s("x")]);
    let r = st.remove_ban_word_at(&headers(Some("adm")), word(Some("absent")), 5);
    assert_eq!(r.status, Status::Success);
    assert!(r.persist.ban_words);
    let r = st.remove_ban_word_at(&headers(Some("adm")), word(None), 5);
    assert_eq!(r.status, Status::BadRequest);
    let r = st.remove_ban_word(&headers(Some("b1")), word(Some("x")));
    assert_eq!(r.status, Status::Forbidden);
    let r = st.add_ban_word(&headers(None), word(Some("y")));
    assert_eq!(r.status, Status::Forbidden);
    assert_eq!(st.ban_words.words, vec![s("x")]);
}

#[test]
fn revoke_sessions() {
    let mut st = state();
    let r = st.revoke_session_at(&s("b1"), &headers(Some("adm")), 5);
    assert_eq!(r.status, Status::Success);
    assert!(r.persist.sessions);
    assert!(!st.sessions.contains_key(&s("b1")));
    let r = st.revoke_session_at(&s("b1"), &headers(Some("adm")), 5);
    assert_eq!((r.status, error_of(&r.body)), (Status::NotFound, s("Session not found")));
    let r = st.revoke_session(&s("b2"), &headers(Some("b2")));
    assert_eq!(r.status, Status::Forbidden);
    assert!(st.sessions.contains_key(&s("b2")));
}

fn info(name: &str, desc: &str) -> RoomInfo {
    RoomInfo { name: s(name), description: s(desc) }
}

#[test]
fn room_ids_are_uuids() {
    assert_eq!(room_id(&s("550e8400-e29b-41d4-a716-446655440000")), Some(0x550e8400e29b41d4a716446655440000));
    assert_eq!(room_id(&s("550e8400e29b41d4a716446655440000")), Some(0x550e8400e29b41d4a716446655440000));
    assert_eq!(room_id(&s("not-a-uuid")), None);
}

#[test]
fn room_delete_and_update() {
    let mut rooms = RoomRegistry::new();
    rooms.insert(7, info("Lobby", "old"));
    let r = update_room_parsed(&mut rooms, Some(RoomPatch { name: None, description: Some(s("new")) }), Some(7));
    assert_eq!(r.status, Status::Success);
    match r.body {
        Body::Room(i) => assert_eq!((i.name.as_str(), i.description.as_str()), ("Lobby", "new")),
        other => panic!("{:?}", other),
    }
    let r = update_room_parsed(&mut rooms, Some(RoomPatch { name: Some(s("Hall")), description: None }), Some(8));
    assert_eq!((r.status, error_of(&r.body)), (Status::NotFound, s("Room not found")));
    let r = update_room_parsed(&mut rooms, None, Some(7));
    assert_eq!((r.status, error_of(&r.body)), (Status::BadRequest, s("Invalid JSON")));
    let r = update_room_parsed(&mut rooms, Some(RoomPatch { name: None, description: None }), None);
    assert_eq!((r.status, error_of(&r.body)), (Status::BadRequest, s("Invalid ID")));

    let r = delete_room_parsed(&mut rooms, None);
    assert_eq!((r.status, error_of(&r.body)), (Status::BadRequest, s("Invalid ID")));
    let r = delete_room_parsed(&mut rooms, Some(8));
    assert_eq!(r.status, Status::NotFound);
    let r = delete_room_parsed(&mut rooms, Some(7));
    assert_eq!(r.status, Status::Success);
    assert!(rooms.entries().is_empty());
}

#[test]
fn room_admin_endpoints() {
    let st = state();
    let id = s("550e8400-e29b-41d4-a716-446655440000");
    let mut rooms = RoomRegistry::new();
    rooms.insert(0x550e8400e29b41d4a716446655440000, info("Lobby", "d"));
    let r = st.update_room_admin_at(&s("bad"), &mut rooms, &headers(Some("adm")), None, 5);
    assert_eq!(error_of(&r.body), "Invalid JSON");
    let r = st.update_room_admin_at(&s("bad"), &mut rooms, &headers(Some("adm")), Some(RoomPatch { name: None, description: None }), 5);
    assert_eq!(error_of(&r.body), "Invalid ID");
    let r = st.update_room_admin_at(&id, &mut rooms, &headers(Some("adm")), Some(RoomPatch { name: Some(s("N")), description: None }), 5);
    assert_eq!(r.status, Status::Success);
    assert_eq!(rooms.entries()[0].value.name, "N");
    let r = st.delete_room_admin_at(&id, &mut rooms, &headers(Some("b1")), 5);
    assert_eq!(r.status, Status::Forbidden);
    assert_eq!(rooms.entries().len(), 1);
    let r = st.delete_room_admin(&id, &mut rooms, &headers(Some("adm")));
    assert_eq!(r.status, Status::Unauthorized);
    let r = st.delete_room_admin_at(&id, &mut rooms, &headers(Some("adm")), 5);
    assert_eq!(r.status, Status::Success);
    assert!(rooms.entries().is_empty());
    let r = st.update_room_admin(&id, &mut rooms, &headers(None), None);
    assert_eq!(r.status, Status::Forbidden);
}
