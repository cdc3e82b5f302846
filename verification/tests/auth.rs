use citra_web::auth::{build_claims, issue_claims, Grant};
use citra_web::models::{BanList, Headers, User};
use citra_web::service::WebState;
use citra_web::table::Table;

fn s(t: &str) -> String {
    t.to_string()
}

fn user(name: &str, token: &str, banned: bool) -> User {
    User {
        username: s(name),
        password_hash: s("h"),
        yuzu_token: s(token),
        avatar_url: s("http://x/y.png"),
        roles: vec![s("moderator")],
        is_banned: banned,
        ban_reason: None,
    }
}

fn state() -> WebState {
    let (mut st, _) = WebState::new(16, 32, 20, 100, 50, Table::new(), Table::new(), BanList::new());
    st.users.insert(s("alice"), user("alice", "tok-a", false));
    st.users.insert(s("eve"), user("eve", "tok-e", true));
    st
}

fn headers(username: Option<&str>, token: Option<&str>) -> Headers {
    Headers { session_token: None, username: username.map(s), token: token.map(s), authorization: None }
}

#[test]
fn internal_grant_cases() {
    let st = state();
    match st.jwt_internal(&headers(Some("alice"), Some("tok-a"))) {
        Grant::Issue(u) => assert_eq!(u.username, "alice"),
        other => panic!("{:?}", other),
    }
    assert!(matches!(st.jwt_internal(&headers(Some("alice"), Some("nope"))), Grant::Denied));
    assert!(matches!(st.jwt_internal(&headers(Some("eve"), Some("wrong"))), Grant::Banned));
    assert!(matches!(st.jwt_internal(&headers(Some("bob"), Some("tok-a"))), Grant::Denied));
    assert!(matches!(st.jwt_internal(&headers(None, Some("tok-a"))), Grant::Denied));
    assert!(matches!(st.jwt_internal(&headers(Some("alice"), None)), Grant::Denied));
    assert!(matches!(st.jwt_internal(&headers(Some("suyu"), Some("sutoken"))), Grant::Issue(_)));
}

#[test]
fn external_identity_and_grant() {
    let st = state();
    assert_eq!(st.token_identity(&headers(Some("alice"), Some("tok-a"))), Some(s("alice")));
    assert_eq!(st.token_identity(&headers(Some("alice"), Some("x"))), None);
    assert_eq!(st.token_identity(&headers(Some("eve"), Some("tok-e"))), Some(s("eve")));
    assert_eq!(st.token_identity(&headers(None, None)), None);
    assert!(matches!(st.jwt_external(&Some(s("alice"))), Grant::Issue(_)));
    assert!(matches!(st.jwt_external(&Some(s("eve"))), Grant::Banned));
    assert!(matches!(st.jwt_external(&Some(s("nobody"))), Grant::Denied));
    assert!(matches!(st.jwt_external(&None), Grant::Denied));
}

#[test]
fn claims_layout() {
    let u = user("alice", "t", false);
    let c = build_claims(&u, &s("citra-core"), 1_700_000_000, s("jti-1"));
    assert_eq!(c.sub, "alice");
    assert_eq!(c.iss, "citra-core");
    assert_eq!(c.aud, "citra-core");
    assert_eq!(c.iat, 1_700_000_000);
    assert_eq!(c.exp, 1_700_086_400);
    assert_eq!(c.jti, "jti-1");
    assert_eq!(c.username, "alice");
    assert_eq!(c.display_name, "alice");
    assert_eq!(c.avatar_url, "http://x/y.png");
    assert_eq!(c.roles, vec![s("moderator")]);
}

#[test]
fn issued_claims_use_the_clock_and_a_uuid() {
    let u = user("alice", "t", false);
    let c = issue_claims(&u, &s("other-service")).expect("clock after the epoch");
    let now = chrono::Utc::now().timestamp() as usize;
    assert!(c.iat <= now && c.iat + 5 >= now);
    assert_eq!(c.exp, c.iat + 86400);
    assert_eq!(c.aud, "other-service");
    assert_eq!(c.jti.len(), 36);
    assert!(uuid::Uuid::parse_str(&c.jti).is_ok());
}

fn full_headers(authorization: Option<&str>, username: Option<&str>, token: Option<&str>) -> Headers {
    Headers {
        session_token: None,
        username: username.map(s),
        token: token.map(s),
        authorization: authorization.map(s),
    }
}

#[test]
fn external_identity_prefers_the_bearer_token() {
    let st = state();
    // A bearer token that does not check out is not rescued by valid game-token headers.
    let h = full_headers(Some("Bearer junk"), Some("alice"), Some("tok-a"));
    assert_eq!(st.external_identity(&h, None), None);
    assert!(matches!(st.jwt_external(&st.external_identity(&h, None)), Grant::Denied));
    // One that checks out names the account, whatever the other headers say.
    assert_eq!(st.external_identity(&h, Some(s("eve"))), Some(s("eve")));
    // Without a bearer token, the game-token headers decide.
    let h = full_headers(Some("Basic x"), Some("alice"), Some("tok-a"));
    assert_eq!(st.external_identity(&h, Some(s("eve"))), Some(s("alice")));
    let h = full_headers(None, Some("alice"), Some("bad"));
    assert_eq!(st.external_identity(&h, None), None);
}
