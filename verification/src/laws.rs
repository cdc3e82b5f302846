//! Properties of the service that span several requests, proved over the handlers'
//! contracts.

use vstd::prelude::*;
use crate::accounts::{
    registration_request_result, registration_result,
    byte_length, current_user_reply, login_outcome, login_request_outcome, logout_outcome, password_verifies,
    registered_account, registration_outcome, registration_refusal, session_lifetime, token_renewal_outcome,
    with_token,
};
use crate::admin::{
    add_word_outcome, admin_token_outcome, ban_outcome, delete_room_outcome, guarded, remove_word_outcome, revoke_outcome, sessions_without, update_room_outcome, with_ban,
    without_word, BanBodyView, RoomPatchView,
};
use crate::auth::{bearer_of, external_grant, external_identity_of, internal_grant, GrantView};
use crate::models::UserView;
use crate::outside::{is_bcrypt_hash_text, is_uuid_text, spec_bcrypt_verify, spec_regex_is_match};
use crate::rules::{name_banned, username_pattern};
use crate::service::{admin_denial, error_reply, seeded_users, BodyView, Persist, ResponseView, RoomInfoView, StateView, Status};

verus! {

/// An account that registration just stored can log in with the password it was
/// registered with, and the login answers with that account and the new session id.
pub proof fn law_registered_account_can_log_in(
    s: StateView,
    p: UserView,
    token: Seq<char>,
    hash: Seq<char>,
    now: i64,
    sid: Seq<char>,
)
    requires
        registration_refusal(s, Some(p)) is None,
        spec_bcrypt_verify(p.password_hash, hash) == Some(true),
    ensures
        ({
            let s1 = registration_outcome(s, p, token, Some(hash)).0;
            let r = login_request_outcome(s1, Some(p), now, sid).1;
            &&& r.status == Status::Success
            &&& r.body == BodyView::LoggedIn { user: registered_account(p, token, hash), session_id: sid }
        }),
{
    let s1 = registration_outcome(s, p, token, Some(hash)).0;
    assert(s1.users.contains_key(p.username));
    assert(s1.users[p.username] == registered_account(p, token, hash));
    assert(password_verifies(s1, p.username, p.password_hash));
}

/// A registration that passes its checks has a username that matches the username
/// rule, that no ban word forbids, that no account holds yet, and a password within
/// the byte limit.
pub proof fn law_accepted_registration_meets_the_rules(s: StateView, p: UserView)
    requires
        registration_refusal(s, Some(p)) is None,
    ensures
        byte_length(p.password_hash) <= s.limits.max_password_length,
        spec_regex_is_match(username_pattern(s.limits.max_username_length as nat), p.username),
        !name_banned(s.ban_words, p.username),
        !s.users.contains_key(p.username),
{
}

/// Registration never replaces an existing account: a taken name is refused with
/// 409 and nothing changes.
pub proof fn law_registration_keeps_existing_accounts(s: StateView, p: UserView)
    requires
        registration_refusal(s, Some(p)) is Some,
        byte_length(p.password_hash) <= s.limits.max_password_length,
        spec_regex_is_match(username_pattern(s.limits.max_username_length as nat), p.username),
        !name_banned(s.ban_words, p.username),
        s.users.contains_key(p.username),
    ensures
        registration_refusal(s, Some(p)) == Some(error_reply(Status::Conflict, "User exists"@)),
{
}

/// A session made by a successful login identifies its account ("who am I") until it
/// expires, where the account is stored under its own name.
pub proof fn law_login_session_identifies_user(s: StateView, key: Seq<char>, now: i64, sid: Seq<char>, t: i64)
    requires
        s.users.contains_key(key),
        s.users[key].username == key,
        !s.users[key].is_banned,
        t <= now + session_lifetime(),
        now + session_lifetime() <= i64::MAX,
    ensures
        ({
            let s1 = login_outcome(s, key, true, now, sid).0;
            current_user_reply(s1, Some(sid), t).status == Status::Success
                && current_user_reply(s1, Some(sid), t).body == BodyView::Profile(s.users[key])
        }),
{
}

/// After logout, the token no longer identifies anyone.
pub proof fn law_logout_ends_session(s: StateView, token: Seq<char>, now: i64)
    ensures
        current_user_reply(logout_outcome(s, Some(token)).0, Some(token), now).status == Status::Unauthorized,
{
}

/// An expired session identifies no one.
pub proof fn law_expired_session_is_refused(s: StateView, token: Seq<char>, now: i64)
    requires
        s.sessions.contains_key(token),
        now > s.sessions[token].expires_at,
    ensures
        current_user_reply(s, Some(token), now).status == Status::Unauthorized,
        admin_denial(s, Some(token), now) == Some((Status::Unauthorized, "Session Expired"@)),
{
}

/// A refused moderation request changes nothing, and a request that passes the admin
/// check came with an unexpired session of an account holding the role `admin`.
pub proof fn law_moderation_needs_an_admin(s: StateView, token: Option<Seq<char>>, now: i64, inner: (StateView, crate::service::ResponseView))
    ensures
        admin_denial(s, token, now) is Some ==> guarded(s, token, now, inner).0 == s,
        admin_denial(s, token, now) is None ==> ({
            let t = token->0;
            &&& token is Some
            &&& s.sessions.contains_key(t)
            &&& now <= s.sessions[t].expires_at
            &&& s.users.contains_key(s.sessions[t].username)
            &&& s.users[s.sessions[t].username].roles.contains("admin"@)
            &&& guarded(s, token, now, inner) == inner
        }),
{
}

/// A ban leaves the account banned with the given reason, ends every session of its
/// name, and from then on login, the game server's token and tokens for other
/// audiences are refused as banned.
pub proof fn law_ban_locks_the_account_out(
    s: StateView,
    target: Seq<char>,
    reason: Option<Seq<char>>,
    now: i64,
    sid: Seq<char>,
    game_token: Option<Seq<char>>,
)
    requires
        s.users.contains_key(target),
    ensures
        ({
            let s1 = ban_outcome(s, Some(BanBodyView { username: Some(target), banned: None, reason })).0;
            &&& s1.users[target].is_banned
            &&& s1.users[target].ban_reason == reason
            &&& forall|k: Seq<char>| #[trigger] s1.sessions.contains_key(k) ==> s1.sessions[k].username != target
            &&& login_outcome(s1, target, true, now, sid).1.status == Status::Forbidden
            &&& login_outcome(s1, target, true, now, sid).0 == s1
            &&& internal_grant(s1, Some(target), game_token) == GrantView::Banned || game_token is None
            &&& external_grant(s1, Some(target)) == GrantView::Banned
        }),
{
}

/// Lifting a ban clears the flag and the reason, and keeps the account's sessions.
pub proof fn law_unban_clears_the_reason(s: StateView, target: Seq<char>, reason: Option<Seq<char>>)
    requires
        s.users.contains_key(target),
    ensures
        ({
            let s1 = ban_outcome(s, Some(BanBodyView { username: Some(target), banned: Some(false), reason })).0;
            &&& !s1.users[target].is_banned
            &&& s1.users[target].ban_reason is None
            &&& s1.sessions == s.sessions
        }),
{
}

/// A banned account never receives a signed token.
pub proof fn law_banned_accounts_get_no_token(s: StateView, u: Seq<char>, token: Option<Seq<char>>)
    requires
        s.users.contains_key(u),
        s.users[u].is_banned,
    ensures
        !(internal_grant(s, Some(u), token) is Issue),
        !(external_grant(s, Some(u)) is Issue),
{
}

/// Adding a ban word twice is the same as adding it once, and afterwards the word is
/// listed.
pub proof fn law_adding_a_word_is_idempotent(s: StateView, w: Seq<char>)
    ensures
        add_word_outcome(add_word_outcome(s, Some(Some(w))).0, Some(Some(w))).0 == add_word_outcome(s, Some(Some(w))).0,
        add_word_outcome(s, Some(Some(w))).0.ban_words.contains(w),
{
    let s1 = add_word_outcome(s, Some(Some(w))).0;
    if !s.ban_words.contains(w) {
        assert(s.ban_words.push(w)[s.ban_words.len() as int] == w);
    }
    assert(s1.ban_words.contains(w));
}

/// Removing a word takes out every occurrence of it and keeps every other word in order.
pub proof fn law_removed_word_is_gone(ws: Seq<Seq<char>>, w: Seq<char>)
    ensures
        !without_word(ws, w).contains(w),
        forall|x: Seq<char>| x != w ==> (ws.contains(x) <==> #[trigger] without_word(ws, w).contains(x)),
    decreases ws.len(),
{
    if ws.len() > 0 {
        law_removed_word_is_gone(ws.drop_last(), w);
        let r = without_word(ws.drop_last(), w);
        assert forall|x: Seq<char>| x != w implies (ws.contains(x) <==> #[trigger] without_word(ws, w).contains(x)) by {
            if ws.contains(x) {
                let i = choose|i: int| 0 <= i < ws.len() && ws[i] == x;
                if i < ws.len() - 1 {
                    assert(ws.drop_last()[i] == x);
                    assert(ws.drop_last().contains(x));
                    assert(r.contains(x));
                    let j = choose|j: int| 0 <= j < r.len() && r[j] == x;
                    if ws.last() != w {
                        assert(without_word(ws, w) == r.push(ws.last()));
                        assert(r.push(ws.last())[j] == x);
                    } else {
                        assert(without_word(ws, w) == r);
                    }
                } else if ws.last() != w {
                    assert(r.push(ws.last())[r.len() as int] == x);
                }
            }
            if without_word(ws, w).contains(x) {
                let j = choose|j: int| 0 <= j < without_word(ws, w).len() && without_word(ws, w)[j] == x;
                if ws.last() != w && j == r.len() {
                    assert(ws[ws.len() - 1] == x);
                } else {
                    assert(r[j] == x);
                    assert(r.contains(x));
                    let i = choose|i: int| 0 <= i < ws.drop_last().len() && ws.drop_last()[i] == x;
                    assert(ws[i] == x);
                }
            }
        }
        if without_word(ws, w).contains(w) {
            let j = choose|j: int| 0 <= j < without_word(ws, w).len() && without_word(ws, w)[j] == w;
            if ws.last() != w && j == r.len() {
            } else {
                assert(r[j] == w);
                assert(r.contains(w));
            }
        }
    }
}

/// After a game-token renewal, the new token is the one that earns the game server's
/// token, and the old one no longer does.
pub proof fn law_renewed_token_replaces_old(s: StateView, u: Seq<char>, new_token: Seq<char>)
    requires
        s.users.contains_key(u),
        !s.users[u].is_banned,
        s.users[u].yuzu_token != new_token,
    ensures
        ({
            let s1 = token_renewal_outcome(s, u, true, new_token).0;
            &&& internal_grant(s1, Some(u), Some(new_token)) == GrantView::Issue(with_token(s.users[u], new_token))
            &&& internal_grant(s1, Some(u), Some(s.users[u].yuzu_token)) == GrantView::Denied
        }),
{
}

/// A fresh service always has an account under `suyu`, and keeps the loaded one where
/// there is one; no other account is touched.
pub proof fn law_default_account_is_seeded(users: Map<Seq<char>, UserView>)
    ensures
        seeded_users(users).contains_key("suyu"@),
        users.contains_key("suyu"@) ==> seeded_users(users) == users,
        forall|k: Seq<char>| k != "suyu"@ ==> (#[trigger] seeded_users(users).contains_key(k) == users.contains_key(k)),
{
}

/// A request that presents a bearer token which does not check out gets no token for
/// another audience, whatever username and game-token headers come with it.
pub proof fn law_bad_bearer_is_not_rescued(
    s: StateView,
    authorization: Option<Seq<char>>,
    username: Option<Seq<char>>,
    token: Option<Seq<char>>,
)
    requires
        bearer_of(authorization) is Some,
    ensures
        external_grant(s, external_identity_of(s, authorization, username, token, None)) == GrantView::Denied,
{
}

/// A token for another audience is granted only to an existing, unbanned account,
/// and only to the one that the request identifies: by the username of a bearer token
/// that checks out where the request presents one, else by the username and game-token
/// headers.
pub proof fn law_external_token_goes_to_the_identified_account(
    s: StateView,
    authorization: Option<Seq<char>>,
    username: Option<Seq<char>>,
    token: Option<Seq<char>>,
    decoded: Option<Seq<char>>,
)
    requires
        external_grant(s, external_identity_of(s, authorization, username, token, decoded)) is Issue,
    ensures
        exists|u: Seq<char>| {
            &&& s.users.contains_key(u)
            &&& !s.users[u].is_banned
            &&& external_grant(s, external_identity_of(s, authorization, username, token, decoded)) == GrantView::Issue(s.users[u])
            &&& (bearer_of(authorization) is Some ==> decoded == Some(u))
            &&& (bearer_of(authorization) is None ==> username == Some(u) && token == Some(s.users[u].yuzu_token))
        },
{
    let u = external_identity_of(s, authorization, username, token, decoded)->0;
    assert(s.users.contains_key(u));
}

/// Registration with a compiled username rule changes only the account table, and
/// there only by adding the new account: a request answered otherwise than 200 changes
/// nothing, and one answered 200 adds an account under a name that was free and leaves
/// every other account as it was.
pub proof fn law_register_user_only_adds_the_new_account(s: StateView, payload: Option<UserView>, s2: StateView, r: ResponseView)
    requires
        registration_result(s, payload, s2, r),
        s.users.dom().finite(),
    ensures
        s2.sessions == s.sessions,
        s2.ban_words == s.ban_words,
        s2.limits == s.limits,
        r.status != Status::Success ==> s2 == s,
        r.status == Status::Success ==> {
            &&& payload is Some
            &&& !s.users.contains_key(payload->0.username)
            &&& s2.users.dom() == s.users.dom().insert(payload->0.username)
            &&& s2.users.dom().len() == s.users.dom().len() + 1
            &&& forall|k: Seq<char>| #[trigger] s.users.contains_key(k) ==> s2.users[k] == s.users[k]
        },
{
    if registration_refusal(s, payload) is None {
        let p = payload->0;
        let (token, hash) = choose|token: Seq<char>, hash: Option<Seq<char>>| {
            &&& is_uuid_text(token)
            &&& (hash matches Some(h) ==> spec_bcrypt_verify(p.password_hash, h) == Some(true))
            &&& (hash matches Some(h) ==> is_bcrypt_hash_text(h))
            &&& (s2, r) == registration_outcome(s, p, token, hash)
        };
        if hash is Some {
            assert(s2.users.dom() =~= s.users.dom().insert(p.username));
        }
    }
}

/// The same holds of registration as the service handles a request, compiling the
/// username rule itself.
pub proof fn law_registration_only_adds_the_new_account(s: StateView, payload: Option<UserView>, s2: StateView, r: ResponseView)
    requires
        registration_request_result(s, payload, s2, r),
        s.users.dom().finite(),
    ensures
        s2.sessions == s.sessions,
        s2.ban_words == s.ban_words,
        s2.limits == s.limits,
        r.status != Status::Success ==> s2 == s,
        r.status == Status::Success ==> {
            &&& payload is Some
            &&& !s.users.contains_key(payload->0.username)
            &&& s2.users.dom() == s.users.dom().insert(payload->0.username)
            &&& s2.users.dom().len() == s.users.dom().len() + 1
            &&& forall|k: Seq<char>| #[trigger] s.users.contains_key(k) ==> s2.users[k] == s.users[k]
        },
{
    if registration_result(s, payload, s2, r) {
        law_register_user_only_adds_the_new_account(s, payload, s2, r);
    }
}

/// A successful registration stores a bcrypt hash of the password, never the password
/// itself (unless the password is itself text in bcrypt's hash form), with no roles and
/// no ban, whatever roles or ban the request carried.
pub proof fn law_registration_stores_a_bcrypt_hash(s: StateView, payload: Option<UserView>, s2: StateView, r: ResponseView)
    requires
        registration_request_result(s, payload, s2, r),
        r.status == Status::Success,
    ensures
        payload is Some,
        s2.users.contains_key(payload->0.username),
        ({
            let p = payload->0;
            let stored = s2.users[p.username];
            &&& is_bcrypt_hash_text(stored.password_hash)
            &&& spec_bcrypt_verify(p.password_hash, stored.password_hash) == Some(true)
            &&& (!is_bcrypt_hash_text(p.password_hash) ==> stored.password_hash != p.password_hash)
            &&& stored.username == p.username
            &&& stored.avatar_url == p.avatar_url
            &&& stored.roles == Seq::<Seq<char>>::empty()
            &&& !stored.is_banned
            &&& stored.ban_reason is None
        }),
{
    let p = payload->0;
    let (token, hash) = choose|token: Seq<char>, hash: Option<Seq<char>>| {
        &&& is_uuid_text(token)
        &&& (hash matches Some(h) ==> spec_bcrypt_verify(p.password_hash, h) == Some(true))
        &&& (hash matches Some(h) ==> is_bcrypt_hash_text(h))
        &&& (s2, r) == registration_outcome(s, p, token, hash)
    };
}

/// Banning twice in a row, with the second request's clock no earlier than the
/// first's, leaves the state as one ban does.
pub proof fn law_ban_is_idempotent(
    s: StateView,
    token: Option<Seq<char>>,
    now1: i64,
    now2: i64,
    payload: Option<BanBodyView>,
)
    requires
        now1 <= now2,
    ensures
        ({
            let s1 = guarded(s, token, now1, ban_outcome(s, payload)).0;
            guarded(s1, token, now2, ban_outcome(s1, payload)).0 == s1
        }),
{
    let s1 = guarded(s, token, now1, ban_outcome(s, payload)).0;
    if admin_denial(s, token, now1) is None {
        if let Some(b) = payload {
            if let Some(t) = b.username {
                if s.users.contains_key(t) {
                    let ban = match b.banned {
                        Some(x) => x,
                        None => true,
                    };
                    let again = ban_outcome(s1, payload).0;
                    assert(s1.users.contains_key(t));
                    assert(with_ban(s1.users[t], ban, b.reason) == s1.users[t]);
                    assert(again.users =~= s1.users);
                    if ban {
                        assert(sessions_without(s1.sessions, t) =~= s1.sessions);
                    }
                    assert(again =~= s1);
                }
            }
        }
    } else {
        assert(s1 == s);
    }
}

/// A registration request passes its checks exactly when its password is within the
/// byte limit, its username matches the username rule, no ban word forbids the name and
/// no account holds it; with a compiled rule, such a request is then stored, unless
/// hashing the password fails.
pub proof fn law_valid_registration_is_accepted(s: StateView, p: UserView, s2: StateView, r: ResponseView)
    ensures
        registration_refusal(s, Some(p)) is None <==> {
            &&& byte_length(p.password_hash) <= s.limits.max_password_length
            &&& spec_regex_is_match(username_pattern(s.limits.max_username_length as nat), p.username)
            &&& !name_banned(s.ban_words, p.username)
            &&& !s.users.contains_key(p.username)
        },
        registration_result(s, Some(p), s2, r) && registration_refusal(s, Some(p)) is None ==> {
            ||| r.status == Status::Success && s2.users.contains_key(p.username) && s2.users[p.username].username
                == p.username
            ||| r == error_reply(Status::InternalServerError, "Password Hash Failed"@) && s2 == s
        },
{
    if registration_result(s, Some(p), s2, r) && registration_refusal(s, Some(p)) is None {
        let (token, hash) = choose|token: Seq<char>, hash: Option<Seq<char>>| {
            &&& is_uuid_text(token)
            &&& (hash matches Some(h) ==> spec_bcrypt_verify(p.password_hash, h) == Some(true))
            &&& (hash matches Some(h) ==> is_bcrypt_hash_text(h))
            &&& (s2, r) == registration_outcome(s, p, token, hash)
        };
    }
}

/// Without a bearer token (no `Authorization` header, or one that does not read
/// `Bearer <token>`), the username and game-token headers decide: the caller is the
/// account the username header names, where it exists and the game-token header carries
/// its current game token, and no one otherwise.
pub proof fn law_game_token_headers_decide_without_bearer(
    s: StateView,
    authorization: Option<Seq<char>>,
    username: Option<Seq<char>>,
    token: Option<Seq<char>>,
    decoded: Option<Seq<char>>,
)
    requires
        bearer_of(authorization) is None,
    ensures
        external_identity_of(s, authorization, username, token, decoded) == (if username is Some && token is Some
            && s.users.contains_key(username->0) && s.users[username->0].yuzu_token == token->0 {
            username
        } else {
            None
        }),
{
}

/// Removing a ban word takes out exactly the entries equal to it and keeps every other
/// entry, in order; nothing else of the state changes, and the list is written back.
pub proof fn law_removing_a_word_keeps_the_others(s: StateView, w: Seq<char>)
    ensures
        remove_word_outcome(s, Some(Some(w))).0.ban_words == s.ban_words.filter(|x: Seq<char>| x != w),
        remove_word_outcome(s, Some(Some(w))).0.users == s.users,
        remove_word_outcome(s, Some(Some(w))).0.sessions == s.sessions,
        remove_word_outcome(s, Some(Some(w))).0.limits == s.limits,
        remove_word_outcome(s, Some(Some(w))).1.status == Status::Success,
        remove_word_outcome(s, Some(Some(w))).1.persist == (Persist { users: false, sessions: false, ban_words: true }),
{
    lemma_without_word_is_filter(s.ban_words, w);
}

proof fn lemma_without_word_is_filter(ws: Seq<Seq<char>>, w: Seq<char>)
    ensures
        without_word(ws, w) == ws.filter(|x: Seq<char>| x != w),
    decreases ws.len(),
{
    reveal(Seq::filter);
    if ws.len() > 0 {
        lemma_without_word_is_filter(ws.drop_last(), w);
    }
}

/// A room edit changes only the fields its body gives, and only the room it names: the
/// edited room takes the new name where the body gives one and keeps its name where not,
/// likewise for the description, every other room stays as it was, and the answer shows
/// the edited room.
pub proof fn law_room_edit_changes_only_given_fields(rooms: Map<u128, RoomInfoView>, p: RoomPatchView, id: u128)
    requires
        rooms.contains_key(id),
    ensures
        ({
            let (after, r) = update_room_outcome(rooms, Some(p), Some(id));
            &&& after.contains_key(id)
            &&& after[id].name == (if p.name is Some { p.name->0 } else { rooms[id].name })
            &&& after[id].description == (if p.description is Some { p.description->0 } else { rooms[id].description })
            &&& after.dom() == rooms.dom()
            &&& forall|k: u128| #[trigger] rooms.contains_key(k) && k != id ==> after[k] == rooms[k]
            &&& r.status == Status::Success
            &&& r.body == BodyView::Room(after[id])
        }),
{
    let after = update_room_outcome(rooms, Some(p), Some(id)).0;
    assert(after.dom() =~= rooms.dom());
}

/// Logout removes only the session its token names: every other session stays, with
/// the same value, and accounts and ban words do not change.
pub proof fn law_logout_removes_only_that_session(s: StateView, t: Seq<char>)
    ensures
        ({
            let s2 = logout_outcome(s, Some(t)).0;
            &&& !s2.sessions.contains_key(t)
            &&& forall|k: Seq<char>| k != t ==> (#[trigger] s2.sessions.contains_key(k) <==> s.sessions.contains_key(k))
            &&& forall|k: Seq<char>| k != t && #[trigger] s.sessions.contains_key(k) ==> s2.sessions[k] == s.sessions[k]
            &&& s2.users == s.users
            &&& s2.ban_words == s.ban_words
            &&& s2.limits == s.limits
        }),
{
}

/// Ending a session by id removes exactly that session: every other session stays with
/// the same value; the answer is 200 where the session existed and 404 where not, and
/// then nothing changes.
pub proof fn law_revoke_removes_only_that_session(s: StateView, id: Seq<char>)
    ensures
        ({
            let (s2, r) = revoke_outcome(s, id);
            &&& !s2.sessions.contains_key(id)
            &&& forall|k: Seq<char>| k != id ==> (#[trigger] s2.sessions.contains_key(k) <==> s.sessions.contains_key(k))
            &&& forall|k: Seq<char>| k != id && #[trigger] s.sessions.contains_key(k) ==> s2.sessions[k] == s.sessions[k]
            &&& s2.users == s.users
            &&& s2.ban_words == s.ban_words
            &&& (r.status == Status::Success <==> s.sessions.contains_key(id))
            &&& (!s.sessions.contains_key(id) ==> s2 == s && r.status == Status::NotFound)
        }),
{
}

/// Closing a room removes exactly that room, where it exists; other rooms stay as they
/// were.
pub proof fn law_closing_a_room_removes_only_it(rooms: Map<u128, RoomInfoView>, id: u128)
    ensures
        ({
            let (after, r) = delete_room_outcome(rooms, Some(id));
            &&& !after.contains_key(id)
            &&& forall|k: u128| k != id ==> (#[trigger] after.contains_key(k) <==> rooms.contains_key(k))
            &&& forall|k: u128| k != id && #[trigger] rooms.contains_key(k) ==> after[k] == rooms[k]
            &&& (r.status == Status::Success <==> rooms.contains_key(id))
        }),
{
}

/// A game-token renewal, by the account itself or by an admin, changes only that
/// account's game token: the account keeps every other field, every other account and
/// every session stay as they were.
pub proof fn law_token_renewal_changes_only_the_token(s: StateView, u: Seq<char>, new_token: Seq<char>)
    requires
        s.users.contains_key(u),
    ensures
        ({
            let a = admin_token_outcome(s, u, new_token).0;
            let b = token_renewal_outcome(s, u, true, new_token).0;
            &&& a == b
            &&& a.users.contains_key(u)
            &&& a.users[u].yuzu_token == new_token
            &&& a.users[u].username == s.users[u].username
            &&& a.users[u].password_hash == s.users[u].password_hash
            &&& a.users[u].avatar_url == s.users[u].avatar_url
            &&& a.users[u].roles == s.users[u].roles
            &&& a.users[u].is_banned == s.users[u].is_banned
            &&& a.users[u].ban_reason == s.users[u].ban_reason
            &&& a.users.dom() == s.users.dom()
            &&& forall|k: Seq<char>| k != u && #[trigger] s.users.contains_key(k) ==> a.users[k] == s.users[k]
            &&& a.sessions == s.sessions
            &&& a.ban_words == s.ban_words
        }),
{
    let a = admin_token_outcome(s, u, new_token).0;
    assert(a.users.dom() =~= s.users.dom());
}

/// A successful login adds exactly one session, under the new id, for the account's
/// name, expiring an hour after `now`; every other session and every account stay as
/// they were.
pub proof fn law_login_adds_one_session(s: StateView, key: Seq<char>, now: i64, sid: Seq<char>)
    requires
        s.users.contains_key(key),
        !s.users[key].is_banned,
        now + session_lifetime() <= i64::MAX,
    ensures
        ({
            let (s2, r) = login_outcome(s, key, true, now, sid);
            &&& r.status == Status::Success
            &&& s2.sessions.contains_key(sid)
            &&& s2.sessions[sid].id == sid
            &&& s2.sessions[sid].username == s.users[key].username
            &&& s2.sessions[sid].expires_at == now + 3600
            &&& forall|k: Seq<char>| k != sid ==> (#[trigger] s2.sessions.contains_key(k) <==> s.sessions.contains_key(k))
            &&& forall|k: Seq<char>| k != sid && #[trigger] s.sessions.contains_key(k) ==> s2.sessions[k] == s.sessions[k]
            &&& s2.users == s.users
            &&& s2.ban_words == s.ban_words
        }),
{
}

/// The game server's own token goes exactly to an existing, unbanned account whose
/// current game token the request carries.
pub proof fn law_internal_token_needs_the_game_token(s: StateView, u: Seq<char>, t: Seq<char>)
    ensures
        internal_grant(s, Some(u), Some(t)) is Issue <==> (s.users.contains_key(u) && !s.users[u].is_banned
            && s.users[u].yuzu_token == t),
        internal_grant(s, Some(u), Some(t)) is Issue ==> internal_grant(s, Some(u), Some(t)) == GrantView::Issue(s.users[u]),
{
}

/// Adding a ban word keeps every listed word, in order, and appends the new word at the
/// end where it was not listed yet; nothing else of the state changes.
pub proof fn law_adding_a_word_keeps_the_others(s: StateView, w: Seq<char>)
    ensures
        ({
            let s2 = add_word_outcome(s, Some(Some(w))).0;
            &&& s2.ban_words.len() == s.ban_words.len() + (if s.ban_words.contains(w) { 0int } else { 1int })
            &&& forall|i: int| 0 <= i < s.ban_words.len() ==> #[trigger] s2.ban_words[i] == s.ban_words[i]
            &&& s2.ban_words.contains(w)
            &&& s2.users == s.users
            &&& s2.sessions == s.sessions
        }),
{
    let s2 = add_word_outcome(s, Some(Some(w))).0;
    if !s.ban_words.contains(w) {
        assert(s2.ban_words[s.ban_words.len() as int] == w);
    }
}

} // verus!
