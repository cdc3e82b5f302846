//! The account endpoints: registration, login, logout, the current user and the
//! renewal of a user's game token.

use vstd::prelude::*;
use vstd::utf8::encode_utf8;
use crate::models::{opt_string_view, Headers, Session, SessionView, User, UserView};
use crate::outside::{clock_reading, is_bcrypt_hash_text, is_uuid_text, bcrypt_hash, bcrypt_verify, new_uuid_text, now_timestamp, spec_bcrypt_verify, spec_regex_compiles, spec_regex_is_match, CompiledPattern};
use crate::rules::{name_banned, name_is_banned, username_acceptable, username_pattern, username_rule};
use crate::service::{error_reply, error_response, Body, BodyView, Persist, Response, ResponseView, StateView, Status, WebState};
use crate::text::{decimal, decimal_string};

verus! {

/// The view of an optional request body.
pub open spec fn payload_view(p: Option<User>) -> Option<UserView> {
    match p {
        Some(u) => Some(u@),
        None => None,
    }
}

/// An answer that writes nothing back.
pub open spec fn reply(status: Status, body: BodyView) -> ResponseView {
    ResponseView { status, body, persist: Persist::none() }
}

/// The state with a new account table.
pub open spec fn with_users(s: StateView, users: Map<Seq<char>, UserView>) -> StateView {
    StateView { users, ..s }
}

/// The state with a new session table.
pub open spec fn with_sessions(s: StateView, sessions: Map<Seq<char>, SessionView>) -> StateView {
    StateView { sessions, ..s }
}

/// Writing back only the account table.
pub open spec fn persist_users() -> Persist {
    Persist { users: true, sessions: false, ban_words: false }
}

/// Writing back only the session table.
pub open spec fn persist_sessions() -> Persist {
    Persist { users: false, sessions: true, ban_words: false }
}

// ---------------------------------------------------------------- current user

/// The answer to "who am I": the account of an unexpired session named by the token,
/// or 401 with no body.
pub open spec fn current_user_reply(s: StateView, token: Option<Seq<char>>, now: i64) -> ResponseView {
    match token {
        Some(t) => if s.sessions.contains_key(t) && now <= s.sessions[t].expires_at && s.users.contains_key(
            s.sessions[t].username,
        ) {
            reply(Status::Success, BodyView::Profile(s.users[s.sessions[t].username]))
        } else {
            reply(Status::Unauthorized, BodyView::Empty)
        },
        None => reply(Status::Unauthorized, BodyView::Empty),
    }
}

// ---------------------------------------------------------------- registration

/// The length in bytes of the UTF-8 encoding of a text, as `str::len` gives it.
pub open spec fn byte_length(s: Seq<char>) -> usize {
    encode_utf8(s).len() as usize
}

/// The refusal of an over-long password.
pub open spec fn password_too_long_message(max: nat) -> Seq<char> {
    "Password too long (max "@ + decimal(max) + " chars)"@
}

/// The refusal of a username that breaks the grammar.
pub open spec fn invalid_username_message(max: nat) -> Seq<char> {
    "Invalid Username. Allowed: a-z, 0-9, _, -, . (Max "@ + decimal(max)
        + " chars). No spaces or other symbols allowed."@
}

/// The refusal of a username that a ban word forbids.
pub open spec fn forbidden_word_message() -> Seq<char> {
    "Username contains a forbidden word. Do not attempt to bypass this restriction."@
}

/// Why a registration request is refused before any account is made, or `None` where
/// it passes every check: a readable body, a password of at most the configured number
/// of bytes, a username that matches the username rule, no ban word, no existing account.
pub open spec fn registration_refusal(s: StateView, payload: Option<UserView>) -> Option<ResponseView> {
    match payload {
        None => Some(error_reply(Status::BadRequest, "Invalid JSON"@)),
        Some(p) => if byte_length(p.password_hash) > s.limits.max_password_length {
            Some(error_reply(Status::BadRequest, password_too_long_message(s.limits.max_password_length as nat)))
        } else if !spec_regex_is_match(username_pattern(s.limits.max_username_length as nat), p.username) {
            Some(error_reply(Status::BadRequest, invalid_username_message(s.limits.max_username_length as nat)))
        } else if name_banned(s.ban_words, p.username) {
            Some(error_reply(Status::BadRequest, forbidden_word_message()))
        } else if s.users.contains_key(p.username) {
            Some(error_reply(Status::Conflict, "User exists"@))
        } else {
            None
        },
    }
}

/// The account that a successful registration stores: the requested name and avatar,
/// the hashed password, a fresh game token, no roles, not banned.
pub open spec fn registered_account(p: UserView, token: Seq<char>, hash: Seq<char>) -> UserView {
    UserView {
        username: p.username,
        password_hash: hash,
        yuzu_token: token,
        avatar_url: p.avatar_url,
        roles: Seq::empty(),
        is_banned: false,
        ban_reason: None,
    }
}

/// The end of a registration that passed its checks, given the new game token and the
/// password hash (`None` where hashing failed).
pub open spec fn registration_outcome(s: StateView, p: UserView, token: Seq<char>, hash: Option<Seq<char>>) -> (StateView, ResponseView) {
    match hash {
        None => (s, error_reply(Status::InternalServerError, "Password Hash Failed"@)),
        Some(h) => (
            with_users(s, s.users.insert(p.username, registered_account(p, token, h))),
            ResponseView { status: Status::Success, body: BodyView::Profile(p), persist: persist_users() },
        ),
    }
}

/// What registration does with a request, from state `s` to state `s2` with answer
/// `r`: a refused request changes nothing; an accepted one ends as
/// [`registration_outcome`] says, for some fresh game token and some password hash
/// (absent where hashing failed) that has bcrypt's form and verifies against the
/// password.
pub open spec fn registration_result(s: StateView, payload: Option<UserView>, s2: StateView, r: ResponseView) -> bool {
    match registration_refusal(s, payload) {
        Some(refusal) => s2 == s && r == refusal,
        None => exists|token: Seq<char>, hash: Option<Seq<char>>|
            {
                &&& is_uuid_text(token)
                &&& (hash matches Some(h) ==> spec_bcrypt_verify(payload->0.password_hash, h) == Some(true))
                &&& (hash matches Some(h) ==> is_bcrypt_hash_text(h))
                &&& (s2, r) == registration_outcome(s, payload->0, token, hash)
            },
    }
}

/// A registration request as the service handles it, compiling the username rule
/// itself: an unreadable body and an over-long password are refused before the rule is
/// compiled; where the rule for the configured limit does not compile, the request is
/// answered 500 with no body and nothing changes; otherwise as [`registration_result`].
pub open spec fn registration_request_result(s: StateView, payload: Option<UserView>, s2: StateView, r: ResponseView) -> bool {
    match payload {
        Some(p) => if byte_length(p.password_hash) <= s.limits.max_password_length && !spec_regex_compiles(
            username_pattern(s.limits.max_username_length as nat),
        ) {
            s2 == s && r == reply(Status::InternalServerError, BodyView::Empty)
        } else {
            registration_result(s, payload, s2, r)
        },
        None => registration_result(s, payload, s2, r),
    }
}

// ---------------------------------------------------------------- login

/// How long a login session lasts, in seconds.
pub open spec fn session_lifetime() -> int {
    3600
}

/// The end of a login for account key `key`, given whether the password verified, the
/// time `now` and the new session id `sid`.
pub open spec fn login_outcome(s: StateView, key: Seq<char>, password_ok: bool, now: i64, sid: Seq<char>) -> (StateView, ResponseView) {
    if !s.users.contains_key(key) || !password_ok {
        (s, error_reply(Status::Unauthorized, "Invalid Credentials"@))
    } else if s.users[key].is_banned {
        (
            s,
            reply(
                Status::Forbidden,
                BodyView::BannedUser {
                    reason: match s.users[key].ban_reason {
                        Some(r) => r,
                        None => "No reason provided"@,
                    },
                },
            ),
        )
    } else {
        (
            with_sessions(
                s,
                s.sessions.insert(
                    sid,
                    SessionView { id: sid, username: s.users[key].username, expires_at: (now + session_lifetime()) as i64 },
                ),
            ),
            ResponseView {
                status: Status::Success,
                body: BodyView::LoggedIn { user: s.users[key], session_id: sid },
                persist: persist_sessions(),
            },
        )
    }
}

/// Whether `password` verifies against the stored hash of account `key`.
pub open spec fn password_verifies(s: StateView, key: Seq<char>, password: Seq<char>) -> bool {
    s.users.contains_key(key) && spec_bcrypt_verify(password, s.users[key].password_hash) == Some(true)
}

/// The whole of a login request at time `now` with new session id `sid`.
pub open spec fn login_request_outcome(s: StateView, payload: Option<UserView>, now: i64, sid: Seq<char>) -> (StateView, ResponseView) {
    match payload {
        None => (s, error_reply(Status::BadRequest, "Invalid JSON"@)),
        Some(p) => login_outcome(s, p.username, password_verifies(s, p.username, p.password_hash), now, sid),
    }
}

/// A bound on timestamps loose enough to hold every clock reading (see
/// [`clock_reading`]) and tight enough that a session's expiry, an hour later, fits in
/// an `i64`.
pub open spec fn clock_in_range(now: i64) -> bool {
    -17_592_186_044_416 <= now <= 17_592_186_044_416
}

// ---------------------------------------------------------------- logout

/// Logging out removes the session that the token names, if a token is given.
pub open spec fn logout_outcome(s: StateView, token: Option<Seq<char>>) -> (StateView, ResponseView) {
    match token {
        None => (s, reply(Status::Success, BodyView::Text("Logged out"@))),
        Some(t) => (
            with_sessions(s, s.sessions.remove(t)),
            ResponseView { status: Status::Success, body: BodyView::Text("Logged out"@), persist: persist_sessions() },
        ),
    }
}

// ---------------------------------------------------------------- token renewal

/// The body of a token-renewal request: the password, where the body has a string
/// field `password`.
#[derive(Debug)]
pub struct PasswordBody {
    pub password: Option<String>,
}

/// The view of an optional [`PasswordBody`].
pub open spec fn password_body_view(b: Option<PasswordBody>) -> Option<Option<Seq<char>>> {
    match b {
        Some(pb) => Some(opt_string_view(pb.password)),
        None => None,
    }
}

/// Account `key` with game token `token`.
pub open spec fn with_token(u: UserView, token: Seq<char>) -> UserView {
    UserView { yuzu_token: token, ..u }
}

/// The end of a token renewal for account `username`, given whether the password
/// verified and the new token.
pub open spec fn token_renewal_outcome(s: StateView, username: Seq<char>, password_ok: bool, new_token: Seq<char>) -> (StateView, ResponseView) {
    if !s.users.contains_key(username) {
        (s, error_reply(Status::NotFound, "User not found"@))
    } else if !password_ok {
        (s, error_reply(Status::Unauthorized, "Invalid password"@))
    } else {
        (
            with_users(s, s.users.insert(username, with_token(s.users[username], new_token))),
            ResponseView { status: Status::Success, body: BodyView::NewToken { yuzu_token: new_token }, persist: persist_users() },
        )
    }
}

/// The whole of a token-renewal request with new token `new_token`.
pub open spec fn renewal_request_outcome(s: StateView, token: Option<Seq<char>>, payload: Option<Option<Seq<char>>>, new_token: Seq<char>) -> (StateView, ResponseView) {
    match payload {
        None => (s, error_reply(Status::BadRequest, "Invalid JSON"@)),
        Some(None) => (s, error_reply(Status::BadRequest, "Password required"@)),
        Some(Some(pw)) => match token {
            None => (s, error_reply(Status::Unauthorized, "Not logged in"@)),
            Some(t) => if !s.sessions.contains_key(t) {
                (s, error_reply(Status::Unauthorized, "Invalid session"@))
            } else {
                let u = s.sessions[t].username;
                token_renewal_outcome(s, u, password_verifies(s, u, pw), new_token)
            },
        },
    }
}

impl WebState {
    /// Sets the game token of account `key`, if there is one; says whether there was.
    pub fn set_user_token(&mut self, key: &String, token: String) -> (found: bool)
        requires
            old(self).wf(),
        ensures
            final(self).wf(),
            found == old(self)@.users.contains_key(key@),
            final(self)@ == if found {
                with_users(old(self)@, old(self)@.users.insert(key@, with_token(old(self)@.users[key@], token@)))
            } else {
                old(self)@
            },
    {
        match self.users.remove(key) {
            Some(u) => {
                let mut u = u;
                u.yuzu_token = token;
                self.users.insert(key.clone(), u);
                assert(self.users@ =~= old(self).users@.insert(key@, with_token(old(self)@.users[key@], token@)));
                true
            },
            None => {
                assert(self.users@ =~= old(self).users@);
                false
            },
        }
    }

    /// "Who am I" at time `now`.
    pub fn get_current_user_at(&self, headers: &Headers, now: i64) -> (r: Response)
        requires
            self.wf(),
        ensures
            r@ == current_user_reply(self@, opt_string_view(headers.session_token), now),
    {
        let denied = Response {
            status: Status::Unauthorized,
            body: Body::Empty,
            persist: Persist { users: false, sessions: false, ban_words: false },
        };
        let token = match &headers.session_token {
            Some(t) => t,
            None => return denied,
        };
        let session = match self.sessions.get(token) {
            Some(s) => s,
            None => return denied,
        };
        if now <= session.expires_at {
            if let Some(user) = self.users.get(&session.username) {
                return Response {
                    status: Status::Success,
                    body: Body::Profile(user.duplicate()),
                    persist: Persist { users: false, sessions: false, ban_words: false },
                };
            }
        }
        denied
    }

    /// "Who am I", at the current time.
    pub fn get_current_user(&self, headers: &Headers) -> (r: Response)
        requires
            self.wf(),
        ensures
            exists|now: i64| clock_reading(now) && r@ == current_user_reply(self@, opt_string_view(headers.session_token), now),
    {
        let now = now_timestamp();
        self.get_current_user_at(headers, now)
    }

    /// Stores the account of a registration that passed its checks, given the new game
    /// token and the password hash (`None` where hashing failed).
    pub fn finish_registration(&mut self, payload: User, yuzu_token: String, hash: Option<String>) -> (r: Response)
        requires
            old(self).wf(),
        ensures
            final(self).wf(),
            (final(self)@, r@) == registration_outcome(old(self)@, payload@, yuzu_token@, opt_string_view(hash)),
    {
        match hash {
            None => error_response(Status::InternalServerError, "Password Hash Failed"),
            Some(h) => {
                let account = User {
                    username: payload.username.clone(),
                    password_hash: h,
                    yuzu_token,
                    avatar_url: payload.avatar_url.clone(),
                    roles: Vec::new(),
                    is_banned: false,
                    ban_reason: None,
                };
                assert(account@.roles =~= Seq::<Seq<char>>::empty());
                let key = payload.username.clone();
                self.users.insert(key, account);
                Response {
                    status: Status::Success,
                    body: Body::Profile(payload),
                    persist: Persist { users: true, sessions: false, ban_words: false },
                }
            },
        }
    }

    /// The refusal of an over-long password.
    fn password_refusal(&self) -> (r: Response)
        ensures
            r@ == error_reply(Status::BadRequest, password_too_long_message(self.max_password_length as nat)),
    {
        let mut m = String::from_str("Password too long (max ");
        let n = decimal_string(self.max_password_length);
        m.append(n.as_str());
        m.append(" chars)");
        Response { status: Status::BadRequest, body: Body::Error(m), persist: Persist { users: false, sessions: false, ban_words: false } }
    }

    /// The checks of a registration request, in the order the service makes them.
    fn registration_check(&self, rule: &CompiledPattern, payload: &User) -> (r: Option<Response>)
        requires
            self.wf(),
            rule.source() == username_pattern(self.max_username_length as nat),
        ensures
            r matches Some(resp) ==> registration_refusal(self@, Some(payload@)) == Some(resp@),
            r is None ==> registration_refusal(self@, Some(payload@)) is None,
    {
        if payload.password_hash.as_str().len() > self.max_password_length {
            return Some(self.password_refusal());
        }
        if !username_acceptable(rule, &payload.username) {
            let mut m = String::from_str("Invalid Username. Allowed: a-z, 0-9, _, -, . (Max ");
            let n = decimal_string(self.max_username_length);
            m.append(n.as_str());
            m.append(" chars). No spaces or other symbols allowed.");
            return Some(Response { status: Status::BadRequest, body: Body::Error(m), persist: Persist { users: false, sessions: false, ban_words: false } });
        }
        if name_is_banned(&self.ban_words.words, &payload.username) {
            return Some(
                error_response(
                    Status::BadRequest,
                    "Username contains a forbidden word. Do not attempt to bypass this restriction.",
                ),
            );
        }
        if self.users.contains_key(&payload.username) {
            return Some(error_response(Status::Conflict, "User exists"));
        }
        None
    }

    /// Registration: checks the request, then stores a new account with a fresh game
    /// token and the bcrypt hash of the password. The username rule must be the one
    /// compiled for this state's username limit.
    pub fn register_user(&mut self, rule: &CompiledPattern, payload: Option<User>) -> (r: Response)
        requires
            old(self).wf(),
            rule.source() == username_pattern(old(self).max_username_length as nat),
        ensures
            final(self).wf(),
            registration_result(old(self)@, payload_view(payload), final(self)@, r@),
    {
        let payload = match payload {
            Some(p) => p,
            None => return error_response(Status::BadRequest, "Invalid JSON"),
        };
        if let Some(refusal) = self.registration_check(rule, &payload) {
            return refusal;
        }
        let yuzu_token = new_uuid_text();
        let hash = match bcrypt_hash(&payload.password_hash) {
            Ok(h) => Some(h),
            Err(_) => None,
        };
        let ghost token_view = yuzu_token@;
        let ghost hash_view = opt_string_view(hash);
        let r = self.finish_registration(payload, yuzu_token, hash);
        assert(is_uuid_text(token_view));
        r
    }

    /// Registration as the service handles a request: compiles the username rule for
    /// this state's limit once the body and the password length have been checked.
    pub fn register_request(&mut self, payload: Option<User>) -> (r: Response)
        requires
            old(self).wf(),
        ensures
            final(self).wf(),
            registration_request_result(old(self)@, payload_view(payload), final(self)@, r@),
    {
        let payload = match payload {
            Some(p) => p,
            None => return error_response(Status::BadRequest, "Invalid JSON"),
        };
        if payload.password_hash.as_str().len() > self.max_password_length {
            return self.password_refusal();
        }
        match username_rule(self.max_username_length) {
            Some(rule) => self.register_user(&rule, Some(payload)),
            None => Response {
                status: Status::InternalServerError,
                body: Body::Empty,
                persist: Persist { users: false, sessions: false, ban_words: false },
            },
        }
    }

    /// The end of a login for account key `key`, given whether the password verified,
    /// the time `now` and the new session id.
    pub fn complete_login(&mut self, key: &String, password_ok: bool, now: i64, session_id: String) -> (r: Response)
        requires
            old(self).wf(),
            clock_in_range(now),
        ensures
            final(self).wf(),
            (final(self)@, r@) == login_outcome(old(self)@, key@, password_ok, now, session_id@),
    {
        if !password_ok {
            return error_response(Status::Unauthorized, "Invalid Credentials");
        }
        let user = match self.users.get(key) {
            Some(u) => u,
            None => return error_response(Status::Unauthorized, "Invalid Credentials"),
        };
        if user.is_banned {
            let reason = match &user.ban_reason {
                Some(r) => r.clone(),
                None => String::from_str("No reason provided"),
            };
            return Response {
                status: Status::Forbidden,
                body: Body::BannedUser { reason },
                persist: Persist { users: false, sessions: false, ban_words: false },
            };
        }
        let shown = user.duplicate();
        let session = Session { id: session_id.clone(), username: user.username.clone(), expires_at: now + 3600 };
        let sid = session_id.clone();
        self.sessions.insert(sid, session);
        Response {
            status: Status::Success,
            body: Body::LoggedIn { user: shown, session_id },
            persist: Persist { users: false, sessions: true, ban_words: false },
        }
    }

    /// Login at time `now` with new session id `session_id`: checks the password with
    /// bcrypt against the stored hash.
    pub fn login_web_at(&mut self, payload: Option<User>, now: i64, session_id: String) -> (r: Response)
        requires
            old(self).wf(),
            clock_in_range(now),
        ensures
            final(self).wf(),
            (final(self)@, r@) == login_request_outcome(old(self)@, payload_view(payload), now, session_id@),
    {
        let payload = match payload {
            Some(p) => p,
            None => return error_response(Status::BadRequest, "Invalid JSON"),
        };
        let password_ok = match self.users.get(&payload.username) {
            Some(user) => match bcrypt_verify(&payload.password_hash, &user.password_hash) {
                Ok(b) => b,
                Err(_) => false,
            },
            None => false,
        };
        self.complete_login(&payload.username, password_ok, now, session_id)
    }

    /// Login at the current time, with a fresh random session id.
    pub fn login_web(&mut self, payload: Option<User>) -> (r: Response)
        requires
            old(self).wf(),
        ensures
            final(self).wf(),
            exists|now: i64, sid: Seq<char>|
                clock_reading(now) && is_uuid_text(sid) && (final(self)@, r@) == login_request_outcome(
                    old(self)@,
                    payload_view(payload),
                    now,
                    sid,
                ),
    {
        let now = now_timestamp();
        let sid = new_uuid_text();
        let ghost sid_view = sid@;
        let r = self.login_web_at(payload, now, sid);
        assert(is_uuid_text(sid_view));
        r
    }

    /// Logout: removes the session that the token names.
    pub fn logout_user(&mut self, headers: &Headers) -> (r: Response)
        requires
            old(self).wf(),
        ensures
            final(self).wf(),
            (final(self)@, r@) == logout_outcome(old(self)@, opt_string_view(headers.session_token)),
    {
        match &headers.session_token {
            Some(t) => {
                let _ = self.sessions.remove(t);
                Response {
                    status: Status::Success,
                    body: Body::Text(String::from_str("Logged out")),
                    persist: Persist { users: false, sessions: true, ban_words: false },
                }
            },
            None => Response {
                status: Status::Success,
                body: Body::Text(String::from_str("Logged out")),
                persist: Persist { users: false, sessions: false, ban_words: false },
            },
        }
    }

    /// The end of a token renewal for account `username`, given whether the password
    /// verified and the new token.
    pub fn complete_token_renewal(&mut self, username: &String, password_ok: bool, new_token: String) -> (r: Response)
        requires
            old(self).wf(),
        ensures
            final(self).wf(),
            (final(self)@, r@) == token_renewal_outcome(old(self)@, username@, password_ok, new_token@),
    {
        if !self.users.contains_key(username) {
            return error_response(Status::NotFound, "User not found");
        }
        if !password_ok {
            return error_response(Status::Unauthorized, "Invalid password");
        }
        let shown = new_token.clone();
        let _ = self.set_user_token(username, new_token);
        Response {
            status: Status::Success,
            body: Body::NewToken { yuzu_token: shown },
            persist: Persist { users: true, sessions: false, ban_words: false },
        }
    }

    /// Token renewal with new token `new_token`: the session's account, after its
    /// password verifies with bcrypt, gets the new game token.
    pub fn regenerate_token_with(&mut self, headers: &Headers, payload: Option<PasswordBody>, new_token: String) -> (r: Response)
        requires
            old(self).wf(),
        ensures
            final(self).wf(),
            (final(self)@, r@) == renewal_request_outcome(
                old(self)@,
                opt_string_view(headers.session_token),
                password_body_view(payload),
                new_token@,
            ),
    {
        let body = match payload {
            Some(b) => b,
            None => return error_response(Status::BadRequest, "Invalid JSON"),
        };
        let password = match body.password {
            Some(p) => p,
            None => return error_response(Status::BadRequest, "Password required"),
        };
        let token = match &headers.session_token {
            Some(t) => t,
            None => return error_response(Status::Unauthorized, "Not logged in"),
        };
        let username = match self.sessions.get(token) {
            Some(session) => session.username.clone(),
            None => return error_response(Status::Unauthorized, "Invalid session"),
        };
        let password_ok = match self.users.get(&username) {
            Some(user) => match bcrypt_verify(&password, &user.password_hash) {
                Ok(b) => b,
                Err(_) => false,
            },
            None => false,
        };
        self.complete_token_renewal(&username, password_ok, new_token)
    }

    /// Token renewal with a fresh random token.
    pub fn regenerate_token(&mut self, headers: &Headers, payload: Option<PasswordBody>) -> (r: Response)
        requires
            old(self).wf(),
        ensures
            final(self).wf(),
            exists|new_token: Seq<char>|
                is_uuid_text(new_token) && (final(self)@, r@) == renewal_request_outcome(
                    old(self)@,
                    opt_string_view(headers.session_token),
                    password_body_view(payload),
                    new_token,
                ),
    {
        let new_token = new_uuid_text();
        let ghost t = new_token@;
        let r = self.regenerate_token_with(headers, payload, new_token);
        assert(is_uuid_text(t));
        r
    }
}

} // verus!
