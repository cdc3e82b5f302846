//! The moderation endpoints. Each first runs the admin check; a refused request
//! changes nothing and is answered with the check's status and message.

use vstd::prelude::*;
use crate::accounts::{persist_sessions, persist_users, reply, with_sessions, with_token, with_users};
use crate::models::{opt_string_view, strings_view, Headers, SessionView, UserView};
use crate::outside::{clock_reading, is_uuid_text, new_uuid_text, now_timestamp, parse_uuid, spec_uuid_parse};
use crate::rooms::RoomRegistry;
use crate::service::{
    admin_denial, error_reply, error_response, Body, BodyView, Persist, Response, ResponseView, RoomInfoView,
    StateView, Status, WebState,
};
use crate::table::{assoc, lemma_assoc_at, lemma_assoc_dom, pairs_of};

verus! {

/// A moderation request: refused as the admin check says, else `inner`.
pub open spec fn guarded(s: StateView, token: Option<Seq<char>>, now: i64, inner: (StateView, ResponseView)) -> (StateView, ResponseView) {
    match admin_denial(s, token, now) {
        Some((st, m)) => (s, error_reply(st, m)),
        None => inner,
    }
}

/// The answer of a refused moderation request.
pub open spec fn refusal(s: StateView, token: Option<Seq<char>>, now: i64) -> ResponseView {
    match admin_denial(s, token, now) {
        Some((st, m)) => error_reply(st, m),
        None => reply(Status::Success, BodyView::Empty),
    }
}

/// The sessions that do not belong to account name `username`.
pub open spec fn sessions_without(m: Map<Seq<char>, SessionView>, username: Seq<char>) -> Map<Seq<char>, SessionView> {
    Map::new(|k: Seq<char>| m.contains_key(k) && m[k].username != username, |k: Seq<char>| m[k])
}

/// The body of a ban request: the account key, whether to ban (absent means yes), and
/// the reason.
#[derive(Debug)]
pub struct BanBody {
    pub username: Option<String>,
    pub banned: Option<bool>,
    pub reason: Option<String>,
}

/// The mathematical value of a [`BanBody`].
pub struct BanBodyView {
    pub username: Option<Seq<char>>,
    pub banned: Option<bool>,
    pub reason: Option<Seq<char>>,
}

/// The view of an optional [`BanBody`].
pub open spec fn ban_body_view(b: Option<BanBody>) -> Option<BanBodyView> {
    match b {
        Some(x) => Some(
            BanBodyView { username: opt_string_view(x.username), banned: x.banned, reason: opt_string_view(x.reason) },
        ),
        None => None,
    }
}

/// Account `u` with its ban flag and reason set; lifting a ban clears the reason.
pub open spec fn with_ban(u: UserView, ban: bool, reason: Option<Seq<char>>) -> UserView {
    UserView { is_banned: ban, ban_reason: if ban { reason } else { None }, ..u }
}

/// A ban or unban, once the admin check has passed. A ban also ends every session of
/// the account's name.
pub open spec fn ban_outcome(s: StateView, payload: Option<BanBodyView>) -> (StateView, ResponseView) {
    match payload {
        None => (s, error_reply(Status::BadRequest, "Invalid JSON"@)),
        Some(b) => match b.username {
            None => (s, error_reply(Status::BadRequest, "Missing username"@)),
            Some(t) => {
                let ban = match b.banned {
                    Some(x) => x,
                    None => true,
                };
                if !s.users.contains_key(t) {
                    (s, error_reply(Status::BadRequest, "User not found"@))
                } else {
                    let s1 = with_users(s, s.users.insert(t, with_ban(s.users[t], ban, b.reason)));
                    if ban {
                        (
                            with_sessions(s1, sessions_without(s.sessions, t)),
                            ResponseView {
                                status: Status::Success,
                                body: BodyView::Success,
                                persist: Persist { users: true, sessions: true, ban_words: false },
                            },
                        )
                    } else {
                        (s1, ResponseView { status: Status::Success, body: BodyView::Success, persist: persist_users() })
                    }
                }
            },
        },
    }
}

/// An admin's renewal of account `username`'s game token to `new_token`.
pub open spec fn admin_token_outcome(s: StateView, username: Seq<char>, new_token: Seq<char>) -> (StateView, ResponseView) {
    if s.users.contains_key(username) {
        (
            with_users(s, s.users.insert(username, with_token(s.users[username], new_token))),
            ResponseView {
                status: Status::Success,
                body: BodyView::AdminNewToken { username, yuzu_token: new_token },
                persist: persist_users(),
            },
        )
    } else {
        (s, error_reply(Status::NotFound, "User not found"@))
    }
}

/// The body of a ban-word request: the word, where the body has a string field `word`.
#[derive(Debug)]
pub struct WordBody {
    pub word: Option<String>,
}

/// The view of an optional [`WordBody`].
pub open spec fn word_body_view(b: Option<WordBody>) -> Option<Option<Seq<char>>> {
    match b {
        Some(x) => Some(opt_string_view(x.word)),
        None => None,
    }
}

/// The state with a new ban-word list.
pub open spec fn with_ban_words(s: StateView, words: Seq<Seq<char>>) -> StateView {
    StateView { ban_words: words, ..s }
}

/// Adding a ban word, once the admin check has passed: a word already listed is not
/// listed again.
pub open spec fn add_word_outcome(s: StateView, payload: Option<Option<Seq<char>>>) -> (StateView, ResponseView) {
    match payload {
        None => (s, error_reply(Status::BadRequest, "Invalid JSON"@)),
        Some(None) => (s, error_reply(Status::BadRequest, "Missing word"@)),
        Some(Some(w)) => if s.ban_words.contains(w) {
            (s, reply(Status::Success, BodyView::Success))
        } else {
            (
                with_ban_words(s, s.ban_words.push(w)),
                ResponseView {
                    status: Status::Success,
                    body: BodyView::Success,
                    persist: Persist { users: false, sessions: false, ban_words: true },
                },
            )
        },
    }
}

/// The list without any occurrence of `w`, the rest in order.
pub open spec fn without_word(ws: Seq<Seq<char>>, w: Seq<char>) -> Seq<Seq<char>>
    decreases ws.len(),
{
    if ws.len() == 0 {
        ws
    } else if ws.last() == w {
        without_word(ws.drop_last(), w)
    } else {
        without_word(ws.drop_last(), w).push(ws.last())
    }
}

/// Removing a ban word, once the admin check has passed: every occurrence goes.
pub open spec fn remove_word_outcome(s: StateView, payload: Option<Option<Seq<char>>>) -> (StateView, ResponseView) {
    match payload {
        None => (s, error_reply(Status::BadRequest, "Invalid JSON"@)),
        Some(None) => (s, error_reply(Status::BadRequest, "Missing word"@)),
        Some(Some(w)) => (
            with_ban_words(s, without_word(s.ban_words, w)),
            ResponseView {
                status: Status::Success,
                body: BodyView::Success,
                persist: Persist { users: false, sessions: false, ban_words: true },
            },
        ),
    }
}

/// Ending session `id`, once the admin check has passed.
pub open spec fn revoke_outcome(s: StateView, id: Seq<char>) -> (StateView, ResponseView) {
    if s.sessions.contains_key(id) {
        (
            with_sessions(s, s.sessions.remove(id)),
            ResponseView { status: Status::Success, body: BodyView::Success, persist: persist_sessions() },
        )
    } else {
        (s, error_reply(Status::NotFound, "Session not found"@))
    }
}

/// Closing a room, given the id read from the request (`None` where it is no UUID).
pub open spec fn delete_room_outcome(rooms: Map<u128, RoomInfoView>, id: Option<u128>) -> (Map<u128, RoomInfoView>, ResponseView) {
    match id {
        None => (rooms, error_reply(Status::BadRequest, "Invalid ID"@)),
        Some(v) => if rooms.contains_key(v) {
            (rooms.remove(v), reply(Status::Success, BodyView::Success))
        } else {
            (rooms, error_reply(Status::NotFound, "Room not found"@))
        },
    }
}

/// The body of a room edit: a new name and a new description, each where the body has
/// that string field.
#[derive(Debug)]
pub struct RoomPatch {
    pub name: Option<String>,
    pub description: Option<String>,
}

/// The mathematical value of a [`RoomPatch`].
pub struct RoomPatchView {
    pub name: Option<Seq<char>>,
    pub description: Option<Seq<char>>,
}

/// The view of an optional [`RoomPatch`].
pub open spec fn room_patch_view(p: Option<RoomPatch>) -> Option<RoomPatchView> {
    match p {
        Some(x) => Some(RoomPatchView { name: opt_string_view(x.name), description: opt_string_view(x.description) }),
        None => None,
    }
}

/// A room after an edit: each field the edit gives is replaced.
pub open spec fn patched(r: RoomInfoView, p: RoomPatchView) -> RoomInfoView {
    RoomInfoView {
        name: match p.name {
            Some(n) => n,
            None => r.name,
        },
        description: match p.description {
            Some(d) => d,
            None => r.description,
        },
    }
}

/// Editing a room, given the request body and the id read from the request.
pub open spec fn update_room_outcome(rooms: Map<u128, RoomInfoView>, payload: Option<RoomPatchView>, id: Option<u128>) -> (Map<u128, RoomInfoView>, ResponseView) {
    match payload {
        None => (rooms, error_reply(Status::BadRequest, "Invalid JSON"@)),
        Some(p) => match id {
            None => (rooms, error_reply(Status::BadRequest, "Invalid ID"@)),
            Some(v) => if rooms.contains_key(v) {
                (rooms.insert(v, patched(rooms[v], p)), reply(Status::Success, BodyView::Room(patched(rooms[v], p))))
            } else {
                (rooms, error_reply(Status::NotFound, "Room not found"@))
            },
        },
    }
}

/// A listing answer that writes nothing back.
pub open spec fn listing(s: StateView, body: BodyView) -> (StateView, ResponseView) {
    (s, reply(Status::Success, body))
}

impl WebState {
    /// The admin check at the current time, as the moderation endpoints run it.
    pub fn check_admin(&self, headers: &Headers) -> (r: Result<(), (Status, String)>)
        requires
            self.wf(),
        ensures
            exists|now: i64| clock_reading(now) && match r {
                Ok(()) => admin_denial(self@, opt_string_view(headers.session_token), now) is None,
                Err((st, m)) => admin_denial(self@, opt_string_view(headers.session_token), now) == Some((st, m@)),
            },
    {
        let now = now_timestamp();
        self.check_admin_at(headers, now)
    }

    fn admin_gate(&self, headers: &Headers, now: i64) -> (r: Option<Response>)
        requires
            self.wf(),
        ensures
            r is None <==> admin_denial(self@, opt_string_view(headers.session_token), now) is None,
            r matches Some(resp) ==> resp@ == refusal(self@, opt_string_view(headers.session_token), now),
    {
        match self.check_admin_at(headers, now) {
            Ok(()) => None,
            Err((st, m)) => Some(
                Response { status: st, body: Body::Error(m), persist: Persist { users: false, sessions: false, ban_words: false } },
            ),
        }
    }

    fn listing_response(body: Body) -> (r: Response)
        ensures
            r@ == reply(Status::Success, body@),
    {
        Response { status: Status::Success, body, persist: Persist { users: false, sessions: false, ban_words: false } }
    }

    /// The account table, for admins, at time `now`.
    pub fn get_users_at(&self, headers: &Headers, now: i64) -> (r: Response)
        requires
            self.wf(),
        ensures
            (self@, r@) == guarded(self@, opt_string_view(headers.session_token), now, listing(self@, BodyView::UserList)),
    {
        if let Some(refused) = self.admin_gate(headers, now) {
            return refused;
        }
        Self::listing_response(Body::UserList)
    }

    /// The account table, for admins.
    pub fn get_users(&self, headers: &Headers) -> (r: Response)
        requires
            self.wf(),
        ensures
            exists|now: i64|
                clock_reading(now) && (self@, r@) == guarded(self@, opt_string_view(headers.session_token), now, listing(self@, BodyView::UserList)),
    {
        let now = now_timestamp();
        self.get_users_at(headers, now)
    }

    /// The ban-word list, for admins, at time `now`.
    pub fn get_ban_words_at(&self, headers: &Headers, now: i64) -> (r: Response)
        requires
            self.wf(),
        ensures
            (self@, r@) == guarded(self@, opt_string_view(headers.session_token), now, listing(self@, BodyView::BanWordList)),
    {
        if let Some(refused) = self.admin_gate(headers, now) {
            return refused;
        }
        Self::listing_response(Body::BanWordList)
    }

    /// The ban-word list, for admins.
    pub fn get_ban_words(&self, headers: &Headers) -> (r: Response)
        requires
            self.wf(),
        ensures
            exists|now: i64|
                clock_reading(now) && (self@, r@) == guarded(self@, opt_string_view(headers.session_token), now, listing(self@, BodyView::BanWordList)),
    {
        let now = now_timestamp();
        self.get_ban_words_at(headers, now)
    }

    /// The session table, for admins, at time `now`.
    pub fn get_sessions_at(&self, headers: &Headers, now: i64) -> (r: Response)
        requires
            self.wf(),
        ensures
            (self@, r@) == guarded(self@, opt_string_view(headers.session_token), now, listing(self@, BodyView::SessionList)),
    {
        if let Some(refused) = self.admin_gate(headers, now) {
            return refused;
        }
        Self::listing_response(Body::SessionList)
    }

    /// The session table, for admins.
    pub fn get_sessions(&self, headers: &Headers) -> (r: Response)
        requires
            self.wf(),
        ensures
            exists|now: i64|
                clock_reading(now) && (self@, r@) == guarded(self@, opt_string_view(headers.session_token), now, listing(self@, BodyView::SessionList)),
    {
        let now = now_timestamp();
        self.get_sessions_at(headers, now)
    }

    /// Ends every session whose account name is `username`.
    pub fn end_sessions_of(&mut self, username: &String)
        requires
            old(self).wf(),
        ensures
            final(self).wf(),
            final(self)@ == with_sessions(old(self)@, sessions_without(old(self)@.sessions, username@)),
    {
        let entries = self.sessions.entries();
        let ghost p = pairs_of(entries@);
        let mut doomed: Vec<String> = Vec::new();
        let mut i: usize = 0;
        while i < entries.len()
            invariant
                i <= entries@.len(),
                p == pairs_of(entries@),
                crate::table::keys_unique(p),
                assoc(p) == self.sessions@,
                forall|k: Seq<char>| #[trigger] strings_view(doomed@).contains(k) <==> exists|j: int|
                    0 <= j < i && p[j].0 == k && p[j].1.username == username@,
            decreases entries@.len() - i,
        {
            if entries[i].value.username.eq(username) {
                let ghost before = strings_view(doomed@);
                doomed.push(entries[i].key.clone());
                proof {
                    assert(strings_view(doomed@) =~= before.push(entries@[i as int].key@));
                    assert forall|k: Seq<char>| #[trigger] strings_view(doomed@).contains(k) <==> exists|j: int|
                        0 <= j < i + 1 && p[j].0 == k && p[j].1.username == username@ by {
                        if strings_view(doomed@).contains(k) && !before.contains(k) {
                            assert(p[i as int].0 == k);
                        }
                        if exists|j: int| 0 <= j < i + 1 && p[j].0 == k && p[j].1.username == username@ {
                            let j = choose|j: int| 0 <= j < i + 1 && p[j].0 == k && p[j].1.username == username@;
                            if j == i {
                                assert(strings_view(doomed@)[before.len() as int] == k);
                            } else {
                                assert(before.contains(k));
                                let m = choose|m: int| 0 <= m < before.len() && before[m] == k;
                                assert(strings_view(doomed@)[m] == k);
                            }
                        }
                        if strings_view(doomed@).contains(k) && before.contains(k) {
                            assert(exists|j: int| 0 <= j < i && p[j].0 == k && p[j].1.username == username@);
                        }
                    }
                }
            } else {
                proof {
                    assert forall|k: Seq<char>| #[trigger] strings_view(doomed@).contains(k) <==> exists|j: int|
                        0 <= j < i + 1 && p[j].0 == k && p[j].1.username == username@ by {
                        if exists|j: int| 0 <= j < i + 1 && p[j].0 == k && p[j].1.username == username@ {
                            let j = choose|j: int| 0 <= j < i + 1 && p[j].0 == k && p[j].1.username == username@;
                            assert(j != i);
                        }
                    }
                }
            }
            i = i + 1;
        }
        let ghost old_sessions = self.sessions@;
        self.sessions.remove_all(&doomed);
        proof {
            let doomed_set = strings_view(doomed@).to_set();
            assert forall|k: Seq<char>| old_sessions.contains_key(k) implies (#[trigger] doomed_set.contains(k) <==> old_sessions[k].username == username@) by {
                lemma_assoc_dom(p, k);
                let j = choose|j: int| 0 <= j < p.len() && #[trigger] p[j].0 == k;
                lemma_assoc_at(p, j);
                if doomed_set.contains(k) {
                    let j2 = choose|j2: int| 0 <= j2 < p.len() && p[j2].0 == k && p[j2].1.username == username@;
                    lemma_assoc_at(p, j2);
                }
                if old_sessions[k].username == username@ {
                    assert(strings_view(doomed@).contains(k));
                }
            }
            assert(self.sessions@ =~= sessions_without(old_sessions, username@));
        }
    }

    /// Sets the ban flag and reason of account `key`, if there is one; says whether there was.
    pub fn set_ban(&mut self, key: &String, ban: bool, reason: Option<String>) -> (found: bool)
        requires
            old(self).wf(),
        ensures
            final(self).wf(),
            found == old(self)@.users.contains_key(key@),
            final(self)@ == if found {
                with_users(old(self)@, old(self)@.users.insert(key@, with_ban(old(self)@.users[key@], ban, opt_string_view(reason))))
            } else {
                old(self)@
            },
    {
        match self.users.remove(key) {
            Some(u) => {
                let mut u = u;
                u.is_banned = ban;
                u.ban_reason = if ban { reason } else { None };
                self.users.insert(key.clone(), u);
                assert(self.users@ =~= old(self).users@.insert(key@, with_ban(old(self)@.users[key@], ban, opt_string_view(reason))));
                true
            },
            None => {
                assert(self.users@ =~= old(self).users@);
                false
            },
        }
    }

    /// Ban or unban at time `now`.
    pub fn ban_user_at(&mut self, headers: &Headers, payload: Option<BanBody>, now: i64) -> (r: Response)
        requires
            old(self).wf(),
        ensures
            final(self).wf(),
            (final(self)@, r@) == guarded(
                old(self)@,
                opt_string_view(headers.session_token),
                now,
                ban_outcome(old(self)@, ban_body_view(payload)),
            ),
    {
        if let Some(refused) = self.admin_gate(headers, now) {
            return refused;
        }
        let body = match payload {
            Some(b) => b,
            None => return error_response(Status::BadRequest, "Invalid JSON"),
        };
        let target = match body.username {
            Some(t) => t,
            None => return error_response(Status::BadRequest, "Missing username"),
        };
        let ban = match body.banned {
            Some(x) => x,
            None => true,
        };
        if !self.set_ban(&target, ban, body.reason) {
            return error_response(Status::BadRequest, "User not found");
        }
        if ban {
            self.end_sessions_of(&target);
            Response { status: Status::Success, body: Body::Success, persist: Persist { users: true, sessions: true, ban_words: false } }
        } else {
            Response { status: Status::Success, body: Body::Success, persist: Persist { users: true, sessions: false, ban_words: false } }
        }
    }

    /// Ban or unban.
    pub fn ban_user(&mut self, headers: &Headers, payload: Option<BanBody>) -> (r: Response)
        requires
            old(self).wf(),
        ensures
            final(self).wf(),
            exists|now: i64|
                clock_reading(now) && (final(self)@, r@) == guarded(
                    old(self)@,
                    opt_string_view(headers.session_token),
                    now,
                    ban_outcome(old(self)@, ban_body_view(payload)),
                ),
    {
        let now = now_timestamp();
        self.ban_user_at(headers, payload, now)
    }

    /// An admin's renewal of account `username`'s game token to `new_token`, at time `now`.
    pub fn admin_regenerate_token_at(&mut self, username: &String, headers: &Headers, now: i64, new_token: String) -> (r: Response)
        requires
            old(self).wf(),
        ensures
            final(self).wf(),
            (final(self)@, r@) == guarded(
                old(self)@,
                opt_string_view(headers.session_token),
                now,
                admin_token_outcome(old(self)@, username@, new_token@),
            ),
    {
        if let Some(refused) = self.admin_gate(headers, now) {
            return refused;
        }
        let shown = new_token.clone();
        if self.set_user_token(username, new_token) {
            Response {
                status: Status::Success,
                body: Body::AdminNewToken { username: username.clone(), yuzu_token: shown },
                persist: Persist { users: true, sessions: false, ban_words: false },
            }
        } else {
            error_response(Status::NotFound, "User not found")
        }
    }

    /// An admin's renewal of account `username`'s game token to a fresh random one.
    pub fn admin_regenerate_token(&mut self, username: &String, headers: &Headers) -> (r: Response)
        requires
            old(self).wf(),
        ensures
            final(self).wf(),
            exists|now: i64, new_token: Seq<char>|
                clock_reading(now) && is_uuid_text(new_token) && (final(self)@, r@) == guarded(
                    old(self)@,
                    opt_string_view(headers.session_token),
                    now,
                    admin_token_outcome(old(self)@, username@, new_token),
                ),
    {
        let now = now_timestamp();
        let new_token = new_uuid_text();
        let ghost t = new_token@;
        let r = self.admin_regenerate_token_at(username, headers, now, new_token);
        assert(is_uuid_text(t));
        r
    }

    /// Whether the ban-word list holds `word`.
    pub fn has_ban_word(&self, word: &String) -> (r: bool)
        ensures
            r == self@.ban_words.contains(word@),
    {
        crate::service::has_role(&self.ban_words.words, word)
    }

    /// Adding a ban word at time `now`.
    pub fn add_ban_word_at(&mut self, headers: &Headers, payload: Option<WordBody>, now: i64) -> (r: Response)
        requires
            old(self).wf(),
        ensures
            final(self).wf(),
            (final(self)@, r@) == guarded(
                old(self)@,
                opt_string_view(headers.session_token),
                now,
                add_word_outcome(old(self)@, word_body_view(payload)),
            ),
    {
        if let Some(refused) = self.admin_gate(headers, now) {
            return refused;
        }
        let body = match payload {
            Some(b) => b,
            None => return error_response(Status::BadRequest, "Invalid JSON"),
        };
        match body.word {
            Some(w) => {
                if self.has_ban_word(&w) {
                    Self::listing_response(Body::Success)
                } else {
                    let ghost wv = w@;
                    self.ban_words.words.push(w);
                    assert(self@.ban_words =~= old(self)@.ban_words.push(wv));
                    Response { status: Status::Success, body: Body::Success, persist: Persist { users: false, sessions: false, ban_words: true } }
                }
            },
            None => error_response(Status::BadRequest, "Missing word"),
        }
    }

    /// Adding a ban word.
    pub fn add_ban_word(&mut self, headers: &Headers, payload: Option<WordBody>) -> (r: Response)
        requires
            old(self).wf(),
        ensures
            final(self).wf(),
            exists|now: i64|
                clock_reading(now) && (final(self)@, r@) == guarded(
                    old(self)@,
                    opt_string_view(headers.session_token),
                    now,
                    add_word_outcome(old(self)@, word_body_view(payload)),
                ),
    {
        let now = now_timestamp();
        self.add_ban_word_at(headers, payload, now)
    }

    /// Removes every occurrence of `word` from the ban-word list.
    pub fn drop_ban_word(&mut self, word: &String)
        ensures
            final(self).users == old(self).users,
            final(self).sessions == old(self).sessions,
            final(self)@ == with_ban_words(old(self)@, without_word(old(self)@.ban_words, word@)),
    {
        let ghost ws = old(self)@.ban_words;
        let mut kept: Vec<String> = Vec::new();
        let mut i: usize = 0;
        while i < self.ban_words.words.len()
            invariant
                i <= self.ban_words.words@.len(),
                ws == strings_view(self.ban_words.words@),
                strings_view(kept@) == without_word(ws.take(i as int), word@),
            decreases self.ban_words.words@.len() - i,
        {
            let w = &self.ban_words.words[i];
            assert(ws.take(i + 1).drop_last() =~= ws.take(i as int));
            if !w.eq(word) {
                kept.push(w.clone());
                assert(strings_view(kept@) =~= without_word(ws.take(i as int), word@).push(ws[i as int]));
            }
            i = i + 1;
        }
        assert(ws.take(ws.len() as int) =~= ws);
        self.ban_words.words = kept;
    }

    /// Removing a ban word at time `now`.
    pub fn remove_ban_word_at(&mut self, headers: &Headers, payload: Option<WordBody>, now: i64) -> (r: Response)
        requires
            old(self).wf(),
        ensures
            final(self).wf(),
            (final(self)@, r@) == guarded(
                old(self)@,
                opt_string_view(headers.session_token),
                now,
                remove_word_outcome(old(self)@, word_body_view(payload)),
            ),
    {
        if let Some(refused) = self.admin_gate(headers, now) {
            return refused;
        }
        let body = match payload {
            Some(b) => b,
            None => return error_response(Status::BadRequest, "Invalid JSON"),
        };
        match body.word {
            Some(w) => {
                self.drop_ban_word(&w);
                Response { status: Status::Success, body: Body::Success, persist: Persist { users: false, sessions: false, ban_words: true } }
            },
            None => error_response(Status::BadRequest, "Missing word"),
        }
    }

    /// Removing a ban word.
    pub fn remove_ban_word(&mut self, headers: &Headers, payload: Option<WordBody>) -> (r: Response)
        requires
            old(self).wf(),
        ensures
            final(self).wf(),
            exists|now: i64|
                clock_reading(now) && (final(self)@, r@) == guarded(
                    old(self)@,
                    opt_string_view(headers.session_token),
                    now,
                    remove_word_outcome(old(self)@, word_body_view(payload)),
                ),
    {
        let now = now_timestamp();
        self.remove_ban_word_at(headers, payload, now)
    }

    /// Ending session `id` at time `now`.
    pub fn revoke_session_at(&mut self, id: &String, headers: &Headers, now: i64) -> (r: Response)
        requires
            old(self).wf(),
        ensures
            final(self).wf(),
            (final(self)@, r@) == guarded(old(self)@, opt_string_view(headers.session_token), now, revoke_outcome(old(self)@, id@)),
    {
        if let Some(refused) = self.admin_gate(headers, now) {
            return refused;
        }
        match self.sessions.remove(id) {
            Some(_) => Response {
                status: Status::Success,
                body: Body::Success,
                persist: Persist { users: false, sessions: true, ban_words: false },
            },
            None => {
                assert(self@ =~= old(self)@);
                error_response(Status::NotFound, "Session not found")
            },
        }
    }

    /// Ending session `id`.
    pub fn revoke_session(&mut self, id: &String, headers: &Headers) -> (r: Response)
        requires
            old(self).wf(),
        ensures
            final(self).wf(),
            exists|now: i64|
                clock_reading(now) && (final(self)@, r@) == guarded(old(self)@, opt_string_view(headers.session_token), now, revoke_outcome(old(self)@, id@)),
    {
        let now = now_timestamp();
        self.revoke_session_at(id, headers, now)
    }
}

/// Closing a room, given the id read from the request.
pub fn delete_room_parsed(rooms: &mut RoomRegistry, id: Option<u128>) -> (r: Response)
    requires
        old(rooms).wf(),
    ensures
        final(rooms).wf(),
        (final(rooms)@, r@) == delete_room_outcome(old(rooms)@, id),
{
    match id {
        None => error_response(Status::BadRequest, "Invalid ID"),
        Some(v) => match rooms.remove(v) {
            Some(_) => Response { status: Status::Success, body: Body::Success, persist: Persist { users: false, sessions: false, ban_words: false } },
            None => {
                assert(rooms@ =~= old(rooms)@);
                error_response(Status::NotFound, "Room not found")
            },
        },
    }
}

/// Reads a room id as `uuid::Uuid::parse_str` does.
pub fn room_id(text: &String) -> (r: Option<u128>)
    ensures
        r == spec_uuid_parse(text@),
{
    match parse_uuid(text) {
        Ok(v) => Some(v),
        Err(_) => None,
    }
}

/// Editing a room, given the request body and the id read from the request.
pub fn update_room_parsed(rooms: &mut RoomRegistry, payload: Option<RoomPatch>, id: Option<u128>) -> (r: Response)
    requires
        old(rooms).wf(),
    ensures
        final(rooms).wf(),
        (final(rooms)@, r@) == update_room_outcome(old(rooms)@, room_patch_view(payload), id),
{
    let patch = match payload {
        Some(p) => p,
        None => return error_response(Status::BadRequest, "Invalid JSON"),
    };
    let v = match id {
        Some(v) => v,
        None => return error_response(Status::BadRequest, "Invalid ID"),
    };
    match rooms.remove(v) {
        Some(info) => {
            let mut info = info;
            if let Some(n) = patch.name {
                info.name = n;
            }
            if let Some(d) = patch.description {
                info.description = d;
            }
            let shown = info.duplicate();
            rooms.insert(v, info);
            assert(rooms@ =~= old(rooms)@.insert(v, shown@));
            Response { status: Status::Success, body: Body::Room(shown), persist: Persist { users: false, sessions: false, ban_words: false } }
        },
        None => {
            assert(rooms@ =~= old(rooms)@);
            error_response(Status::NotFound, "Room not found")
        },
    }
}

impl WebState {
    /// Closing room `id` (a UUID in text), for admins, at time `now`.
    pub fn delete_room_admin_at(&self, id: &String, rooms: &mut RoomRegistry, headers: &Headers, now: i64) -> (r: Response)
        requires
            self.wf(),
            old(rooms).wf(),
        ensures
            final(rooms).wf(),
            admin_denial(self@, opt_string_view(headers.session_token), now) is Some ==> final(rooms)@ == old(rooms)@
                && r@ == refusal(self@, opt_string_view(headers.session_token), now),
            admin_denial(self@, opt_string_view(headers.session_token), now) is None ==> (final(rooms)@, r@)
                == delete_room_outcome(old(rooms)@, spec_uuid_parse(id@)),
    {
        if let Some(refused) = self.admin_gate(headers, now) {
            return refused;
        }
        let parsed = room_id(id);
        delete_room_parsed(rooms, parsed)
    }

    /// Closing room `id`, for admins.
    pub fn delete_room_admin(&self, id: &String, rooms: &mut RoomRegistry, headers: &Headers) -> (r: Response)
        requires
            self.wf(),
            old(rooms).wf(),
        ensures
            final(rooms).wf(),
            exists|now: i64| {
                &&& clock_reading(now)
                &&& admin_denial(self@, opt_string_view(headers.session_token), now) is Some ==> final(rooms)@ == old(rooms)@
                    && r@ == refusal(self@, opt_string_view(headers.session_token), now)
                &&& admin_denial(self@, opt_string_view(headers.session_token), now) is None ==> (final(rooms)@, r@)
                    == delete_room_outcome(old(rooms)@, spec_uuid_parse(id@))
            },
    {
        let now = now_timestamp();
        self.delete_room_admin_at(id, rooms, headers, now)
    }

    /// Editing room `id` (a UUID in text), for admins, at time `now`. The body is read
    /// before the id.
    pub fn update_room_admin_at(&self, id: &String, rooms: &mut RoomRegistry, headers: &Headers, payload: Option<RoomPatch>, now: i64) -> (r: Response)
        requires
            self.wf(),
            old(rooms).wf(),
        ensures
            final(rooms).wf(),
            admin_denial(self@, opt_string_view(headers.session_token), now) is Some ==> final(rooms)@ == old(rooms)@
                && r@ == refusal(self@, opt_string_view(headers.session_token), now),
            admin_denial(self@, opt_string_view(headers.session_token), now) is None ==> (final(rooms)@, r@)
                == update_room_outcome(old(rooms)@, room_patch_view(payload), if payload is Some { spec_uuid_parse(id@) } else { None }),
    {
        if let Some(refused) = self.admin_gate(headers, now) {
            return refused;
        }
        if payload.is_none() {
            return update_room_parsed(rooms, payload, None);
        }
        let parsed = room_id(id);
        update_room_parsed(rooms, payload, parsed)
    }

    /// Editing room `id`, for admins.
    pub fn update_room_admin(&self, id: &String, rooms: &mut RoomRegistry, headers: &Headers, payload: Option<RoomPatch>) -> (r: Response)
        requires
            self.wf(),
            old(rooms).wf(),
        ensures
            final(rooms).wf(),
            exists|now: i64| {
                &&& clock_reading(now)
                &&& admin_denial(self@, opt_string_view(headers.session_token), now) is Some ==> final(rooms)@ == old(rooms)@
                    && r@ == refusal(self@, opt_string_view(headers.session_token), now)
                &&& admin_denial(self@, opt_string_view(headers.session_token), now) is None ==> (final(rooms)@, r@)
                    == update_room_outcome(old(rooms)@, room_patch_view(payload), if payload is Some { spec_uuid_parse(id@) } else { None })
            },
    {
        let now = now_timestamp();
        self.update_room_admin_at(id, rooms, headers, payload, now)
    }
}

} // verus!
