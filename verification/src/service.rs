//! The service's state, what a handler answers, and the admin check that guards the
//! moderation endpoints.

use vstd::prelude::*;
use crate::models::{opt_string_view, strings_view, BanList, Headers, ServerLimits, Session, SessionView, User, UserView};
use crate::table::Table;

verus! {

/// The HTTP status of an answer.
#[derive(PartialEq, Eq, Structural, Clone, Copy, Debug)]
pub enum Status {
    /// 200 OK
    Success,
    BadRequest,
    Unauthorized,
    Forbidden,
    NotFound,
    Conflict,
    InternalServerError,
}

/// The editable part of a game room.
#[derive(Debug)]
pub struct RoomInfo {
    pub name: String,
    pub description: String,
}

/// The mathematical value of a [`RoomInfo`].
pub struct RoomInfoView {
    pub name: Seq<char>,
    pub description: Seq<char>,
}

impl View for RoomInfo {
    type V = RoomInfoView;

    open spec fn view(&self) -> RoomInfoView {
        RoomInfoView { name: self.name@, description: self.description@ }
    }
}

impl RoomInfo {
    /// A field-by-field copy.
    pub fn duplicate(&self) -> (r: RoomInfo)
        ensures
            r@ == self@,
    {
        RoomInfo { name: self.name.clone(), description: self.description.clone() }
    }
}

/// The body of an answer. The JSON shapes are those of the service's wire format.
#[derive(Debug)]
pub enum Body {
    /// No body.
    Empty,
    /// `{"error": message}`
    Error(String),
    /// `{"error": "This user is banned", "reason": reason}`
    BannedUser { reason: String },
    /// A plain-text body.
    Text(String),
    /// The account, as JSON.
    Profile(User),
    /// The account as JSON, with a `session_id` field added.
    LoggedIn { user: User, session_id: String },
    /// `{"success": true}`
    Success,
    /// `{"success": true, "yuzu_token": yuzu_token}`
    NewToken { yuzu_token: String },
    /// `{"success": true, "username": username, "yuzu_token": yuzu_token}`
    AdminNewToken { username: String, yuzu_token: String },
    /// The whole account table, keyed as stored.
    UserList,
    /// The whole session table, keyed as stored.
    SessionList,
    /// The ban-word list.
    BanWordList,
    /// A room's editable fields, as JSON.
    Room(RoomInfo),
}

/// The mathematical value of a [`Body`].
pub enum BodyView {
    Empty,
    Error(Seq<char>),
    BannedUser { reason: Seq<char> },
    Text(Seq<char>),
    Profile(UserView),
    LoggedIn { user: UserView, session_id: Seq<char> },
    Success,
    NewToken { yuzu_token: Seq<char> },
    AdminNewToken { username: Seq<char>, yuzu_token: Seq<char> },
    UserList,
    SessionList,
    BanWordList,
    Room(RoomInfoView),
}

impl View for Body {
    type V = BodyView;

    open spec fn view(&self) -> BodyView {
        match self {
            Body::Empty => BodyView::Empty,
            Body::Error(m) => BodyView::Error(m@),
            Body::BannedUser { reason } => BodyView::BannedUser { reason: reason@ },
            Body::Text(t) => BodyView::Text(t@),
            Body::Profile(u) => BodyView::Profile(u@),
            Body::LoggedIn { user, session_id } => BodyView::LoggedIn { user: user@, session_id: session_id@ },
            Body::Success => BodyView::Success,
            Body::NewToken { yuzu_token } => BodyView::NewToken { yuzu_token: yuzu_token@ },
            Body::AdminNewToken { username, yuzu_token } => BodyView::AdminNewToken {
                username: username@,
                yuzu_token: yuzu_token@,
            },
            Body::UserList => BodyView::UserList,
            Body::SessionList => BodyView::SessionList,
            Body::BanWordList => BodyView::BanWordList,
            Body::Room(r) => BodyView::Room(r@),
        }
    }
}

/// Which stored tables a handler changed, and so must be written back to disk.
#[derive(PartialEq, Eq, Structural, Clone, Copy, Debug)]
pub struct Persist {
    pub users: bool,
    pub sessions: bool,
    pub ban_words: bool,
}

impl Persist {
    /// Nothing to write.
    pub open spec fn none() -> Persist {
        Persist { users: false, sessions: false, ban_words: false }
    }
}

/// A handler's answer: status, body, and the tables to write back.
#[derive(Debug)]
pub struct Response {
    pub status: Status,
    pub body: Body,
    pub persist: Persist,
}

/// The mathematical value of a [`Response`].
pub struct ResponseView {
    pub status: Status,
    pub body: BodyView,
    pub persist: Persist,
}

impl View for Response {
    type V = ResponseView;

    open spec fn view(&self) -> ResponseView {
        ResponseView { status: self.status, body: self.body@, persist: self.persist }
    }
}

/// An answer `{"error": message}` that writes nothing back.
pub open spec fn error_reply(status: Status, message: Seq<char>) -> ResponseView {
    ResponseView { status, body: BodyView::Error(message), persist: Persist::none() }
}

/// Builds an answer `{"error": message}` that writes nothing back.
pub fn error_response(status: Status, message: &str) -> (r: Response)
    ensures
        r@ == error_reply(status, message@),
{
    Response { status, body: Body::Error(message.to_owned()), persist: Persist { users: false, sessions: false, ban_words: false } }
}

/// The state of the service: accounts keyed by username, sessions keyed by session id,
/// the ban-word list and the configured length limits.
pub struct WebState {
    pub users: Table<User>,
    pub sessions: Table<Session>,
    pub ban_words: BanList,
    pub max_username_length: usize,
    pub max_roomname_length: usize,
    pub max_password_length: usize,
    pub max_description_length: usize,
    pub max_game_name_length: usize,
}

/// The mathematical value of a [`WebState`].
#[verifier::ext_equal]
pub struct StateView {
    pub users: Map<Seq<char>, UserView>,
    pub sessions: Map<Seq<char>, SessionView>,
    pub ban_words: Seq<Seq<char>>,
    pub limits: ServerLimits,
}

impl View for WebState {
    type V = StateView;

    open spec fn view(&self) -> StateView {
        StateView {
            users: self.users@,
            sessions: self.sessions@,
            ban_words: self.ban_words@,
            limits: ServerLimits {
                max_username_length: self.max_username_length,
                max_roomname_length: self.max_roomname_length,
                max_password_length: self.max_password_length,
                max_description_length: self.max_description_length,
                max_game_name_length: self.max_game_name_length,
            },
        }
    }
}

/// The message of every refusal by the admin check but an expired session.
pub open spec fn admin_required() -> Seq<char> {
    "Admin Access Required"@
}

/// Why the admin check refuses a request, or `None` where it lets it through: the
/// request must carry a session token naming a session that has not expired (at time
/// `now`) and whose account holds the role `admin`.
pub open spec fn admin_denial(s: StateView, token: Option<Seq<char>>, now: i64) -> Option<(Status, Seq<char>)> {
    match token {
        None => Some((Status::Forbidden, admin_required())),
        Some(t) => if !s.sessions.contains_key(t) {
            Some((Status::Forbidden, admin_required()))
        } else if now > s.sessions[t].expires_at {
            Some((Status::Unauthorized, "Session Expired"@))
        } else if s.users.contains_key(s.sessions[t].username) && s.users[s.sessions[t].username].roles.contains(
            "admin"@,
        ) {
            None
        } else {
            Some((Status::Forbidden, admin_required()))
        },
    }
}

/// Whether a list of roles holds `role`.
pub fn has_role(roles: &Vec<String>, role: &String) -> (r: bool)
    ensures
        r == strings_view(roles@).contains(role@),
{
    let ghost rs = strings_view(roles@);
    let mut i: usize = 0;
    while i < roles.len()
        invariant
            i <= roles@.len(),
            rs == strings_view(roles@),
            forall|j: int| 0 <= j < i ==> #[trigger] rs[j] != role@,
        decreases roles@.len() - i,
    {
        if roles[i].eq(role) {
            assert(rs[i as int] == role@);
            return true;
        }
        i = i + 1;
    }
    false
}

impl WebState {
    /// The state's internal invariant: both tables have distinct keys.
    pub open spec fn wf(&self) -> bool {
        self.users.wf() && self.sessions.wf()
    }

    /// The admin check at time `now`: `Ok` where [`admin_denial`] lets the request
    /// through, else its status and message.
    pub fn check_admin_at(&self, headers: &Headers, now: i64) -> (r: Result<(), (Status, String)>)
        requires
            self.wf(),
        ensures
            match r {
                Ok(()) => admin_denial(self@, opt_string_view(headers.session_token), now) is None,
                Err((st, m)) => admin_denial(self@, opt_string_view(headers.session_token), now) == Some(
                    (st, m@),
                ),
            },
    {
        let token = match &headers.session_token {
            Some(t) => t,
            None => return Err((Status::Forbidden, "Admin Access Required".to_owned())),
        };
        let session = match self.sessions.get(token) {
            Some(s) => s,
            None => return Err((Status::Forbidden, "Admin Access Required".to_owned())),
        };
        if now > session.expires_at {
            return Err((Status::Unauthorized, "Session Expired".to_owned()));
        }
        let admin = String::from_str("admin");
        match self.users.get(&session.username) {
            Some(user) => {
                if has_role(&user.roles, &admin) {
                    Ok(())
                } else {
                    Err((Status::Forbidden, "Admin Access Required".to_owned()))
                }
            },
            None => Err((Status::Forbidden, "Admin Access Required".to_owned())),
        }
    }
}

/// The account that a fresh service seeds when none is named `suyu`.
pub open spec fn default_account() -> UserView {
    UserView {
        username: "suyu"@,
        password_hash: "password"@,
        yuzu_token: "sutoken"@,
        avatar_url: ""@,
        roles: Seq::empty(),
        is_banned: false,
        ban_reason: None,
    }
}

/// The account table a fresh service starts from: the loaded one, with the default
/// account added under `suyu` where that key is free.
pub open spec fn seeded_users(users: Map<Seq<char>, UserView>) -> Map<Seq<char>, UserView> {
    if users.contains_key("suyu"@) {
        users
    } else {
        users.insert("suyu"@, default_account())
    }
}

impl WebState {
    /// A service over the loaded tables and the configured limits. The default account
    /// is added where no account has key `suyu`; the answer says whether the account
    /// table must then be written back.
    pub fn new(
        max_username_length: usize,
        max_roomname_length: usize,
        max_password_length: usize,
        max_description_length: usize,
        max_game_name_length: usize,
        users: Table<User>,
        sessions: Table<Session>,
        ban_words: BanList,
    ) -> (r: (WebState, Persist))
        requires
            users.wf(),
            sessions.wf(),
        ensures
            r.0.wf(),
            r.0@.users == seeded_users(users@),
            r.0@.sessions == sessions@,
            r.0@.ban_words == ban_words@,
            r.0@.limits == (ServerLimits {
                max_username_length,
                max_roomname_length,
                max_password_length,
                max_description_length,
                max_game_name_length,
            }),
            r.1 == (Persist { users: !users@.contains_key("suyu"@), sessions: false, ban_words: false }),
    {
        let mut users = users;
        let key = String::from_str("suyu");
        let seeded = !users.contains_key(&key);
        if seeded {
            let account = User {
                username: String::from_str("suyu"),
                password_hash: String::from_str("password"),
                yuzu_token: String::from_str("sutoken"),
                avatar_url: String::from_str(""),
                roles: Vec::new(),
                is_banned: false,
                ban_reason: None,
            };
            assert(account@.roles =~= Seq::<Seq<char>>::empty());
            users.insert(key, account);
        }
        let state = WebState {
            users,
            sessions,
            ban_words,
            max_username_length,
            max_roomname_length,
            max_password_length,
            max_description_length,
            max_game_name_length,
        };
        (state, Persist { users: seeded, sessions: false, ban_words: false })
    }

    /// The published length limits.
    pub fn get_limits(&self) -> (r: ServerLimits)
        ensures
            r == self@.limits,
    {
        ServerLimits {
            max_username_length: self.max_username_length,
            max_roomname_length: self.max_roomname_length,
            max_password_length: self.max_password_length,
            max_description_length: self.max_description_length,
            max_game_name_length: self.max_game_name_length,
        }
    }
}

} // verus!
