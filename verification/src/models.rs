//! Plain data records of the service and their mathematical views.

use vstd::prelude::*;

verus! {

/// The view of a list of strings: the sequence of their character sequences.
pub open spec fn strings_view(v: Seq<String>) -> Seq<Seq<char>> {
    v.map_values(|s: String| s@)
}

/// The view of an optional string.
pub open spec fn opt_string_view(o: Option<String>) -> Option<Seq<char>> {
    match o {
        Some(s) => Some(s@),
        None => None,
    }
}

/// A registered account.
#[derive(Debug)]
pub struct User {
    pub username: String,
    pub password_hash: String,
    pub yuzu_token: String,
    pub avatar_url: String,
    pub roles: Vec<String>,
    pub is_banned: bool,
    pub ban_reason: Option<String>,
}

/// The mathematical value of a [`User`].
pub struct UserView {
    pub username: Seq<char>,
    pub password_hash: Seq<char>,
    pub yuzu_token: Seq<char>,
    pub avatar_url: Seq<char>,
    pub roles: Seq<Seq<char>>,
    pub is_banned: bool,
    pub ban_reason: Option<Seq<char>>,
}

impl View for User {
    type V = UserView;

    open spec fn view(&self) -> UserView {
        UserView {
            username: self.username@,
            password_hash: self.password_hash@,
            yuzu_token: self.yuzu_token@,
            avatar_url: self.avatar_url@,
            roles: strings_view(self.roles@),
            is_banned: self.is_banned,
            ban_reason: opt_string_view(self.ban_reason),
        }
    }
}

/// Copies a list of strings.
pub fn copy_strings(v: &Vec<String>) -> (r: Vec<String>)
    ensures
        strings_view(r@) == strings_view(v@),
{
    let mut r: Vec<String> = Vec::new();
    let mut i: usize = 0;
    while i < v.len()
        invariant
            i <= v.len(),
            r@.len() == i,
            forall|j: int| 0 <= j < i ==> #[trigger] r@[j]@ == v@[j]@,
        decreases v.len() - i,
    {
        r.push(v[i].clone());
        i = i + 1;
    }
    assert(strings_view(r@) =~= strings_view(v@));
    r
}

/// Copies an optional string.
pub fn copy_opt_string(o: &Option<String>) -> (r: Option<String>)
    ensures
        opt_string_view(r) == opt_string_view(*o),
{
    match o {
        Some(s) => Some(s.clone()),
        None => None,
    }
}

impl User {
    /// A field-by-field copy of the account.
    pub fn duplicate(&self) -> (r: User)
        ensures
            r@ == self@,
    {
        User {
            username: self.username.clone(),
            password_hash: self.password_hash.clone(),
            yuzu_token: self.yuzu_token.clone(),
            avatar_url: self.avatar_url.clone(),
            roles: copy_strings(&self.roles),
            is_banned: self.is_banned,
            ban_reason: copy_opt_string(&self.ban_reason),
        }
    }
}

/// A login session: its id, the account it belongs to, and when it stops being valid
/// (seconds since the Unix epoch).
#[derive(Debug)]
pub struct Session {
    pub id: String,
    pub username: String,
    pub expires_at: i64,
}

/// The mathematical value of a [`Session`].
pub struct SessionView {
    pub id: Seq<char>,
    pub username: Seq<char>,
    pub expires_at: i64,
}

impl View for Session {
    type V = SessionView;

    open spec fn view(&self) -> SessionView {
        SessionView { id: self.id@, username: self.username@, expires_at: self.expires_at }
    }
}

/// The words and patterns that a new username may not contain.
#[derive(Debug)]
pub struct BanList {
    pub words: Vec<String>,
}

impl View for BanList {
    type V = Seq<Seq<char>>;

    open spec fn view(&self) -> Seq<Seq<char>> {
        strings_view(self.words@)
    }
}

impl BanList {
    /// An empty list.
    pub fn new() -> (r: BanList)
        ensures
            r@ == Seq::<Seq<char>>::empty(),
    {
        let r = BanList { words: Vec::new() };
        assert(r@ =~= Seq::<Seq<char>>::empty());
        r
    }
}

/// The claims that a signed token carries.
#[derive(Debug)]
pub struct Claims {
    pub sub: String,
    pub iss: String,
    pub aud: String,
    pub exp: usize,
    pub iat: usize,
    pub jti: String,
    pub username: String,
    pub display_name: String,
    pub avatar_url: String,
    pub roles: Vec<String>,
}

/// The mathematical value of [`Claims`].
pub struct ClaimsView {
    pub sub: Seq<char>,
    pub iss: Seq<char>,
    pub aud: Seq<char>,
    pub exp: usize,
    pub iat: usize,
    pub jti: Seq<char>,
    pub username: Seq<char>,
    pub display_name: Seq<char>,
    pub avatar_url: Seq<char>,
    pub roles: Seq<Seq<char>>,
}

impl View for Claims {
    type V = ClaimsView;

    open spec fn view(&self) -> ClaimsView {
        ClaimsView {
            sub: self.sub@,
            iss: self.iss@,
            aud: self.aud@,
            exp: self.exp,
            iat: self.iat,
            jti: self.jti@,
            username: self.username@,
            display_name: self.display_name@,
            avatar_url: self.avatar_url@,
            roles: strings_view(self.roles@),
        }
    }
}

/// The length limits that the service enforces, as published to clients.
#[derive(PartialEq, Eq, Structural, Clone, Copy, Debug)]
pub struct ServerLimits {
    pub max_username_length: usize,
    pub max_roomname_length: usize,
    pub max_password_length: usize,
    pub max_description_length: usize,
    pub max_game_name_length: usize,
}

/// The request headers that the service reads.
#[derive(Debug)]
pub struct Headers {
    pub session_token: Option<String>,
    pub username: Option<String>,
    pub token: Option<String>,
    pub authorization: Option<String>,
}

} // verus!
