//! Signed-token issuance: who may receive a token, and the claims it carries.
//! Signing and checking signatures happen around these functions.

use vstd::prelude::*;
use crate::models::{copy_strings, opt_string_view, strings_view, Claims, ClaimsView, Headers, User, UserView};
use crate::outside::{is_uuid_text, new_uuid_text, now_timestamp};
use crate::service::{StateView, WebState};
use crate::text::{strip_prefix, strip_prefix_string};

verus! {

/// How long an issued token is valid, in seconds.
pub open spec fn token_lifetime() -> int {
    86400
}

/// The claims of a token issued to account `u` for `audience` at time `now` with token
/// id `jti`: subject and name are the username, the issuer is `citra-core`, and the
/// token expires a day after `now`.
pub open spec fn claims_for(u: UserView, audience: Seq<char>, now: usize, jti: Seq<char>) -> ClaimsView {
    ClaimsView {
        sub: u.username,
        iss: "citra-core"@,
        aud: audience,
        exp: (now + token_lifetime()) as usize,
        iat: now,
        jti,
        username: u.username,
        display_name: u.username,
        avatar_url: u.avatar_url,
        roles: u.roles,
    }
}

/// The claims of a token issued to `user` for `audience` at time `now` with id `jti`.
pub fn build_claims(user: &User, audience: &String, now: usize, jti: String) -> (r: Claims)
    requires
        now + token_lifetime() <= usize::MAX,
    ensures
        r@ == claims_for(user@, audience@, now, jti@),
{
    Claims {
        sub: user.username.clone(),
        iss: String::from_str("citra-core"),
        aud: audience.clone(),
        exp: now + 86400,
        iat: now,
        jti,
        username: user.username.clone(),
        display_name: user.username.clone(),
        avatar_url: user.avatar_url.clone(),
        roles: copy_strings(&user.roles),
    }
}

/// The claims of a token issued now to `user` for `audience`, with a fresh random id.
/// `None` only where `usize` is too narrow for the expiry of a token issued now.
pub fn issue_claims(user: &User, audience: &String) -> (r: Option<Claims>)
    ensures
        r matches Some(c) ==> exists|now: usize, jti: Seq<char>|
            is_uuid_text(jti) && now <= 17_592_186_044_416 && now + token_lifetime() <= usize::MAX && c@ == claims_for(user@, audience@, now, jti),
        r is None ==> usize::MAX < 17_592_186_044_416 + token_lifetime(),
{
    let now = now_timestamp();
    if now as u64 > (usize::MAX - 86400) as u64 {
        return None;
    }
    let jti = new_uuid_text();
    let ghost j = jti@;
    let c = build_claims(user, audience, now as usize, jti);
    assert(is_uuid_text(j));
    Some(c)
}

/// Who may receive a token.
#[derive(Debug)]
pub enum Grant {
    /// A token is issued with this account's claims.
    Issue(User),
    /// The account is banned.
    Banned,
    /// The credentials do not identify an account.
    Denied,
}

/// The mathematical value of a [`Grant`].
pub enum GrantView {
    Issue(UserView),
    Banned,
    Denied,
}

impl View for Grant {
    type V = GrantView;

    open spec fn view(&self) -> GrantView {
        match self {
            Grant::Issue(u) => GrantView::Issue(u@),
            Grant::Banned => GrantView::Banned,
            Grant::Denied => GrantView::Denied,
        }
    }
}

/// The decision for the game server's own token: the username and game-token headers
/// must name an account whose game token they carry; a banned account is refused even
/// before its token is compared.
pub open spec fn internal_grant(s: StateView, username: Option<Seq<char>>, token: Option<Seq<char>>) -> GrantView {
    match (username, token) {
        (Some(u), Some(t)) => if s.users.contains_key(u) {
            if s.users[u].is_banned {
                GrantView::Banned
            } else if s.users[u].yuzu_token == t {
                GrantView::Issue(s.users[u])
            } else {
                GrantView::Denied
            }
        } else {
            GrantView::Denied
        },
        _ => GrantView::Denied,
    }
}

/// The account that the username and game-token headers identify, if they do.
pub open spec fn token_identity(s: StateView, username: Option<Seq<char>>, token: Option<Seq<char>>) -> Option<Seq<char>> {
    match (username, token) {
        (Some(u), Some(t)) => if s.users.contains_key(u) && s.users[u].yuzu_token == t {
            Some(u)
        } else {
            None
        },
        _ => None,
    }
}

/// The decision for a token for another audience, once the caller is identified (by a
/// valid signed token or by game token): the account must exist and not be banned.
pub open spec fn external_grant(s: StateView, identity: Option<Seq<char>>) -> GrantView {
    match identity {
        Some(u) => if !s.users.contains_key(u) {
            GrantView::Denied
        } else if s.users[u].is_banned {
            GrantView::Banned
        } else {
            GrantView::Issue(s.users[u])
        },
        None => GrantView::Denied,
    }
}

/// The signed token of an `Authorization: Bearer <token>` header, if the header has
/// that form.
pub open spec fn bearer_of(authorization: Option<Seq<char>>) -> Option<Seq<char>> {
    match authorization {
        Some(a) => strip_prefix(a, "Bearer "@),
        None => None,
    }
}

/// The signed token of the `Authorization` header, where it reads `Bearer <token>`.
pub fn bearer_token(authorization: &Option<String>) -> (r: Option<String>)
    ensures
        opt_string_view(r) == bearer_of(opt_string_view(*authorization)),
{
    match authorization {
        Some(a) => strip_prefix_string(a, "Bearer "),
        None => None,
    }
}

/// Whose token a request for another audience asks for. Where the `Authorization`
/// header reads `Bearer <token>`, the answer is `decoded`, the username of that signed
/// token where its signature checks out (`None` where it does not), whatever the
/// username and game-token headers say; otherwise it is the account those headers
/// identify.
pub open spec fn external_identity_of(
    s: StateView,
    authorization: Option<Seq<char>>,
    username: Option<Seq<char>>,
    token: Option<Seq<char>>,
    decoded: Option<Seq<char>>,
) -> Option<Seq<char>> {
    if bearer_of(authorization) is Some {
        decoded
    } else {
        token_identity(s, username, token)
    }
}

impl WebState {
    /// The decision for the game server's own token.
    pub fn jwt_internal(&self, headers: &Headers) -> (r: Grant)
        requires
            self.wf(),
        ensures
            r@ == internal_grant(self@, opt_string_view(headers.username), opt_string_view(headers.token)),
    {
        if let (Some(u), Some(t)) = (&headers.username, &headers.token) {
            if let Some(user) = self.users.get(u) {
                if user.is_banned {
                    return Grant::Banned;
                }
                if user.yuzu_token.eq(t) {
                    return Grant::Issue(user.duplicate());
                }
            }
        }
        Grant::Denied
    }

    /// The account that the username and game-token headers identify, if they do.
    pub fn token_identity(&self, headers: &Headers) -> (r: Option<String>)
        requires
            self.wf(),
        ensures
            opt_string_view(r) == token_identity(self@, opt_string_view(headers.username), opt_string_view(headers.token)),
    {
        if let (Some(u), Some(t)) = (&headers.username, &headers.token) {
            if let Some(user) = self.users.get(u) {
                if user.yuzu_token.eq(t) {
                    return Some(u.clone());
                }
            }
        }
        None
    }

    /// Whose token a request for another audience asks for, given `decoded`, the
    /// username that the request's signed bearer token carries where its signature
    /// checks out.
    pub fn external_identity(&self, headers: &Headers, decoded: Option<String>) -> (r: Option<String>)
        requires
            self.wf(),
        ensures
            opt_string_view(r) == external_identity_of(
                self@,
                opt_string_view(headers.authorization),
                opt_string_view(headers.username),
                opt_string_view(headers.token),
                opt_string_view(decoded),
            ),
    {
        match bearer_token(&headers.authorization) {
            Some(_) => decoded,
            None => self.token_identity(headers),
        }
    }

    /// The decision for a token for another audience, once the caller is identified.
    pub fn jwt_external(&self, identity: &Option<String>) -> (r: Grant)
        requires
            self.wf(),
        ensures
            r@ == external_grant(self@, opt_string_view(*identity)),
    {
        match identity {
            Some(u) => match self.users.get(u) {
                Some(user) => if user.is_banned {
                    Grant::Banned
                } else {
                    Grant::Issue(user.duplicate())
                },
                None => Grant::Denied,
            },
            None => Grant::Denied,
        }
    }
}

} // verus!
