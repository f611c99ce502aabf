//! Who is logged in, and what they may do.

pub mod jwt;
pub mod user;

use vstd::prelude::*;
use vstd::string::*;
use crate::auth::jwt::UserJWT;
use crate::text::same_text;

verus! {

/// What a client sends to log in.
#[derive(Debug, PartialEq)]
pub struct AuthRequestUserData {
    pub login: String,
    pub pass: String,
}

/// The answer to a client that is not let in.
#[derive(Debug, PartialEq)]
pub struct AuthResponseError {
    pub error: String,
}

/// The answer to a client that is let in.
#[derive(Debug, PartialEq)]
pub struct AuthResponseDefault {
    pub display_name: String,
    pub user_id: u32,
}

/// The name of the cookie that carries the token.
pub open spec fn cookie_name() -> Seq<char> {
    "nd_user"@
}

/// The permission that makes an admin.
pub open spec fn admin_permission() -> Seq<char> {
    "admin"@
}

/// `permissions` names the permission of an admin.
pub open spec fn grants_admin(permissions: Seq<Seq<char>>) -> bool {
    exists|i: int| 0 <= i < permissions.len() && permissions[i] == admin_permission()
}

/// Whether the bearer of the token, if there is one, is an admin.
pub fn is_admin(token: Option<&UserJWT>) -> (r: bool)
    ensures
        r == (token is Some && grants_admin(token->0@.permissions)),
{
    match token {
        Some(jwt) => {
            let ghost all = jwt@.permissions;
            let mut i: usize = 0;
            while i < jwt.permissions.len()
                invariant
                    i <= jwt.permissions.len(),
                    all == jwt.permissions.deep_view(),
                    token is Some,
                    all == token->0@.permissions,
                    forall|j: int| 0 <= j < i ==> all[j] != admin_permission(),
                decreases jwt.permissions.len() - i,
            {
                assert(all[i as int] == jwt.permissions@[i as int]@);
                if same_text(jwt.permissions[i].as_str(), "admin") {
                    assert(0 <= i < all.len() && all[i as int] == admin_permission());
                    return true;
                }
                i = i + 1;
            }
            false
        },
        None => false,
    }
}

/// The answer to a client that asks whether it is logged in.
pub fn auth_check(token: Option<UserJWT>) -> (r: Result<AuthResponseDefault, AuthResponseError>)
    ensures
        match token {
            Some(jwt) => r == Ok::<AuthResponseDefault, AuthResponseError>(
                AuthResponseDefault { display_name: jwt.name, user_id: jwt.sub },
            ),
            None => r matches Err(e) && e.error@ == "token is invalid"@,
        },
{
    match token {
        Some(jwt) => Ok(AuthResponseDefault { display_name: jwt.name, user_id: jwt.sub }),
        None => Err(AuthResponseError { error: String::from_str("token is invalid") }),
    }
}

/// The answer to a client that tried to log in, given what its request was
/// granted: its name and id, or the error `invalid login`.
pub fn auth_login(granted: Option<(u32, String)>) -> (r: Result<
    AuthResponseDefault,
    AuthResponseError,
>)
    ensures
        match granted {
            Some(g) => r == Ok::<AuthResponseDefault, AuthResponseError>(
                AuthResponseDefault { display_name: g.1, user_id: g.0 },
            ),
            None => r matches Err(e) && e.error@ == "invalid login"@,
        },
{
    match granted {
        Some((user_id, display_name)) => Ok(AuthResponseDefault { display_name, user_id }),
        None => Err(AuthResponseError { error: String::from_str("invalid login") }),
    }
}

/// The answer to a client that logs out: nobody.
pub fn auth_logout() -> (r: AuthResponseDefault)
    ensures
        r.display_name@.len() == 0,
        r.user_id == 0,
{
    AuthResponseDefault { display_name: String::new(), user_id: 0 }
}

} // verus!
