//! The token that a user who has logged in carries.

use vstd::prelude::*;
use vstd::string::*;
use crate::auth::user::{scrypt_accepts, User};

verus! {

/// The claims of a token.
#[derive(Debug, PartialEq)]
pub struct UserJWT {
    /// The subject: a user's id.
    pub sub: u32,
    /// The time the token was issued at.
    pub iat: u64,
    /// The name the user is shown under.
    pub name: String,
    /// What the user may do.
    pub permissions: Vec<String>,
}

/// What a `UserJWT` holds.
pub struct UserJWTView {
    pub sub: u32,
    pub iat: u64,
    pub name: Seq<char>,
    pub permissions: Seq<Seq<char>>,
}

impl View for UserJWT {
    type V = UserJWTView;

    open spec fn view(&self) -> UserJWTView {
        UserJWTView {
            sub: self.sub,
            iat: self.iat,
            name: self.name@,
            permissions: self.permissions.deep_view(),
        }
    }
}

/// The claims of a token issued to `user` at `now`.
pub open spec fn token_for(user: User, now: u64) -> UserJWTView {
    UserJWTView {
        sub: user.id,
        iat: now,
        name: user.display_name@,
        permissions: user.permissions.deep_view(),
    }
}

impl UserJWT {
    /// The claims of a token issued to `user` at `now`.
    pub fn create_token_for_user(user: &User, now: u64) -> (r: UserJWT)
        ensures
            r@ == token_for(*user, now),
    {
        let permissions = user.permissions.clone();
        assert(permissions.deep_view() =~= user.permissions.deep_view());
        UserJWT { sub: user.id, iat: now, name: user.display_name.clone(), permissions }
    }
}

/// Answers a request to log in at `now` with the password `pass`, given the
/// user found for the login: the user's id, the name it is shown under and
/// the claims of its token where there is such a user and the password is
/// its own, else nothing.
pub fn handle_auth_request(user: Option<User>, pass: &str, now: u64) -> (r: Option<
    (u32, String, UserJWT),
>)
    ensures
        r is Some <==> (user is Some && scrypt_accepts(pass@, user->0.pass@)),
        r matches Some(granted) ==> granted.0 == user->0.id && granted.1 == user->0.display_name
            && granted.2@ == token_for(user->0, now),
{
    match user {
        Some(user) => {
            if !user.verify_password(pass) {
                return None;
            }
            let token = UserJWT::create_token_for_user(&user, now);
            Some((user.id, user.display_name, token))
        },
        None => None,
    }
}

} // verus!
