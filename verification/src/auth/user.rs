//! Users and their passwords.

use vstd::prelude::*;
use vstd::string::*;

verus! {

/// The cost of hashing a password: the binary logarithm of `N`.
pub const SCRYPT_N: u8 = 10;

/// The cost of hashing a password: `r`.
pub const SCRYPT_R: u32 = 8;

/// The cost of hashing a password: `p`.
pub const SCRYPT_P: u32 = 1;

/// A user as the persistence layer knows it.
#[derive(Debug, PartialEq)]
pub struct User {
    pub id: u32,
    pub login: String,
    pub pass: String,
    pub salt: String,
    pub sn: u8,
    pub sr: u32,
    pub sp: u32,
    pub display_name: String,
    pub home_post: u32,
    pub permissions: Vec<String>,
}

/// Whether `scrypt_check` of the `scrypt` crate accepts `password` for the
/// stored hash `hashed`: whether the password hashes to it.
pub uninterp spec fn scrypt_accepts(password: Seq<char>, hashed: Seq<char>) -> bool;

/// `scrypt::scrypt_check`: whether `password` hashes to `hashed`. A stored
/// value that is no hash in the crate's format is accepted for no password.
/// The crate works in as much memory as the stored hash asks for. Nothing
/// is proved of the result: it is what the crate answers.
#[verifier::external_body]
fn password_matches(password: &str, hashed: &str) -> (r: bool)
    ensures
        r == scrypt_accepts(password@, hashed@),
{
    scrypt::scrypt_check(password, hashed).is_ok()
}

/// `scrypt::ScryptParams::new` and `scrypt::scrypt_simple`: the hash of
/// `password` at the given cost under a fresh random salt; `None` where the
/// cost is refused or no salt could be drawn. The salt is random, so the
/// hash itself is left open, and so is whether one comes. What the crate
/// documents of every hash that does come is stated: `scrypt_check` accepts
/// the password it was made from.
#[verifier::external_body]
fn hash_password(password: &str, log_n: u8, r: u32, p: u32) -> (hashed: Option<String>)
    ensures
        hashed matches Some(h) ==> scrypt_accepts(password@, h@),
{
    match scrypt::ScryptParams::new(log_n, r, p) {
        Ok(params) => scrypt::scrypt_simple(password, &params).ok(),
        Err(_) => None,
    }
}

/// The one permission of a new user.
pub open spec fn guest_permissions() -> Seq<Seq<char>> {
    seq!["guest"@]
}

impl User {
    /// Whether `pass` is this user's password.
    pub fn verify_password(&self, pass: &str) -> (r: bool)
        ensures
            r == scrypt_accepts(pass@, self.pass@),
    {
        password_matches(pass, self.pass.as_str())
    }

    /// A new user called `login`, given the salt drawn for it and the hash of
    /// its password: none where hashing failed, else a guest without an id,
    /// shown under its login.
    pub fn with_hash(login: &str, salt: String, hashed: Option<String>) -> (r: Option<User>)
        ensures
            r is Some <==> hashed is Some,
            r matches Some(u) ==> u.id == 0 && u.login@ == login@ && u.pass == hashed->0
                && u.salt == salt && u.sn == SCRYPT_N && u.sr == SCRYPT_R && u.sp == SCRYPT_P
                && u.display_name@ == login@ && u.home_post == 0 && u.permissions.deep_view()
                == guest_permissions(),
    {
        match hashed {
            Some(pass) => {
                let mut permissions: Vec<String> = Vec::new();
                permissions.push(String::from_str("guest"));
                assert(permissions.deep_view() =~= guest_permissions());
                Some(
                    User {
                        id: 0,
                        login: String::from_str(login),
                        pass,
                        salt,
                        sn: SCRYPT_N,
                        sr: SCRYPT_R,
                        sp: SCRYPT_P,
                        display_name: String::from_str(login),
                        home_post: 0,
                        permissions,
                    },
                )
            },
            None => None,
        }
    }

    /// A new user called `login` with the password `pass`, not yet stored:
    /// a guest without an id, shown under its login, whose password is
    /// `pass` and whose salt is 128 random letters and digits. None where
    /// the password could not be hashed, which the random generator of the
    /// machine decides.
    pub fn create_user(login: &str, pass: &str) -> (r: Option<User>)
        ensures
            r matches Some(u) ==> u.id == 0 && u.login@ == login@ && u.sn == SCRYPT_N && u.sr
                == SCRYPT_R && u.sp == SCRYPT_P && u.display_name@ == login@ && u.home_post == 0
                && u.permissions.deep_view() == guest_permissions() && u.salt@.len() == 128,
            r matches Some(u) ==> scrypt_accepts(pass@, u.pass@),
            r matches Some(u) ==> forall|i: int|
                0 <= i < u.salt@.len() ==> crate::utils::is_base62(#[trigger] u.salt@[i]),
    {
        let salt = crate::utils::weak_random_base62_string(128);
        let hashed = hash_password(pass, SCRYPT_N, SCRYPT_R, SCRYPT_P);
        Self::with_hash(login, salt, hashed)
    }
}

/// A user as a row of the database gives it, the permissions as they were
/// decoded, or `None` where their text did not decode.
#[derive(Debug, PartialEq)]
pub struct UserRow {
    pub id: u32,
    pub login: String,
    pub pass: String,
    pub salt: String,
    pub sn: u8,
    pub sr: u32,
    pub sp: u32,
    pub display_name: String,
    pub home_post: u32,
    pub permissions: Option<Vec<String>>,
}

impl User {
    /// The user that a row holds. A row whose permissions did not decode
    /// holds none: nobody logs in on a record that cannot be read.
    pub fn from_sql(row: UserRow) -> (r: Option<User>)
        ensures
            r is Some <==> row.permissions is Some,
            r matches Some(u) ==> u == (User {
                id: row.id,
                login: row.login,
                pass: row.pass,
                salt: row.salt,
                sn: row.sn,
                sr: row.sr,
                sp: row.sp,
                display_name: row.display_name,
                home_post: row.home_post,
                permissions: row.permissions->0,
            }),
    {
        match row.permissions {
            Some(permissions) => Some(
                User {
                    id: row.id,
                    login: row.login,
                    pass: row.pass,
                    salt: row.salt,
                    sn: row.sn,
                    sr: row.sr,
                    sp: row.sp,
                    display_name: row.display_name,
                    home_post: row.home_post,
                    permissions,
                },
            ),
            None => None,
        }
    }
}

} // verus!
