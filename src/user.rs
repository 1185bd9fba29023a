//! Application users, their roles, and password checks through bcrypt.

use vstd::prelude::*;
use vstd::string::*;

verus! {

/// Whether two texts are equal.
pub fn text_eq(a: &str, b: &str) -> (r: bool)
    ensures
        r == (a@ == b@),
{
    String::from_str(a) == String::from_str(b)
}

#[derive(Clone, Copy, Debug, PartialEq, Eq, Structural)]
pub enum UserRole {
    Admin,
    Manager,
    User,
}

/// The role stored as `text` in the users table: `admin`, `manager`, and any
/// other text stands for a plain user.
pub open spec fn role_of_text(text: Seq<char>) -> UserRole {
    if text == "admin"@ {
        UserRole::Admin
    } else if text == "manager"@ {
        UserRole::Manager
    } else {
        UserRole::User
    }
}

impl UserRole {
    pub fn from_db_text(text: &str) -> (r: UserRole)
        ensures
            r == role_of_text(text@),
    {
        if text_eq(text, "admin") {
            UserRole::Admin
        } else if text_eq(text, "manager") {
            UserRole::Manager
        } else {
            UserRole::User
        }
    }

}

/// What bcrypt's verification returns for a password and a stored hash:
/// `None` when the hash is malformed.
pub uninterp spec fn bcrypt_check(password: Seq<char>, hash: Seq<char>) -> Option<bool>;

/// Relies on `bcrypt::verify`: it reads cost and salt from `hash`, hashes
/// the password with them and compares; it fails on a malformed hash. The
/// outcome depends on the two texts alone.
#[verifier::external_body]
fn bcrypt_verify(password: &str, hash: &str) -> (r: Option<bool>)
    ensures
        r == bcrypt_check(password@, hash@),
{
    bcrypt::verify(password, hash).ok()
}

/// Relies on `bcrypt::hash` at `bcrypt::DEFAULT_COST`: a hash with a freshly
/// drawn salt, which `bcrypt::verify` accepts for the same password; an error
/// when no salt could be drawn.
#[verifier::external_body]
fn bcrypt_hash(password: &str) -> (r: Result<String, String>)
    ensures
        r matches Ok(h) ==> bcrypt_check(password@, h@) == Some(true),
{
    bcrypt::hash(password, bcrypt::DEFAULT_COST).map_err(|e| e.to_string())
}

#[derive(Clone, Debug)]
pub struct User {
    pub id: Option<i64>,
    pub username: String,
    pub password_hash: String,
    pub role: UserRole,
    pub windows_login: Option<String>,
    pub deleted: bool,
}

impl User {
    /// A new, not yet stored user whose password is kept as a bcrypt hash.
    pub fn _new(username: String, password: &str, role: UserRole) -> (r: Result<User, String>)
        ensures
            r matches Ok(u) ==> {
                &&& u.id.is_none()
                &&& u.username == username
                &&& u.role == role
                &&& u.windows_login.is_none()
                &&& !u.deleted
                &&& bcrypt_check(password@, u.password_hash@) == Some(true)
            },
    {
        match bcrypt_hash(password) {
            Ok(password_hash) => Ok(
                User { id: None, username, password_hash, role, windows_login: None, deleted: false },
            ),
            Err(e) => Err(e),
        }
    }

    /// Whether `password` matches the stored hash; a malformed hash matches
    /// nothing.
    pub fn verify_password(&self, password: &str) -> (r: bool)
        ensures
            r == (bcrypt_check(password@, self.password_hash@) == Some(true)),
    {
        match bcrypt_verify(password, self.password_hash.as_str()) {
            Some(b) => b,
            None => false,
        }
    }

    /// The user read from a row of the users table; `deleted` is stored as
    /// an integer flag.
    pub fn from_row(
        id: Option<i64>,
        username: String,
        password_hash: String,
        role_text: &str,
        windows_login: Option<String>,
        deleted_flag: i32,
    ) -> (r: User)
        ensures
            r.id == id,
            r.username == username,
            r.password_hash == password_hash,
            r.role == role_of_text(role_text@),
            r.windows_login == windows_login,
            r.deleted == (deleted_flag != 0),
    {
        let role = UserRole::from_db_text(role_text);
        User { id, username, password_hash, role, windows_login, deleted: deleted_flag != 0 }
    }
}

} // verus!
