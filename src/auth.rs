//! Login outcomes: what a login attempt reports, from the user lookup and the
//! password check.

use vstd::prelude::*;
use vstd::string::*;
use crate::text::{after_last, strip_domain};
use crate::user::{bcrypt_check, User, UserRole};

verus! {

pub struct AuthResponse {
    pub success: bool,
    pub user_id: Option<i64>,
    pub username: Option<String>,
    pub role: Option<UserRole>,
    pub windows_login: Option<String>,
    pub permissions: Option<Vec<String>>,
    pub error: Option<String>,
}

pub struct LoginRequest {
    pub username: String,
    pub password: String,
}

/// `r` reports a successful login of `u`.
pub open spec fn reports_user(r: AuthResponse, u: User) -> bool {
    &&& r.success
    &&& r.user_id == u.id
    &&& r.username == Some(u.username)
    &&& r.role == Some(u.role)
    &&& r.windows_login == u.windows_login
    &&& r.permissions.is_none()
    &&& r.error.is_none()
}

/// `r` reports a refused login with message `msg` and nothing else.
pub open spec fn reports_refusal(r: AuthResponse, msg: Seq<char>) -> bool {
    &&& !r.success
    &&& r.user_id.is_none()
    &&& r.username.is_none()
    &&& r.role.is_none()
    &&& r.windows_login.is_none()
    &&& r.permissions.is_none()
    &&& r.error matches Some(e) && e@ == msg
}

pub open spec fn wrong_password_message() -> Seq<char> {
    "Mot de passe incorrect"@
}

pub open spec fn unknown_user_message() -> Seq<char> {
    "Utilisateur non trouvé"@
}

pub open spec fn no_windows_user_message() -> Seq<char> {
    "Impossible de récupérer le nom d'utilisateur Windows"@
}

pub open spec fn lookup_error_prefix() -> Seq<char> {
    "Erreur lors de la recherche: "@
}

impl Default for AuthResponse {
    fn default() -> (r: AuthResponse)
        ensures
            !r.success,
            r.user_id.is_none(),
            r.username.is_none(),
            r.role.is_none(),
            r.windows_login.is_none(),
            r.permissions.is_none(),
            r.error.is_none(),
    {
        AuthResponse {
            success: false,
            user_id: None,
            username: None,
            role: None,
            windows_login: None,
            permissions: None,
            error: None,
        }
    }
}

impl AuthResponse {
    /// A successful login of `user`.
    pub fn for_user(user: User) -> (r: AuthResponse)
        ensures
            reports_user(r, user),
    {
        AuthResponse {
            success: true,
            user_id: user.id,
            username: Some(user.username),
            role: Some(user.role),
            windows_login: user.windows_login,
            permissions: None,
            error: None,
        }
    }

    /// The login of `user` once the password check returned `password_ok`.
    pub fn for_credentials(user: User, password_ok: bool) -> (r: AuthResponse)
        ensures
            password_ok ==> reports_user(r, user),
            !password_ok ==> reports_refusal(r, wrong_password_message()),
    {
        if password_ok {
            AuthResponse::for_user(user)
        } else {
            AuthResponse::refused("Mot de passe incorrect")
        }
    }

    /// A refused login with `message`.
    pub fn refused(message: &str) -> (r: AuthResponse)
        ensures
            reports_refusal(r, message@),
    {
        AuthResponse {
            success: false,
            user_id: None,
            username: None,
            role: None,
            windows_login: None,
            permissions: None,
            error: Some(String::from_str(message)),
        }
    }
}

/// The outcome of a login by name and password, given what the lookup of the
/// name returned: a lookup error is reported with a prefix, an unknown name
/// and a wrong password are refusals, and a matching password logs the user in.
pub fn login_outcome(lookup: Result<Option<User>, String>, password: &str) -> (r: Result<
    AuthResponse,
    String,
>)
    ensures
        match lookup {
            Err(e) => r matches Err(m) && m@ == lookup_error_prefix() + e@,
            Ok(None) => r matches Ok(a) && reports_refusal(a, unknown_user_message()),
            Ok(Some(u)) => if bcrypt_check(password@, u.password_hash@) == Some(true) {
                r matches Ok(a) && reports_user(a, u)
            } else {
                r matches Ok(a) && reports_refusal(a, wrong_password_message())
            },
        },
{
    match lookup {
        Err(e) => Err(lookup_error(e)),
        Ok(None) => Ok(AuthResponse::refused("Utilisateur non trouvé")),
        Ok(Some(user)) => {
            let matches = user.verify_password(password);
            Ok(AuthResponse::for_credentials(user, matches))
        },
    }
}

/// The outcome of an automatic login by Windows account, given what the
/// lookup of the account returned.
pub fn windows_login_outcome(lookup: Result<Option<User>, String>) -> (r: Result<
    AuthResponse,
    String,
>)
    ensures
        match lookup {
            Err(e) => r matches Err(m) && m@ == lookup_error_prefix() + e@,
            Ok(None) => r matches Ok(a) && reports_refusal(a, unknown_user_message()),
            Ok(Some(u)) => r matches Ok(a) && reports_user(a, u),
        },
{
    match lookup {
        Err(e) => Err(lookup_error(e)),
        Ok(None) => Ok(AuthResponse::refused("Utilisateur non trouvé")),
        Ok(Some(user)) => Ok(AuthResponse::for_user(user)),
    }
}

fn lookup_error(e: String) -> (r: String)
    ensures
        r@ == lookup_error_prefix() + e@,
{
    String::from_str("Erreur lors de la recherche: ").concat(e.as_str())
}

/// What the query for the account name of the session reports: the name
/// without its domain, or a refusal when the system gave none.
pub fn windows_user_response(account: Option<String>) -> (r: AuthResponse)
    ensures
        match account {
            Some(a) => {
                &&& r.success
                &&& r.username matches Some(n) && n@ == after_last(a@, '\\')
                &&& r.user_id.is_none()
                &&& r.role.is_none()
                &&& r.windows_login.is_none()
                &&& r.permissions.is_none()
                &&& r.error.is_none()
            },
            None => reports_refusal(r, no_windows_user_message()),
        },
{
    match account {
        Some(a) => AuthResponse {
            success: true,
            user_id: None,
            username: Some(strip_domain(a.as_str())),
            role: None,
            windows_login: None,
            permissions: None,
            error: None,
        },
        None => AuthResponse::refused("Impossible de récupérer le nom d'utilisateur Windows"),
    }
}

} // verus!
