//! Accounts: the roles and states of platform users as stored in the user
//! table, the tenant-site users of a white label, and the administrators of
//! the back office, with the decisions taken when they sign in.
use vstd::prelude::*;
use crate::crypto::{argon2_verdict, utf8};
use crate::passwords::PasswordHasher;
use crate::sessions::{Session, SessionError};
use crate::text::{
    has_prefix, has_substring, lemma_substring_concat, lemma_substring_self, push_str, str_eq, to_owned_string,
};

verus! {

broadcast use vstd::string::group_string_axioms;

// ---------------------------------------------------------------------------
// Platform users (user table)
// ---------------------------------------------------------------------------

/// The role of a platform user.
#[derive(Debug, Clone, Copy, PartialEq, Eq, Structural)]
pub enum AccountRole {
    Admin,
    User,
    Guest,
}

/// The state of a platform user.
#[derive(Debug, Clone, Copy, PartialEq, Eq, Structural)]
pub enum AccountStatus {
    Active,
    Inactive,
    Suspended,
}

/// The role stored in a row: `admin` and `guest` are recognised, anything
/// else is an ordinary user.
pub open spec fn role_of(s: Seq<char>) -> AccountRole {
    if s == "admin"@ {
        AccountRole::Admin
    } else if s == "guest"@ {
        AccountRole::Guest
    } else {
        AccountRole::User
    }
}

/// The state stored in a row: `inactive` and `suspended` are recognised,
/// anything else is active.
pub open spec fn status_of(s: Seq<char>) -> AccountStatus {
    if s == "inactive"@ {
        AccountStatus::Inactive
    } else if s == "suspended"@ {
        AccountStatus::Suspended
    } else {
        AccountStatus::Active
    }
}

/// The text stored for a role: its name in lower case.
pub open spec fn role_text(r: AccountRole) -> Seq<char> {
    match r {
        AccountRole::Admin => "admin"@,
        AccountRole::User => "user"@,
        AccountRole::Guest => "guest"@,
    }
}

/// The role of a stored row.
pub fn parse_role(s: &str) -> (res: AccountRole)
    ensures
        res == role_of(s@),
{
    if str_eq(s, "admin") {
        AccountRole::Admin
    } else if str_eq(s, "guest") {
        AccountRole::Guest
    } else {
        AccountRole::User
    }
}

/// The state of a stored row.
pub fn parse_status(s: &str) -> (res: AccountStatus)
    ensures
        res == status_of(s@),
{
    if str_eq(s, "inactive") {
        AccountStatus::Inactive
    } else if str_eq(s, "suspended") {
        AccountStatus::Suspended
    } else {
        AccountStatus::Active
    }
}

/// The text a role is stored as.
pub fn role_db_text(r: AccountRole) -> (res: &'static str)
    ensures
        res@ == role_text(r),
{
    match r {
        AccountRole::Admin => "admin",
        AccountRole::User => "user",
        AccountRole::Guest => "guest",
    }
}

/// A stored role reads back as itself.
pub proof fn law_role_roundtrip(r: AccountRole)
    ensures
        role_of(role_text(r)) == r,
{
    reveal_strlit("admin");
    reveal_strlit("guest");
    reveal_strlit("user");
    assert("guest"@ != "admin"@) by { assert("guest"@[0] != "admin"@[0]); }
    assert("user"@ != "admin"@) by { assert("user"@[0] != "admin"@[0]); }
    assert("user"@ != "guest"@) by { assert("user"@[0] != "guest"@[0]); }
}

/// The text stored for a state: its name in lower case.
pub open spec fn status_text(s: AccountStatus) -> Seq<char> {
    match s {
        AccountStatus::Active => "active"@,
        AccountStatus::Inactive => "inactive"@,
        AccountStatus::Suspended => "suspended"@,
    }
}

/// The text a state is stored as; it reads back as the same state.
pub fn status_db_text(s: AccountStatus) -> (res: &'static str)
    ensures
        res@ == status_text(s),
        status_of(res@) == s,
{
    proof {
        reveal_strlit("active");
        reveal_strlit("inactive");
        reveal_strlit("suspended");
    }
    match s {
        AccountStatus::Active => {
            assert("active"@ != "inactive"@) by { assert("active"@[0] != "inactive"@[0]); }
            assert("active"@ != "suspended"@) by { assert("active"@[0] != "suspended"@[0]); }
            "active"
        },
        AccountStatus::Inactive => "inactive",
        AccountStatus::Suspended => {
            assert("suspended"@ != "inactive"@) by { assert("suspended"@[0] != "inactive"@[0]); }
            "suspended"
        },
    }
}

// ---------------------------------------------------------------------------
// Tenant-site users
// ---------------------------------------------------------------------------

/// Why a user operation failed.
#[derive(Debug)]
pub enum UserError {
    NotFound,
    EmailExists,
    InvalidCredentials,
    DatabaseError(String),
    SessionError(SessionError),
}

/// A user of a tenant site.
pub struct User {
    pub id: String,
    pub white_label_id: String,
    pub email: String,
    pub password_hash: String,
    pub role: UserRole,
    pub is_active: bool,
    pub created_at: String,
    pub updated_at: String,
    pub last_login_at: Option<String>,
}

/// What a tenant-site user may do.
#[derive(Debug, Clone, Copy, PartialEq, Eq, Structural)]
pub enum UserRole {
    Admin,
    Editor,
    Viewer,
}

pub open spec fn user_role_name(r: UserRole) -> Seq<char> {
    match r {
        UserRole::Admin => "admin"@,
        UserRole::Editor => "editor"@,
        UserRole::Viewer => "viewer"@,
    }
}

impl UserRole {
    /// The stored name: `admin`, `editor` or `viewer`.
    pub fn as_str(&self) -> (res: &'static str)
        ensures
            res@ == user_role_name(*self),
    {
        match self {
            UserRole::Admin => "admin",
            UserRole::Editor => "editor",
            UserRole::Viewer => "viewer",
        }
    }
}

/// The login form of a tenant site.
pub struct TenantLoginForm {
    pub email: String,
    pub password: String,
}

/// Seconds a tenant-site session lasts (seven days).
pub const TENANT_SESSION_TTL_SECS: i64 = 604800;

/// The existence check before creating a user: an account found under the
/// e-mail address is `EmailExists`; anything else (including a failed
/// lookup) lets the creation proceed.
pub fn ensure_email_free(existing: &Result<User, UserError>) -> (res: Result<(), UserError>)
    ensures
        existing is Ok <==> res matches Err(UserError::EmailExists),
        existing is Err <==> res is Ok,
{
    match existing {
        Ok(_) => Err(UserError::EmailExists),
        Err(_) => Ok(()),
    }
}

/// The credential check of a tenant-site login: an inactive account is
/// `InvalidCredentials`; a malformed stored hash is a session error; a
/// password Argon2 does not accept is `InvalidCredentials`.
pub fn check_user_credentials(user: &User, password: &str) -> (res: Result<(), UserError>)
    ensures
        !user.is_active ==> res matches Err(UserError::InvalidCredentials),
        user.is_active && argon2_verdict(utf8(password@), user.password_hash@) is None
            ==> res matches Err(UserError::SessionError(_)),
        user.is_active && argon2_verdict(utf8(password@), user.password_hash@) == Some(false)
            ==> res matches Err(UserError::InvalidCredentials),
        user.is_active && argon2_verdict(utf8(password@), user.password_hash@) == Some(true) ==> res is Ok,
{
    if !user.is_active {
        return Err(UserError::InvalidCredentials);
    }
    match PasswordHasher::verify(password, user.password_hash.as_str()) {
        Err(e) => Err(UserError::SessionError(e)),
        Ok(false) => Err(UserError::InvalidCredentials),
        Ok(true) => Ok(()),
    }
}

/// The session of a signed-in tenant-site user: not an administrator, for
/// seven days.
pub fn tenant_session(user: &User) -> (res: Session)
    ensures
        res.user_id == user.id,
        res.email == user.email,
        !res.is_admin,
        res.expires_at == res.created_at + TENANT_SESSION_TTL_SECS,
{
    Session::new(user.id.clone(), user.email.clone(), false, TENANT_SESSION_TTL_SECS)
}

/// The new hash of a password change: the old password must be accepted,
/// then the new one is hashed.
pub fn rehash_password(user: &User, old_password: &str, new_password: &str) -> (res: Result<String, UserError>)
    ensures
        argon2_verdict(utf8(old_password@), user.password_hash@) is None ==> res matches Err(UserError::SessionError(_)),
        argon2_verdict(utf8(old_password@), user.password_hash@) == Some(false)
            ==> res matches Err(UserError::InvalidCredentials),
        res matches Ok(h) ==> argon2_verdict(utf8(old_password@), user.password_hash@) == Some(true)
            && argon2_verdict(utf8(new_password@), h@) == Some(true),
        argon2_verdict(utf8(old_password@), user.password_hash@) == Some(true)
            && utf8(new_password@).len() <= 0xFFFF_FFFF ==> res is Ok,
{
    match PasswordHasher::verify(old_password, user.password_hash.as_str()) {
        Err(e) => Err(UserError::SessionError(e)),
        Ok(false) => Err(UserError::InvalidCredentials),
        Ok(true) => match PasswordHasher::hash(new_password) {
            Ok(h) => Ok(h),
            Err(e) => Err(UserError::SessionError(e)),
        },
    }
}

/// The update statement of a user: the timestamp always, then each field
/// that is given, in the order e-mail, role, active flag.
pub open spec fn user_update_query(has_email: bool, has_role: bool, has_is_active: bool) -> Seq<char> {
    "UPDATE $user_id SET updated_at = time::now()"@
        + (if has_email { ", email = $email"@ } else { Seq::empty() })
        + (if has_role { ", role = $role"@ } else { Seq::empty() })
        + (if has_is_active { ", is_active = $is_active"@ } else { Seq::empty() })
}

/// An update statement sets the timestamp and assigns exactly the fields it
/// is given: it starts with `UPDATE $user_id SET updated_at = time::now()`,
/// holds `, email = $email`, `, role = $role` and `, is_active = $is_active`
/// for the fields given, and is no longer than those parts together, so no
/// field that was not given is assigned.
pub proof fn law_user_update_assigns_given_fields(has_email: bool, has_role: bool, has_is_active: bool)
    ensures
        ({
            let q = user_update_query(has_email, has_role, has_is_active);
            &&& has_prefix(q, "UPDATE $user_id SET updated_at = time::now()"@)
            &&& has_email ==> has_substring(q, ", email = $email"@)
            &&& has_role ==> has_substring(q, ", role = $role"@)
            &&& has_is_active ==> has_substring(q, ", is_active = $is_active"@)
            &&& q.len() == "UPDATE $user_id SET updated_at = time::now()"@.len()
                + (if has_email { ", email = $email"@.len() } else { 0 })
                + (if has_role { ", role = $role"@.len() } else { 0 })
                + (if has_is_active { ", is_active = $is_active"@.len() } else { 0 })
        }),
{
    broadcast use lemma_substring_concat;
    let base = "UPDATE $user_id SET updated_at = time::now()"@;
    let e: Seq<char> = if has_email { ", email = $email"@ } else { Seq::empty() };
    let r: Seq<char> = if has_role { ", role = $role"@ } else { Seq::empty() };
    let a: Seq<char> = if has_is_active { ", is_active = $is_active"@ } else { Seq::empty() };
    let q = user_update_query(has_email, has_role, has_is_active);
    assert(q == base + e + r + a);
    lemma_substring_self(e);
    lemma_substring_self(r);
    lemma_substring_self(a);
    assert(q =~= base + (e + r + a));
    assert(q.take(base.len() as int) =~= base);
}

/// Build the update statement of a user.
pub fn build_user_update_query(has_email: bool, has_role: bool, has_is_active: bool) -> (res: String)
    ensures
        res@ == user_update_query(has_email, has_role, has_is_active),
{
    let mut q = to_owned_string("UPDATE $user_id SET updated_at = time::now()");
    if has_email {
        push_str(&mut q, ", email = $email");
    }
    let ghost a = q@;
    if has_role {
        push_str(&mut q, ", role = $role");
    }
    let ghost b = q@;
    if has_is_active {
        push_str(&mut q, ", is_active = $is_active");
    }
    assert(q@ =~= user_update_query(has_email, has_role, has_is_active));
    q
}

/// The site named by a request's `Host` header, `localhost` when it has
/// none.
pub fn site_domain(host: Option<&str>) -> (res: String)
    ensures
        res@ == match host {
            Some(h) => h@,
            None => "localhost"@,
        },
{
    match host {
        Some(h) => to_owned_string(h),
        None => to_owned_string("localhost"),
    }
}

// ---------------------------------------------------------------------------
// Back-office administrators
// ---------------------------------------------------------------------------

/// An administrator account.
pub struct AdminUser {
    pub id: String,
    pub email: String,
    pub password_hash: String,
    pub is_active: bool,
    pub created_at: String,
    pub last_login_at: Option<String>,
}

/// The back-office login form.
pub struct LoginForm {
    pub email: String,
    pub password: String,
}

/// Seconds an administrator session lasts (one day).
pub const ADMIN_SESSION_TTL_SECS: i64 = 86400;

/// The credential check of a back-office login, given the active
/// administrators found under the e-mail address: none is `NotFound`, a
/// malformed hash is a storage error, a rejected password is `Invalid`;
/// otherwise the first account found signs in.
pub fn authenticate_admin(admins: Vec<AdminUser>, password: &str) -> (res: Result<AdminUser, SessionError>)
    ensures
        admins@.len() == 0 ==> res matches Err(SessionError::NotFound),
        admins@.len() > 0 && argon2_verdict(utf8(password@), admins@[0].password_hash@) is None
            ==> res matches Err(SessionError::StorageError(_)),
        admins@.len() > 0 && argon2_verdict(utf8(password@), admins@[0].password_hash@) == Some(false)
            ==> res matches Err(SessionError::Invalid),
        admins@.len() > 0 && argon2_verdict(utf8(password@), admins@[0].password_hash@) == Some(true)
            ==> res == Ok::<AdminUser, SessionError>(admins@[0]),
{
    let mut admins = admins;
    if admins.len() == 0 {
        return Err(SessionError::NotFound);
    }
    let admin = admins.remove(0);
    match PasswordHasher::verify(password, admin.password_hash.as_str()) {
        Err(e) => Err(e),
        Ok(false) => Err(SessionError::Invalid),
        Ok(true) => Ok(admin),
    }
}

/// The session of a signed-in administrator: an administrator session for
/// one day.
pub fn admin_session(admin: AdminUser) -> (res: Session)
    ensures
        res.user_id == admin.id,
        res.email == admin.email,
        res.is_admin,
        res.expires_at == res.created_at + ADMIN_SESSION_TTL_SECS,
{
    Session::new(admin.id, admin.email, true, ADMIN_SESSION_TTL_SECS)
}

/// Middleware that admits only requests with a valid back-office session.
pub struct AdminAuthMiddleware;

/// The service wrapped by `AdminAuthMiddleware`.
pub struct AdminAuthMiddlewareService<S> {
    pub service: S,
}

/// What the back-office guard does with a request.
pub enum AdminAccess {
    /// Look the session up and let the request through if it is valid.
    CheckSession(String),
    /// Send the client to `/admin/login`.
    RedirectToLogin,
}

/// The guard's first step: with a session cookie and a session store, check
/// the session; otherwise redirect to the login page.
pub fn admin_access(session_cookie: Option<&str>, has_store: bool) -> (res: AdminAccess)
    ensures
        (session_cookie is Some && has_store) ==> (res matches AdminAccess::CheckSession(id) && id@ == session_cookie->Some_0@),
        !(session_cookie is Some && has_store) ==> res is RedirectToLogin,
{
    match session_cookie {
        Some(id) => {
            if has_store {
                AdminAccess::CheckSession(to_owned_string(id))
            } else {
                AdminAccess::RedirectToLogin
            }
        },
        None => AdminAccess::RedirectToLogin,
    }
}

/// Where the back-office guard sends clients without a valid session.
pub fn admin_login_path() -> (res: &'static str)
    ensures
        res@ == "/admin/login"@,
{
    "/admin/login"
}

} // verus!
