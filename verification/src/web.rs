//! The tenant web front: page models, the sign-in and sign-up flows, the
//! authentication guard and the CSRF guard.
//!
//! The HTTP server performs every lookup and write; the functions here decide
//! what happens next from what those lookups returned.
use vstd::prelude::*;
use crate::text::{to_owned_string, str_eq, starts_with_str, has_prefix};
use crate::passwords::{password_digest, password_matches, verify_password, generate_salt, hash_password};
use crate::hexenc::hex_lower;
use crate::random::{is_uuid_v4_text, new_uuid_v4_string};
use crate::sessions::build_session_cookie;
use crate::csrf::{CsrfError, check_stored_token, stored_text, token_verdict};

verus! {

// ---------------------------------------------------------------------------
// Page models
// ---------------------------------------------------------------------------

/// The name under which the platform's own site presents itself.
pub fn site_name() -> (res: String)
    ensures
        res@ == "MaangFrame"@,
{
    to_owned_string("MaangFrame")
}

/// The public home page.
pub struct HomeTemplate {
    pub tenant_name: String,
    pub tagline: String,
    pub background_video: String,
}

impl HomeTemplate {
    /// The home page of the platform's site.
    pub fn site() -> (res: HomeTemplate)
        ensures
            res.tenant_name@ == "MaangFrame"@,
            res.tagline@ == "Production-grade SaaS Framework"@,
            res.background_video@ == "/assets/backgrounds/background.mp4"@,
    {
        HomeTemplate {
            tenant_name: site_name(),
            tagline: to_owned_string("Production-grade SaaS Framework"),
            background_video: to_owned_string("/assets/backgrounds/background.mp4"),
        }
    }
}

/// The public about page.
pub struct AboutTemplate {
    pub tenant_name: String,
    pub description: String,
}

impl AboutTemplate {
    /// The about page of the platform's site.
    pub fn site() -> (res: AboutTemplate)
        ensures
            res.tenant_name@ == "MaangFrame"@,
            res.description@ == "Built with Rust for maximum performance and security"@,
    {
        AboutTemplate {
            tenant_name: site_name(),
            description: to_owned_string("Built with Rust for maximum performance and security"),
        }
    }
}

/// The public contact page.
pub struct ContactTemplate {
    pub tenant_name: String,
}

impl ContactTemplate {
    /// The contact page of the platform's site.
    pub fn site() -> (res: ContactTemplate)
        ensures
            res.tenant_name@ == "MaangFrame"@,
    {
        ContactTemplate { tenant_name: site_name() }
    }
}

/// The public products page.
pub struct ProductsTemplate {
    pub tenant_name: String,
}

impl ProductsTemplate {
    /// The products page of the platform's site.
    pub fn site() -> (res: ProductsTemplate)
        ensures
            res.tenant_name@ == "MaangFrame"@,
    {
        ProductsTemplate { tenant_name: site_name() }
    }
}

/// The public services page.
pub struct ServicesTemplate {
    pub tenant_name: String,
}

impl ServicesTemplate {
    /// The services page of the platform's site.
    pub fn site() -> (res: ServicesTemplate)
        ensures
            res.tenant_name@ == "MaangFrame"@,
    {
        ServicesTemplate { tenant_name: site_name() }
    }
}

/// The public media page.
pub struct MediaTemplate {
    pub tenant_name: String,
}

impl MediaTemplate {
    /// The media page of the platform's site.
    pub fn site() -> (res: MediaTemplate)
        ensures
            res.tenant_name@ == "MaangFrame"@,
    {
        MediaTemplate { tenant_name: site_name() }
    }
}

/// The sign-in page, with its CSRF token and the error to show (empty for
/// none).
pub struct LoginTemplate {
    pub tenant_name: String,
    pub csrf_token: String,
    pub error: String,
}

impl LoginTemplate {
    /// The sign-in page of the platform's site.
    pub fn site(csrf_token: String, error: &str) -> (res: LoginTemplate)
        ensures
            res.tenant_name@ == "MaangFrame"@,
            res.csrf_token == csrf_token,
            res.error@ == error@,
    {
        LoginTemplate { tenant_name: site_name(), csrf_token, error: to_owned_string(error) }
    }
}

/// The sign-up page, with its CSRF token and the error to show (empty for
/// none).
pub struct SignupTemplate {
    pub tenant_name: String,
    pub csrf_token: String,
    pub error: String,
}

impl SignupTemplate {
    /// The sign-up page of the platform's site.
    pub fn site(csrf_token: String, error: &str) -> (res: SignupTemplate)
        ensures
            res.tenant_name@ == "MaangFrame"@,
            res.csrf_token == csrf_token,
            res.error@ == error@,
    {
        SignupTemplate { tenant_name: site_name(), csrf_token, error: to_owned_string(error) }
    }
}

/// The address shown as the signed-in administrator on the admin pages.
pub fn admin_display_email() -> (res: String)
    ensures
        res@ == "admin@maangframe.com"@,
{
    to_owned_string("admin@maangframe.com")
}

/// The administration dashboard with the number of products and services
/// of the tenant.
pub struct DashboardTemplate {
    pub tenant_name: String,
    pub user_email: String,
    pub product_count: usize,
    pub service_count: usize,
}

impl DashboardTemplate {
    /// The dashboard of the platform's site for the given counts.
    pub fn site(product_count: usize, service_count: usize) -> (res: DashboardTemplate)
        ensures
            res.tenant_name@ == "MaangFrame"@,
            res.user_email@ == "admin@maangframe.com"@,
            res.product_count == product_count,
            res.service_count == service_count,
    {
        DashboardTemplate {
            tenant_name: site_name(),
            user_email: admin_display_email(),
            product_count,
            service_count,
        }
    }
}

/// The administration page of the users.
pub struct UsersTemplate {
    pub tenant_name: String,
    pub user_email: String,
}

impl UsersTemplate {
    /// The users page of the platform's site.
    pub fn site() -> (res: UsersTemplate)
        ensures
            res.tenant_name@ == "MaangFrame"@,
            res.user_email@ == "admin@maangframe.com"@,
    {
        UsersTemplate { tenant_name: site_name(), user_email: admin_display_email() }
    }
}

/// The tenant that the platform's own site signs users up into.
pub fn default_tenant_id() -> (res: String)
    ensures
        res@ == "00000000-0000-0000-0000-000000000001"@,
{
    to_owned_string("00000000-0000-0000-0000-000000000001")
}

// ---------------------------------------------------------------------------
// Sign-in
// ---------------------------------------------------------------------------

/// The submitted sign-in form.
pub struct LoginForm {
    pub email: String,
    pub password: String,
    pub csrf_token: String,
}

/// A user account as the sign-in flow reads it from the database.
pub struct UserRecord {
    pub id: String,
    pub tenant_id: String,
    pub email: String,
    pub password_hash: String,
    pub salt: String,
}

/// The error shown for an unknown address and for a wrong password alike.
pub fn invalid_credentials_message() -> (res: String)
    ensures
        res@ == "Invalid email or password"@,
{
    to_owned_string("Invalid email or password")
}

/// What a sign-in attempt leads to.
pub enum LoginDecision {
    /// Show the sign-in page again with this error.
    ShowError(String),
    /// Open a session for this user of this tenant.
    CreateSession { user_id: String, tenant_id: String },
}

/// Decide a sign-in attempt from the account found under the submitted
/// address: no account, or a password whose salted digest differs from the
/// stored one, shows "Invalid email or password"; otherwise a session is
/// opened for the account.
pub fn login_decision(form: &LoginForm, found: Option<UserRecord>) -> (res: LoginDecision)
    ensures
        match found {
            None => res matches LoginDecision::ShowError(m) && m@ == "Invalid email or password"@,
            Some(u) => if password_matches(form.password@, u.salt@, u.password_hash@) {
                res matches LoginDecision::CreateSession { user_id, tenant_id }
                    && user_id == u.id && tenant_id == u.tenant_id
            } else {
                res matches LoginDecision::ShowError(m) && m@ == "Invalid email or password"@
            },
        },
{
    match found {
        None => LoginDecision::ShowError(invalid_credentials_message()),
        Some(u) => {
            if verify_password(form.password.as_str(), u.salt.as_str(), u.password_hash.as_str()) {
                LoginDecision::CreateSession { user_id: u.id, tenant_id: u.tenant_id }
            } else {
                LoginDecision::ShowError(invalid_credentials_message())
            }
        },
    }
}

/// A redirect, with the cookie it sets if any.
pub struct Redirect {
    pub location: String,
    pub set_cookie: Option<String>,
}

/// The answer to a successful sign-in or sign-up: go to the dashboard with
/// the session cookie.
pub fn signed_in_redirect(session_id: &str) -> (res: Redirect)
    ensures
        res.location@ == "/admin/dashboard"@,
        res.set_cookie matches Some(c)
            && c@ == "session_id="@ + session_id@ + "; Path=/; HttpOnly; SameSite=Strict; Secure"@,
{
    Redirect {
        location: to_owned_string("/admin/dashboard"),
        set_cookie: Some(build_session_cookie(session_id)),
    }
}

/// A fresh session identifier: a random version-4 UUID.
pub fn generate_session_id() -> (res: String)
    ensures
        is_uuid_v4_text(res@),
{
    new_uuid_v4_string()
}

// ---------------------------------------------------------------------------
// Sign-up
// ---------------------------------------------------------------------------

/// The submitted sign-up form.
pub struct SignupForm {
    pub email: String,
    pub password: String,
    pub password_confirm: String,
    pub csrf_token: String,
}

/// A user account to create.
pub struct NewUser {
    pub tenant_id: String,
    pub email: String,
    pub password: String,
    pub salt: String,
    pub password_hash: String,
}

/// The steps of a sign-up.
pub enum SignupStep {
    /// Show the sign-up page again with this error.
    ShowError(String),
    /// Look up whether this address is registered.
    LookUpEmail(String),
    /// Create this account (then open a session for it).
    CreateUser(NewUser),
}

/// The first step of a sign-up: passwords that differ show "Passwords do not
/// match"; otherwise the address is looked up.
pub fn signup_start(form: &SignupForm) -> (res: SignupStep)
    ensures
        form.password@ != form.password_confirm@
            ==> (res matches SignupStep::ShowError(m) && m@ == "Passwords do not match"@),
        form.password@ == form.password_confirm@
            ==> (res matches SignupStep::LookUpEmail(e) && e@ == form.email@),
{
    if !str_eq(form.password.as_str(), form.password_confirm.as_str()) {
        SignupStep::ShowError(to_owned_string("Passwords do not match"))
    } else {
        SignupStep::LookUpEmail(to_owned_string(form.email.as_str()))
    }
}

/// The step after the lookup: a registered address shows "Email already
/// registered"; otherwise the account is created in the platform's tenant
/// with a fresh 64-character hex salt and the salted digest of the password.
pub fn signup_after_lookup(form: &SignupForm, email_registered: bool) -> (res: SignupStep)
    ensures
        email_registered ==> (res matches SignupStep::ShowError(m) && m@ == "Email already registered"@),
        !email_registered ==> (res matches SignupStep::CreateUser(u)
            && u.tenant_id@ == "00000000-0000-0000-0000-000000000001"@
            && u.email@ == form.email@
            && u.password@ == form.password@
            && u.salt@.len() == 64
            && (exists|b: Seq<u8>| b.len() == 32 && u.salt@ == hex_lower(b))
            && u.password_hash@ == password_digest(form.password@, u.salt@)),
{
    if email_registered {
        SignupStep::ShowError(to_owned_string("Email already registered"))
    } else {
        let salt = generate_salt();
        let password_hash = hash_password(form.password.as_str(), salt.as_str());
        SignupStep::CreateUser(NewUser {
            tenant_id: default_tenant_id(),
            email: to_owned_string(form.email.as_str()),
            password: to_owned_string(form.password.as_str()),
            salt,
            password_hash,
        })
    }
}

/// An account created by sign-up signs in with the password it was created
/// with: its stored hash is the salted digest of that password, and
/// `login_decision` opens a session exactly when the submitted password
/// matches the stored hash under the stored salt.
pub proof fn law_signed_up_password_signs_in(password: Seq<char>, salt: Seq<char>, stored_hash: Seq<char>)
    requires
        stored_hash == password_digest(password, salt),
    ensures
        password_matches(password, salt, stored_hash),
{
}

// ---------------------------------------------------------------------------
// The authentication guard
// ---------------------------------------------------------------------------

/// The identity attached to an authenticated request.
pub struct AuthSession {
    pub session_id: String,
    pub user_id: String,
    pub tenant_id: String,
    pub user_email: String,
}

/// Middleware that admits only requests with a live session of a known user.
pub struct RequireAuth;

/// The service wrapped by `RequireAuth`.
pub struct RequireAuthMiddleware<S> {
    pub service: S,
}

impl RequireAuth {
    /// Wrap a service.
    pub fn new_transform<S>(&self, service: S) -> (res: RequireAuthMiddleware<S>)
        ensures
            res.service == service,
    {
        RequireAuthMiddleware { service }
    }
}

/// A session as the guard reads it from the cache.
pub struct SessionRecord {
    pub id: String,
    pub user_id: String,
}

/// A user as the guard reads it from the database.
pub struct AccountRecord {
    pub id: String,
    pub tenant_id: String,
    pub email: String,
}

/// What the guard learns, one lookup at a time.
pub enum AuthEvent {
    /// A request arrived, with its `session_id` cookie if any and whether the
    /// application state is reachable.
    Arrived { session_cookie: Option<String>, has_state: bool },
    /// The session lookup answered (an error text for a cache failure).
    SessionFetched(Result<Option<SessionRecord>, String>),
    /// The user lookup for a session answered (an error text for a database
    /// failure).
    UserFetched { session_id: String, user: Result<Option<AccountRecord>, String> },
}

/// What the guard does next.
pub enum AuthStep {
    /// Answer `302 Found` to `/login`.
    RedirectToLogin,
    /// Look the session up by its identifier.
    FetchSession(String),
    /// Look the session's user up.
    FetchUser { session_id: String, user_id: String },
    /// Attach the identity and hand the request on.
    Proceed(AuthSession),
}

impl<S> RequireAuthMiddleware<S> {
    /// The guard's next step: without a cookie or application state, or when a
    /// lookup fails or finds nothing, redirect to the sign-in page; otherwise
    /// look up the session, then its user, then let the request through with
    /// their identity.
    pub fn next_step(event: AuthEvent) -> (res: AuthStep)
        ensures
            match event {
                AuthEvent::Arrived { session_cookie, has_state } => match session_cookie {
                    Some(id) => if has_state {
                        res matches AuthStep::FetchSession(i) && i == id
                    } else {
                        res is RedirectToLogin
                    },
                    None => res is RedirectToLogin,
                },
                AuthEvent::SessionFetched(r) => match r {
                    Ok(Some(s)) => res matches AuthStep::FetchUser { session_id, user_id }
                        && session_id == s.id && user_id == s.user_id,
                    _ => res is RedirectToLogin,
                },
                AuthEvent::UserFetched { session_id, user } => match user {
                    Ok(Some(u)) => res matches AuthStep::Proceed(a)
                        && a.session_id == session_id && a.user_id == u.id
                        && a.tenant_id == u.tenant_id && a.user_email == u.email,
                    _ => res is RedirectToLogin,
                },
            },
    {
        match event {
            AuthEvent::Arrived { session_cookie, has_state } => match session_cookie {
                Some(id) => {
                    if has_state {
                        AuthStep::FetchSession(id)
                    } else {
                        AuthStep::RedirectToLogin
                    }
                },
                None => AuthStep::RedirectToLogin,
            },
            AuthEvent::SessionFetched(r) => match r {
                Ok(Some(s)) => AuthStep::FetchUser { session_id: s.id, user_id: s.user_id },
                _ => AuthStep::RedirectToLogin,
            },
            AuthEvent::UserFetched { session_id, user } => match user {
                Ok(Some(u)) => AuthStep::Proceed(
                    AuthSession { session_id, user_id: u.id, tenant_id: u.tenant_id, user_email: u.email },
                ),
                _ => AuthStep::RedirectToLogin,
            },
        }
    }
}

/// Where the guard sends clients without a valid session.
pub fn login_path() -> (res: &'static str)
    ensures
        res@ == "/login"@,
{
    "/login"
}

// ---------------------------------------------------------------------------
// The CSRF guard
// ---------------------------------------------------------------------------

/// Middleware that screens state-changing requests for CSRF.
pub struct CsrfProtection;

/// The service wrapped by `CsrfProtection`.
pub struct CsrfMiddleware<S> {
    pub service: S,
}

impl CsrfProtection {
    /// Wrap a service.
    pub fn new_transform<S>(&self, service: S) -> (res: CsrfMiddleware<S>)
        ensures
            res.service == service,
    {
        CsrfMiddleware { service }
    }
}

/// The methods that change state: `POST`, `PUT`, `DELETE` and `PATCH`.
pub open spec fn is_state_changing(method: Seq<char>) -> bool {
    method == "POST"@ || method == "PUT"@ || method == "DELETE"@ || method == "PATCH"@
}

/// The public asset paths, under `/static` or `/assets`.
pub open spec fn is_asset_path(path: Seq<char>) -> bool {
    has_prefix(path, "/static"@) || has_prefix(path, "/assets"@)
}

impl<S> CsrfMiddleware<S> {
    /// Whether a request falls under CSRF screening: a state-changing method
    /// on a path outside the public assets. The middleware currently
    /// forwards every request, screened or not.
    pub fn requires_validation(method: &str, path: &str) -> (res: bool)
        ensures
            res == (is_state_changing(method@) && !is_asset_path(path@)),
    {
        let changing = str_eq(method, "POST") || str_eq(method, "PUT") || str_eq(method, "DELETE")
            || str_eq(method, "PATCH");
        if !changing {
            return false;
        }
        !(starts_with_str(path, "/static") || starts_with_str(path, "/assets"))
    }
}

impl<S> CsrfMiddleware<S> {
    /// The screening of a request: one that does not fall under screening
    /// passes; one that does needs a submitted token equal to the token
    /// stored for its session (`TokenMissing` without either, a cache
    /// failure is `ValidationFailed`, a different token `TokenInvalid`).
    pub fn screen(
        method: &str,
        path: &str,
        submitted: Option<&str>,
        stored: Result<Option<String>, String>,
    ) -> (res: Result<(), CsrfError>)
        ensures
            !(is_state_changing(method@) && !is_asset_path(path@)) ==> res is Ok,
            (is_state_changing(method@) && !is_asset_path(path@)) ==> match submitted {
                None => res matches Err(CsrfError::TokenMissing),
                Some(t) => match stored {
                    Err(m) => res == Err::<(), CsrfError>(CsrfError::ValidationFailed(m)),
                    Ok(o) => res == token_verdict(stored_text(o), t@),
                },
            },
    {
        if !Self::requires_validation(method, path) {
            return Ok(());
        }
        match submitted {
            None => Err(CsrfError::TokenMissing),
            Some(t) => check_stored_token(stored, t),
        }
    }
}

} // verus!
