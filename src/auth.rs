use vstd::prelude::*;

use crate::models::{Claims, LoginResponse, LoginUser, NewUser, PublicUser, User};
use crate::password::{
    bcrypt_verdict, hash_password, hashed_from, verify_password, HashingError, MAX_HASH_COST,
    MIN_HASH_COST,
};
use crate::token::{issue_token, issued_for};

verus! {

/// How long an issued token stays valid: one day, in seconds.
pub const TOKEN_LIFETIME_SECS: u64 = 86400;

/// Deployment-wide settings, read once at startup.
#[derive(Debug, Clone)]
pub struct AuthConfig {
    /// The key tokens are signed with.
    pub secret: String,
    /// The subject written into every token.
    pub sub: String,
    /// The company written into every token.
    pub company: String,
    /// The bcrypt cost factor for new password hashes.
    pub hash_cost: u32,
}

/// Why registration or login failed.
#[derive(Debug, Clone, Copy, PartialEq, Eq, Structural)]
pub enum AuthError {
    /// Unknown email or wrong password; the two are not told apart.
    AuthenticationFailed,
    /// The password hasher failed.
    Hashing(HashingError),
}

/// What `uuid::Uuid::new_v4` gives, as a string: its hyphenated form.
/// Relies on `uuid::Uuid::new_v4` and its `Display`: 36 characters.
#[verifier::external_body]
fn fresh_user_id() -> (r: String)
    ensures
        r@.len() == 36,
{
    uuid::Uuid::new_v4().to_string()
}

/// Whether `u` is a sound stored record: an id and a password hash are present.
pub open spec fn user_wf(u: User) -> bool {
    u.id@.len() > 0 && u.password@.len() > 0
}

/// The record to store for a registration at time `now`: a fresh id, the
/// password hashed at cost `cost`, no login yet.
pub fn new_user_record(new_user: &NewUser, cost: u32, now: u64) -> (r: Result<User, AuthError>)
    ensures
        r is Ok ==> {
            let u = r->Ok_0;
            &&& user_wf(u)
            &&& u.username@ == new_user.username@
            &&& u.email@ == new_user.email@
            &&& hashed_from(new_user.password@, u.password@)
            &&& u.password@.len() == 60
            &&& u.created_on == now
            &&& u.last_login is None
        },
        !(MIN_HASH_COST <= cost <= MAX_HASH_COST) ==> r == Err::<User, AuthError>(AuthError::Hashing(HashingError::CostNotAllowed)),
        (MIN_HASH_COST <= cost <= MAX_HASH_COST && r is Err) ==> r == Err::<User, AuthError>(AuthError::Hashing(HashingError::Unavailable)),
{
    match hash_password(new_user.password.as_str(), cost) {
        Ok(hashed) => Ok(
            User {
                id: fresh_user_id(),
                username: new_user.username.clone(),
                email: new_user.email.clone(),
                password: hashed,
                created_on: now,
                last_login: None,
            },
        ),
        Err(e) => Err(AuthError::Hashing(e)),
    }
}

/// Marks a successful login at time `now`: only `last_login` changes.
pub fn record_login(user: &mut User, now: u64)
    ensures
        final(user).last_login == Some(now),
        final(user).id@ == old(user).id@,
        final(user).username@ == old(user).username@,
        final(user).email@ == old(user).email@,
        final(user).password@ == old(user).password@,
        final(user).created_on == old(user).created_on,
{
    user.last_login = Some(now);
}

/// What a lookup by id shows a client: the record without its password hash,
/// or nothing where no user has that id.
pub fn find_user_view(found: Option<User>) -> (r: Option<PublicUser>)
    ensures
        found is None <==> r is None,
        found matches Some(u) ==> (r matches Some(p) && p.id@ == u.id@ && p.username@ == u.username@
            && p.email@ == u.email@ && p.created_on == u.created_on && p.last_login == u.last_login),
{
    match found {
        Some(u) => Some(u.to_public()),
        None => None,
    }
}

/// The claims that a login of `user_id` at time `now` is granted.
pub open spec fn login_claims(config: AuthConfig, user_id: Seq<char>, now: u64) -> (Seq<char>, Seq<char>, Seq<char>, u64) {
    (config.sub@, config.company@, user_id, (now + TOKEN_LIFETIME_SECS) as u64)
}

/// Logs in with `login` against `found`, the stored record looked up by the
/// login's email (`None` where there is none), at time `now`. An unknown email,
/// a wrong password and an unreadable stored hash all fail alike.
pub fn try_login_user(login: &LoginUser, found: Option<User>, config: &AuthConfig, now: u64) -> (r: Result<LoginResponse, AuthError>)
    requires
        now <= u64::MAX - TOKEN_LIFETIME_SECS,
    ensures
        match found {
            None => r == Err::<LoginResponse, AuthError>(AuthError::AuthenticationFailed),
            Some(u) => if bcrypt_verdict(login.password@, u.password@) == Some(true) {
                r is Ok && issued_for(r->Ok_0.token@, config.secret@, login_claims(*config, u.id@, now))
            } else {
                r == Err::<LoginResponse, AuthError>(AuthError::AuthenticationFailed)
            },
        },
{
    let user = match found {
        Some(u) => u,
        None => { return Err(AuthError::AuthenticationFailed); },
    };
    let valid = match verify_password(login.password.as_str(), user.password.as_str()) {
        Ok(b) => b,
        Err(_) => { return Err(AuthError::AuthenticationFailed); },
    };
    if !valid {
        return Err(AuthError::AuthenticationFailed);
    }
    let claims = Claims {
        sub: config.sub.clone(),
        company: config.company.clone(),
        user_id: user.id.clone(),
        exp: now + TOKEN_LIFETIME_SECS,
    };
    match issue_token(&claims, config.secret.as_str()) {
        Ok(token) => Ok(LoginResponse { token }),
        Err(_) => Err(AuthError::AuthenticationFailed),
    }
}

} // verus!
