use vstd::prelude::*;

verus! {

/// One registered account, as the identity store holds it.
///
/// Timestamps are whole seconds since the Unix epoch.
#[derive(Debug, Clone)]
pub struct User {
    pub id: String,
    pub username: String,
    pub email: String,
    /// A bcrypt hash of the password, never the plaintext.
    pub password: String,
    pub created_on: u64,
    pub last_login: Option<u64>,
}

/// What a client sends to register.
#[derive(Debug, Clone)]
pub struct NewUser {
    pub email: String,
    pub username: String,
    pub password: String,
}

/// What a client sends to log in.
#[derive(Debug, Clone)]
pub struct LoginUser {
    pub email: String,
    pub password: String,
}

/// The answer to a successful login.
#[derive(Debug, Clone)]
pub struct LoginResponse {
    pub token: String,
}

/// The body of an error answer.
#[derive(Debug, Clone)]
pub struct ErrorResponse {
    pub message: String,
    pub error: String,
}

/// The payload signed into a token.
#[derive(Debug, Clone)]
pub struct Claims {
    pub sub: String,
    pub company: String,
    pub user_id: String,
    /// Expiry, in seconds since the Unix epoch.
    pub exp: u64,
}

/// A user record as it may be shown to a client: everything but the password hash.
#[derive(Debug, Clone)]
pub struct PublicUser {
    pub id: String,
    pub username: String,
    pub email: String,
    pub created_on: u64,
    pub last_login: Option<u64>,
}

impl Claims {
    /// The claims as plain values: subject, company, user id, expiry.
    pub open spec fn model(&self) -> (Seq<char>, Seq<char>, Seq<char>, u64) {
        (self.sub@, self.company@, self.user_id@, self.exp)
    }
}

impl User {
    /// The record with its password hash left out.
    pub fn to_public(&self) -> (r: PublicUser)
        ensures
            r.id@ == self.id@,
            r.username@ == self.username@,
            r.email@ == self.email@,
            r.created_on == self.created_on,
            r.last_login == self.last_login,
    {
        PublicUser {
            id: self.id.clone(),
            username: self.username.clone(),
            email: self.email.clone(),
            created_on: self.created_on,
            last_login: self.last_login,
        }
    }
}

} // verus!
