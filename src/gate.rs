use vstd::prelude::*;

use crate::token::{decrypt_token, token_outcome, TokenError};

verus! {

/// The request header that carries the access token.
pub const TOKEN_HEADER: &'static str = "X-ACCESS-TOKEN";

/// The request header under which an allowed request carries its user id.
pub const USER_ID_HEADER: &'static str = "user-id";

/// Why a request to a protected route was refused.
#[derive(Debug, Clone, Copy, PartialEq, Eq, Structural)]
pub enum GateError {
    /// The request carries no token header.
    MissingToken,
    /// The token was not accepted.
    Token(TokenError),
}

/// What an allowed request carries on to its handler: the identity it was allowed with.
#[derive(Debug, Clone)]
pub struct RequestContext {
    pub identity: Option<String>,
}

/// What a request with token header `header` meets at time `now`: the user id
/// it is let through with, or why it is refused.
pub open spec fn gate_outcome(header: Option<Seq<char>>, secret: Seq<char>, now: u64) -> Result<Seq<char>, GateError> {
    match header {
        Some(t) => match token_outcome(t, secret, now) {
            Ok(id) => Ok(id),
            Err(e) => Err(GateError::Token(e)),
        },
        None => Err(GateError::MissingToken),
    }
}

/// The view of an optional header value.
pub open spec fn header_view(header: Option<&str>) -> Option<Seq<char>> {
    match header {
        Some(t) => Some(t@),
        None => None,
    }
}

/// Reads the user id from a request's token header at time `now`.
pub fn get_user_id_from_token(header: Option<&str>, secret: &str, now: u64) -> (r: Result<String, GateError>)
    ensures
        r is Ok ==> (gate_outcome(header_view(header), secret@, now) is Ok && gate_outcome(header_view(header), secret@, now)->Ok_0 == r->Ok_0@),
        r is Err ==> (gate_outcome(header_view(header), secret@, now) is Err && gate_outcome(header_view(header), secret@, now)->Err_0 == r->Err_0),
{
    match header {
        Some(t) => match decrypt_token(t, secret, now) {
            Ok(uid) => Ok(uid),
            Err(e) => Err(GateError::Token(e)),
        },
        None => Err(GateError::MissingToken),
    }
}

/// The guard in front of protected routes: it lets a request through only with a
/// sound, unexpired token signed under its secret.
#[derive(Debug, Clone)]
pub struct UserAuth {
    pub secret: String,
}

impl UserAuth {
    pub fn new(secret: String) -> (r: UserAuth)
        ensures
            r.secret@ == secret@,
    {
        UserAuth { secret }
    }

    /// Decides on a request with token header `header` at time `now`. An
    /// allowed request gets the token's user id as its identity; a refused one
    /// keeps its context as it was.
    pub fn authorize(&self, header: Option<&str>, now: u64, ctx: &mut RequestContext) -> (allowed: bool)
        ensures
            allowed <==> gate_outcome(header_view(header), self.secret@, now) is Ok,
            allowed ==> (final(ctx).identity matches Some(id)
                && (gate_outcome(header_view(header), self.secret@, now) is Ok && gate_outcome(header_view(header), self.secret@, now)->Ok_0 == id@)),
            !allowed ==> final(ctx).identity == old(ctx).identity,
    {
        match get_user_id_from_token(header, self.secret.as_str(), now) {
            Ok(uid) => {
                ctx.identity = Some(uid);
                true
            },
            Err(_) => false,
        }
    }
}

} // verus!
