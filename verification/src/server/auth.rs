//! The claims of the tokens the server grants to clients.
use vstd::prelude::*;
use crate::text::{chars_of, is_prefix, owned, starts_with, string_of};

verus! {

/// The claims of a client's token.
#[derive(Debug)]
pub struct Claims {
    /// The client id.
    pub sub: String,
    /// When the token expires (Unix time, seconds).
    pub exp: i64,
    /// When the token was issued (Unix time, seconds).
    pub iat: i64,
}

/// Seconds in a day.
pub const SECONDS_PER_DAY: i64 = 86400;

impl Claims {
    /// The claims of a token issued at `now` for `client_id`, expiring after
    /// `expires_in_days` days.
    pub fn issued_at(client_id: String, now: i64, expires_in_days: i64) -> (res: Self)
        requires
            i64::MIN <= now + expires_in_days * SECONDS_PER_DAY <= i64::MAX,
            i64::MIN <= expires_in_days * SECONDS_PER_DAY <= i64::MAX,
        ensures
            res.sub == client_id,
            res.iat == now,
            res.exp == now + expires_in_days * SECONDS_PER_DAY,
    {
        let span: i64 = expires_in_days * SECONDS_PER_DAY;
        Claims { sub: client_id, iat: now, exp: now + span }
    }

}

/// Why a request's token was refused.
#[derive(Debug, Clone, PartialEq, Eq, Structural)]
pub enum AuthHeaderError {
    /// The request has no `Authorization` header (or it is not text).
    Missing,
    /// The header does not start with `Bearer `.
    NotBearer,
}

impl AuthHeaderError {
    /// The message with which the request is refused (as unauthorized).
    pub fn message(&self) -> (res: &'static str)
        ensures
            *self == AuthHeaderError::Missing ==> res@ == "Missing Authorization header"@,
            *self == AuthHeaderError::NotBearer ==> res@ == "Invalid Authorization header format"@,
    {
        match self {
            AuthHeaderError::Missing => "Missing Authorization header",
            AuthHeaderError::NotBearer => "Invalid Authorization header format",
        }
    }
}

/// The token of an `Authorization` header: the text after `Bearer `.
pub fn bearer_token(header: Option<&str>) -> (res: Result<String, AuthHeaderError>)
    ensures
        match header {
            None => res == Err::<String, AuthHeaderError>(AuthHeaderError::Missing),
            Some(h) => if is_prefix("Bearer "@, h@) {
                res matches Ok(t) && t@ == h@.skip(7)
            } else {
                res == Err::<String, AuthHeaderError>(AuthHeaderError::NotBearer)
            },
        },
{
    match header {
        None => Err(AuthHeaderError::Missing),
        Some(h) => {
            if !starts_with(h, "Bearer ") {
                return Err(AuthHeaderError::NotBearer);
            }
            proof {
                reveal_strlit("Bearer ");
            }
            let cs = chars_of(h);
            let t = string_of(cs.as_slice().split_at(7).1);
            assert(t@ =~= h@.skip(7));
            Ok(t)
        },
    }
}

} // verus!
