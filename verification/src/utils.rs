//! The rules by which tokens are accepted and requests are let through.

use crate::error::{AppError, UNAUTHORIZED};
use vstd::prelude::*;

verus! {

/// Minutes for which an access token is valid.
pub const ACCESS_TOKEN_MINUTES: i64 = 10;

/// Days for which a refresh token is valid.
pub const REFRESH_TOKEN_DAYS: i64 = 1;

/// What a token says: the id of its user, and the second at which it ends.
#[derive(Debug, Clone, Copy, PartialEq, Eq, Structural)]
pub struct Claims {
    pub sub: i32,
    pub exp: i64,
}

/// Why a token that could be read is not accepted.
#[derive(Debug, Clone, Copy, PartialEq, Eq, Structural)]
pub enum TokenError {
    /// The token has ended.
    ExpiredSignature,
    /// The token is not among the stored ones.
    InvalidToken,
}

/// Accepts the claims of an access token unless it ended before `now`.
pub fn validate_token(claims: Claims, now: i64) -> (checked: Result<Claims, TokenError>)
    ensures
        checked == if claims.exp < now {
            Err::<Claims, TokenError>(TokenError::ExpiredSignature)
        } else {
            Ok::<Claims, TokenError>(claims)
        },
{
    if claims.exp < now {
        return Err(TokenError::ExpiredSignature);
    }
    Ok(claims)
}

/// Accepts the claims of a refresh token unless it ended before `now` or is
/// not `stored` among the tokens that are still valid.
pub fn validate_refresh_token(claims: Claims, now: i64, stored: bool) -> (checked: Result<
    Claims,
    TokenError,
>)
    ensures
        checked == if claims.exp < now {
            Err::<Claims, TokenError>(TokenError::ExpiredSignature)
        } else if !stored {
            Err::<Claims, TokenError>(TokenError::InvalidToken)
        } else {
            Ok::<Claims, TokenError>(claims)
        },
{
    if claims.exp < now {
        return Err(TokenError::ExpiredSignature);
    }
    if stored {
        Ok(claims)
    } else {
        Err(TokenError::InvalidToken)
    }
}

/// The refresh token that a login hands out again: the one that came with
/// the request, if it is still valid. Without one a new token is made.
pub fn reusable_refresh_token(cookie: Option<String>, valid: bool) -> (kept: Option<String>)
    ensures
        kept == if valid {
            cookie
        } else {
            None
        },
{
    if valid {
        cookie
    } else {
        None
    }
}

/// Lets a request pass that came with a token that was accepted.
/// `validated` is `None` where the request has no token.
pub fn auth_middleware(validated: Option<Result<Claims, TokenError>>) -> (checked: Result<
    Claims,
    AppError,
>)
    ensures
        match validated {
            None => checked matches Err(e) && e.is_response(UNAUTHORIZED, "Missing JWT token"@),
            Some(Err(_)) => checked matches Err(e) && e.is_response(
                UNAUTHORIZED,
                "Invalid token"@,
            ),
            Some(Ok(claims)) => checked == Ok::<Claims, AppError>(claims),
        },
{
    match validated {
        None => Err(AppError::unauthorized("Missing JWT token")),
        Some(Err(_)) => Err(AppError::unauthorized("Invalid token")),
        Some(Ok(claims)) => Ok(claims),
    }
}

/// Lets a request pass whose token was accepted and whose user is an
/// administrator.
pub fn admin_auth_middleware(validated: Result<Claims, TokenError>, admin: bool) -> (checked:
    Result<Claims, AppError>)
    ensures
        match validated {
            Err(_) => checked matches Err(e) && e.is_response(UNAUTHORIZED, "Invalid token"@),
            Ok(claims) => if admin {
                checked == Ok::<Claims, AppError>(claims)
            } else {
                checked matches Err(e) && e.is_response(
                    UNAUTHORIZED,
                    "You are not authorized to access this resource"@,
                )
            },
        },
{
    match validated {
        Err(_) => Err(AppError::unauthorized("Invalid token")),
        Ok(claims) => if admin {
            Ok(claims)
        } else {
            Err(AppError::unauthorized("You are not authorized to access this resource"))
        },
    }
}

} // verus!
