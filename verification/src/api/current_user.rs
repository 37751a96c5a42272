//! Current user service
//!
//! Get the current user from what the token of a request claims

use std::sync::Arc;

use vstd::prelude::*;
use vstd::string::StringExecFns;

use super::response::failure;
use super::response::Error;
use super::response::FORBIDDEN;
use super::response::INTERNAL_SERVER_ERROR;
use crate::users::User;

verus! {

/// For how many seconds a token is valid: an hour
pub const EXPIRES_IN: i64 = 3600;

/// The JWT claims to identifies a user
#[derive(Clone, Copy, Debug, PartialEq, Eq, Structural)]
pub struct Claims {
    /// The user ID
    pub sub: u128,
    /// The second, since the Unix epoch, at which the token expires
    pub exp: i64,
    /// A sessions ID, used to expire/invalidate tokens before the expiration date
    pub jti: u128,
}

/// Token information served to the user
#[derive(Debug)]
pub struct Token {
    /// Type of the token: Bearer
    pub token_type: String,
    /// In how many seconds does the token expire
    pub expires_in: i64,
    /// The access token to provide to follow up requests in the Authorization header
    pub access_token: String,
}

/// What a token holds, as mathematical values
pub struct TokenView {
    pub token_type: Seq<char>,
    pub expires_in: i64,
    pub access_token: Seq<char>,
}

impl View for Token {
    type V = TokenView;

    open spec fn view(&self) -> TokenView {
        TokenView {
            token_type: self.token_type@,
            expires_in: self.expires_in,
            access_token: self.access_token@,
        }
    }
}

impl Token {
    /// Create a new token response
    pub fn new(access_token: String, expires_in: i64) -> (token: Self)
        ensures
            token@ == (TokenView {
                token_type: "Bearer"@,
                expires_in,
                access_token: access_token@,
            }),
    {
        Self { token_type: String::from_str("Bearer"), expires_in, access_token }
    }
}

/// Current user service
pub struct CurrentUser {
    /// The actual user
    pub user: Arc<User>,
}

impl Clone for CurrentUser {
    fn clone(&self) -> (copy: Self)
        ensures
            copy == *self,
    {
        Self { user: self.user.clone() }
    }
}

impl CurrentUser {
    /// Create the current user from a user
    pub fn new(user: User) -> (current_user: Self)
        ensures
            *current_user.user == user,
    {
        Self { user: Arc::new(user) }
    }

    /// The actual user
    pub fn deref(&self) -> (user: &User)
        ensures
            *user == *self.user,
    {
        &self.user
    }
}

/// What the token for a user claims, at a given second since the Unix epoch:
/// the user, the session, and an expiry an hour later
pub fn claims(user: &User, now: i64) -> (claims: Claims)
    requires
        now + EXPIRES_IN <= i64::MAX,
    ensures
        claims == (Claims { sub: user.id, exp: (now + EXPIRES_IN) as i64, jti: user.session_id }),
{
    Claims { sub: user.id, exp: now + EXPIRES_IN, jti: user.session_id }
}

/// Generate a token for the outside world, from what encoding the claims
/// gave: the access token, or the text of the failure
pub fn generate_token(encoded: Result<String, String>) -> (token: Result<Token, Error>)
    ensures
        match encoded {
            Ok(access_token) => token matches Ok(token) && token@ == (TokenView {
                token_type: "Bearer"@,
                expires_in: EXPIRES_IN,
                access_token: access_token@,
            }),
            Err(reason) => token matches Err(error) && error@ == failure(
                INTERNAL_SERVER_ERROR,
                reason@,
            ),
        },
{
    match encoded {
        Ok(access_token) => Ok(Token::new(access_token, EXPIRES_IN)),
        Err(reason) => Err(Error::internal_server_error(reason.as_str())),
    }
}

/// What decoding the token of a request gave: the claims, or a forbidden
/// response with the text of the failure
pub fn decoded(claims: Result<Claims, String>) -> (checked: Result<Claims, Error>)
    ensures
        match claims {
            Ok(claims) => checked == Ok::<Claims, Error>(claims),
            Err(reason) => checked matches Err(error) && error@ == failure(
                FORBIDDEN,
                "Invalid token: "@ + reason@,
            ),
        },
{
    match claims {
        Ok(claims) => Ok(claims),
        Err(reason) => Err(
            Error::forbidden(String::from_str("Invalid token: ").concat(reason.as_str()).as_str()),
        ),
    }
}

/// Why the holder of a token is not let in, if so: the user of the token has
/// to be found, and the session of the token has to be the one of the user
pub open spec fn refusal<E>(claims: Claims, found: Result<Option<User>, E>) -> Option<Seq<char>> {
    match found {
        Ok(Some(user)) => if claims.jti != user.session_id {
            Some("Token expired"@)
        } else {
            None
        },
        _ => Some("Could not find user"@),
    }
}

/// The current user of a request, from what its token claims and what the
/// storage found for the user that the token names
///
/// A token whose session is no longer the one of the user has expired: this
/// is the mechanism to invalidate tokens.
pub fn current_user<E>(claims: &Claims, found: Result<Option<User>, E>) -> (checked: Result<
    CurrentUser,
    Error,
>)
    ensures
        match refusal(*claims, found) {
            Some(message) => checked matches Err(error) && error@ == failure(FORBIDDEN, message),
            None => checked matches Ok(current_user) && Some(*current_user.user) == found->Ok_0,
        },
{
    match found {
        Ok(Some(user)) => {
            // mechanism to invalidate JWT tokens
            if claims.jti != user.session_id {
                return Err(Error::forbidden("Token expired"));
            }
            Ok(CurrentUser::new(user))
        },
        _ => Err(Error::forbidden("Could not find user")),
    }
}

} // verus!
