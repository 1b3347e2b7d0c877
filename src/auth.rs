//! Turning a login exchange into a session.
use crate::models::{AuthContext, AuthPayload, AuthSuccess};
use vstd::prelude::*;

verus! {

/// Why a login did not give a session.
#[derive(Clone, Debug, PartialEq, Eq, Structural)]
pub enum AuthError {
    /// The service answered with this non-success status.
    AuthenticationFailed(u16),
    /// The body of a successful answer held no token.
    MissingToken,
    /// The body of a successful answer held no user.
    MissingUser,
}

pub open spec fn is_success_code(status: u16) -> bool {
    200 <= status <= 299
}

/// Whether an HTTP status is a success (2xx).
pub fn status_is_success(status: u16) -> (r: bool)
    ensures
        r == is_success_code(status),
{
    200 <= status && status <= 299
}

/// The login's status, checked: a non-success status fails authentication.
pub fn check_login_status(status: u16) -> (r: Result<(), AuthError>)
    ensures
        r is Ok <==> is_success_code(status),
        r is Err ==> r == Err::<(), AuthError>(AuthError::AuthenticationFailed(status)),
{
    if status_is_success(status) {
        Ok(())
    } else {
        Err(AuthError::AuthenticationFailed(status))
    }
}

/// The session that a successful login body gives: it needs both a token and a user.
pub fn session_from_auth(api_url: &str, auth: AuthSuccess) -> (r: Result<AuthContext, AuthError>)
    ensures
        r is Ok <==> (auth.token is Some && auth.user is Some),
        auth.token is None ==> r == Err::<AuthContext, AuthError>(AuthError::MissingToken),
        auth.token is Some && auth.user is None ==> r == Err::<AuthContext, AuthError>(
            AuthError::MissingUser,
        ),
        r matches Ok(ctx) ==> {
            &&& ctx.api_url@ == api_url@
            &&& Some(ctx.token) == auth.token
            &&& Some(ctx.user) == auth.user
        },
{
    match auth.token {
        None => Err(AuthError::MissingToken),
        Some(token) => match auth.user {
            None => Err(AuthError::MissingUser),
            Some(user) => Ok(AuthContext { api_url: api_url.to_owned(), token, user }),
        },
    }
}

/// The login request for a user, carrying the captcha token.
pub fn login_payload(username: &str, password: &str, captcha_token: String) -> (r: AuthPayload)
    ensures
        r.username@ == username@,
        r.password@ == password@,
        r.captcha_token == captcha_token,
{
    AuthPayload {
        username: username.to_owned(),
        password: password.to_owned(),
        captcha_token,
    }
}

} // verus!
