//! The bodies of requests and answers of the API, as the library holds
//! them. The app gives each its wire format.
use vstd::prelude::*;

use crate::auth::sessions::Session;
use crate::auth::TotpSetup;
use crate::users::User;

verus! {

/// Address and password of registration and login.
pub struct Credentials {
    pub email: String,
    pub password: String,
}

/// The answer of a login that finished: the access token and the user.
pub struct TokenResponse {
    pub access_token: String,
    pub user: User,
}

/// The answer of a login: finished, or waiting for the code of the second
/// factor.
pub struct LoginResponse {
    /// present when no second step is needed
    pub access_token: Option<String>,
    pub user: Option<User>,
    /// the second step is needed: POST /api/auth/2fa/verify with the token
    pub requires_2fa: bool,
    pub pending_token: Option<String>,
}

impl LoginResponse {
    /// A finished login.
    pub fn done(session: Session, user: User) -> (r: LoginResponse)
        ensures
            r.access_token == Some(session.access_token),
            r.user == Some(user),
            !r.requires_2fa,
            r.pending_token is None,
    {
        LoginResponse {
            access_token: Some(session.access_token),
            user: Some(user),
            requires_2fa: false,
            pending_token: None,
        }
    }

    /// A login waiting for the code of the second factor.
    pub fn pending(token: String) -> (r: LoginResponse)
        ensures
            r.access_token is None,
            r.user is None,
            r.requires_2fa,
            r.pending_token == Some(token),
    {
        LoginResponse { access_token: None, user: None, requires_2fa: true, pending_token: Some(token) }
    }
}

impl TokenResponse {
    /// The answer that hands out a session; its refresh token goes to the
    /// cookie, not the body.
    pub fn of(session: Session, user: User) -> (r: (TokenResponse, String))
        ensures
            r.0.access_token == session.access_token,
            r.0.user == user,
            r.1 == session.refresh_token,
    {
        (TokenResponse { access_token: session.access_token, user }, session.refresh_token)
    }
}

pub struct ChangePasswordRequest {
    pub current_password: String,
    pub new_password: String,
}

pub struct ChangeEmailRequest {
    pub new_email: String,
    pub current_password: String,
}

pub struct ConfirmEmailRequest {
    pub token: String,
}

pub struct ForgotRequest {
    pub email: String,
}

pub struct ResetRequest {
    pub token: String,
    pub password: String,
}

pub struct Verify2faRequest {
    pub pending_token: String,
    pub code: String,
}

pub struct VerifyEmailRequest {
    pub token: String,
}

pub struct TotpSetupResponse {
    pub secret: String,
    pub otpauth_url: String,
}

impl TotpSetupResponse {
    pub fn of(setup: TotpSetup) -> (r: TotpSetupResponse)
        ensures
            r.secret == setup.secret,
            r.otpauth_url == setup.otpauth_url,
    {
        TotpSetupResponse { secret: setup.secret, otpauth_url: setup.otpauth_url }
    }
}

pub struct TotpEnableRequest {
    pub secret: String,
    pub code: String,
}

pub struct TotpCodeRequest {
    pub code: String,
}

/// The body of an upload: the file of the estimate.
pub struct UploadForm {
    pub file: String,
}

/// What is deployed right now.
pub struct VersionInfo {
    pub version: &'static str,
    pub commit: &'static str,
}

} // verus!
