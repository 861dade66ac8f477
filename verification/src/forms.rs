//! Request bodies of the account endpoints, and what the account endpoints
//! keep in the cache between a request and its e-mailed confirmation.

use vstd::prelude::*;

verus! {

/// A login request: a user name or e-mail address, and a password.
#[derive(Debug, Clone, PartialEq)]
pub struct LoginForm {
    pub identifier: String,
    pub password: String,
}

/// A registration request.
#[derive(Debug, Clone, PartialEq)]
pub struct RegisterForm {
    pub username: String,
    pub email: String,
    pub password: String,
}

/// The confirmation of a registration: the user name and the e-mailed token.
#[derive(Debug, Clone, PartialEq)]
pub struct EmailAuthForm {
    pub username: String,
    pub token: String,
}

/// A request for a password-reset e-mail.
#[derive(Debug, Clone, PartialEq)]
pub struct RequireResetPasswordForm {
    pub identifier: String,
}

/// A password reset: the account, the e-mailed token and the new password.
#[derive(Debug, Clone, PartialEq)]
pub struct ResetPasswordForm {
    pub identifier: String,
    pub reset_token: String,
    pub password: String,
}

/// A registration waiting for e-mail confirmation; `password` is already hashed.
#[derive(Debug, Clone, PartialEq)]
pub struct EmailAuthInfo {
    pub username: String,
    pub email: String,
    pub password: String,
}

/// A password reset waiting for its token.
#[derive(Debug, Clone, Copy, PartialEq, Eq)]
pub struct ResetPasswordInfo {
    pub uid: i32,
}

/// An e-mail change waiting for its token.
#[derive(Debug, Clone, PartialEq)]
pub struct EmailChangeStoreInfo {
    pub uid: i32,
    pub new_email: String,
}

} // verus!
