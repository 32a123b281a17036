//! The bodies of the requests that the session flows read.

use vstd::prelude::*;

verus! {

/// The body of a login request.
#[derive(Debug)]
pub struct LoginUser {
    pub username: String,
    pub password: String,
}

/// The body of a request that creates a user.
#[derive(Debug)]
pub struct CreateUser {
    pub username: String,
    pub email: Option<String>,
    pub password: String,
}

/// The body of a request that updates a user: what is absent stays as it is.
#[derive(Debug)]
pub struct UpdateUser {
    pub username: Option<String>,
    pub email: Option<String>,
    pub password: Option<String>,
}

/// The body of a request to change the password.
pub struct ChangePasswordPayload {
    pub current_password: String,
    pub new_password: String,
}

/// The body of a request for a password reset.
pub struct RequestPasswordResetPayload {
    pub email_or_username: String,
}

/// The body of a request that completes a password reset.
pub struct ConfirmPasswordResetPayload {
    pub token: String,
    pub new_password: String,
}

} // verus!
