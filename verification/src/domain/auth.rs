//! Authentication types: sign-up/sign-in requests and the shapes of the
//! external identity provider's replies.

use vstd::prelude::*;

use crate::store::clone_opt_string;

verus! {

/// User type.
#[derive(Debug, Clone, Copy, PartialEq, Eq, Structural)]
pub enum UserType {
    /// General contractor.
    Gc,
    /// Subcontractor.
    Sub,
}

impl Default for UserType {
    /// General contractor unless said otherwise.
    fn default() -> (r: Self)
        ensures
            r == UserType::Gc,
    {
        UserType::Gc
    }
}

/// Request body for signing up.
#[derive(Debug, Clone, PartialEq, Eq)]
pub struct SignUpRequest {
    pub email: String,
    pub password: String,
    pub user_type: UserType,
    pub company_name: Option<String>,
}

/// Request body for signing in.
#[derive(Debug, Clone, PartialEq, Eq)]
pub struct SignInRequest {
    pub email: String,
    pub password: String,
}

/// Request body for refreshing a session token.
#[derive(Debug, Clone, PartialEq, Eq)]
pub struct RefreshTokenRequest {
    pub refresh_token: String,
}

/// Reply after a sign-up that awaits email confirmation.
#[derive(Debug, Clone, PartialEq, Eq)]
pub struct SignupPendingResponse {
    pub user_id: String,
    pub email: String,
    pub confirmation_required: bool,
    pub message: String,
}

/// Error reply of the identity provider; fields differ between its old and
/// new formats, so each is optional.
#[derive(Debug, Clone, PartialEq, Eq)]
pub struct SupabaseErrorResponse {
    pub code: Option<i32>,
    pub error_code: Option<String>,
    pub msg: Option<String>,
    pub error: Option<String>,
    pub error_description: Option<String>,
    pub message: Option<String>,
}

impl SupabaseErrorResponse {
    /// The first populated message field, in order of preference `message`,
    /// `msg`, `error_description`, `error`; a fixed text when all are empty.
    pub fn get_message(&self) -> (r: String)
        ensures
            self.message is Some ==> r == self.message->0,
            self.message is None && self.msg is Some ==> r == self.msg->0,
            self.message is None && self.msg is None && self.error_description is Some ==> r
                == self.error_description->0,
            self.message is None && self.msg is None && self.error_description is None
                && self.error is Some ==> r == self.error->0,
            self.message is None && self.msg is None && self.error_description is None
                && self.error is None ==> r@ == "Unknown authentication error"@,
    {
        match clone_opt_string(&self.message) {
            Some(m) => m,
            None => match clone_opt_string(&self.msg) {
                Some(m) => m,
                None => match clone_opt_string(&self.error_description) {
                    Some(m) => m,
                    None => match clone_opt_string(&self.error) {
                        Some(m) => m,
                        None => String::from_str("Unknown authentication error"),
                    },
                },
            },
        }
    }
}

/// Provider metadata carried in a token's claims.
#[derive(Debug, Clone, PartialEq, Eq)]
pub struct AppMetadata {
    pub provider: Option<String>,
    pub providers: Option<Vec<String>>,
}

/// Why a request failed authentication.
#[derive(Debug, Clone, PartialEq, Eq)]
pub enum AuthError {
    MissingToken,
    InvalidFormat,
    InvalidToken(String),
}

} // verus!
