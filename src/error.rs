//! The error kinds that the identity-provider clients hand back to their callers.
use vstd::prelude::*;

verus! {

/// A transport failure reported by the HTTP client (connection, DNS, TLS, I/O).
#[verifier::external_type_specification]
#[verifier::external_body]
pub struct ExRequestError(reqwest::Error);

/// Why a call to the identity provider did not produce the expected outcome.
#[derive(Debug)]
pub enum KeycloakError {
    /// The admin credential could not be obtained or stayed rejected after the retry budget.
    TokenUnavailable,
    /// The provider could not be reached.
    Request(reqwest::Error),
    /// The provider answered with a status or a body shape that is not handled.
    UnexpectedStatus { status: u16, message: String },
    /// The end user's credentials or refresh token were refused.
    InvalidGrant { error: String, description: Option<String> },
}

/// What kind of error a `KeycloakError` is, with its plain values.
pub ghost enum ErrorView {
    TokenUnavailable,
    Request,
    UnexpectedStatus(u16, Seq<char>),
    InvalidGrant(Seq<char>, Option<Seq<char>>),
}

impl View for KeycloakError {
    type V = ErrorView;

    open spec fn view(&self) -> ErrorView {
        match self {
            KeycloakError::TokenUnavailable => ErrorView::TokenUnavailable,
            KeycloakError::Request(_) => ErrorView::Request,
            KeycloakError::UnexpectedStatus { status, message } => ErrorView::UnexpectedStatus(
                *status,
                message@,
            ),
            KeycloakError::InvalidGrant { error, description } => ErrorView::InvalidGrant(
                error@,
                match description {
                    Some(d) => Some(d@),
                    None => None,
                },
            ),
        }
    }
}

/// A 2xx status.
pub open spec fn is_success_status(status: u16) -> bool {
    200 <= status && status <= 299
}

/// Whether `status` is in the 2xx range.
pub fn is_success(status: u16) -> (r: bool)
    ensures
        r == is_success_status(status),
{
    200 <= status && status <= 299
}

pub const STATUS_OK: u16 = 200;
pub const STATUS_CREATED: u16 = 201;
pub const STATUS_NO_CONTENT: u16 = 204;
pub const STATUS_BAD_REQUEST: u16 = 400;
pub const STATUS_UNAUTHORIZED: u16 = 401;
pub const STATUS_FORBIDDEN: u16 = 403;
pub const STATUS_CONFLICT: u16 = 409;
pub const STATUS_UNPROCESSABLE_ENTITY: u16 = 422;
pub const STATUS_INTERNAL_SERVER_ERROR: u16 = 500;
pub const STATUS_BAD_GATEWAY: u16 = 502;
pub const STATUS_SERVICE_UNAVAILABLE: u16 = 503;

} // verus!
