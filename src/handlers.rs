//! What the login, refresh, logout and registration endpoints answer, given what the
//! clients and the CAPTCHA check returned.
use vstd::prelude::*;
use crate::config::{AppConfig, DEV_MOCK_SITE_KEY, MOCK_SUCCESS_TOKEN};
use crate::error::{
    is_success, is_success_status, ErrorView, KeycloakError, STATUS_BAD_GATEWAY,
    STATUS_BAD_REQUEST, STATUS_CONFLICT, STATUS_CREATED, STATUS_INTERNAL_SERVER_ERROR,
    STATUS_NO_CONTENT, STATUS_OK, STATUS_SERVICE_UNAVAILABLE, STATUS_UNAUTHORIZED,
    STATUS_UNPROCESSABLE_ENTITY,
};
use crate::keycloak::{str_opt_view, CreateUserResult, UserTokenSet};
use crate::models::{
    to_auth_response, AuthResponse, ErrorResponse, RegisterResponse, TurnstileVerifyResponse,
};
use crate::text::{is_blank, text_eq, trim_text, trimmed};

verus! {

/// An HTTP status with an error message.
pub type ErrorReply = (u16, ErrorResponse);

pub open spec fn reply_view(r: ErrorReply) -> (u16, Seq<char>) {
    (r.0, r.1.error@)
}

fn reply(status: u16, message: &str) -> (r: ErrorReply)
    ensures
        reply_view(r) == (status, message@),
{
    (status, ErrorResponse::new(message.to_owned()))
}

/// A 400 answer with `message`.
pub fn invalid_request(message: &str) -> (r: ErrorReply)
    ensures
        reply_view(r) == (400u16, message@),
{
    reply(STATUS_BAD_REQUEST, message)
}

/// A 400 answer with `message`.
pub fn bad_request(message: &str) -> (r: ErrorReply)
    ensures
        reply_view(r) == (400u16, message@),
{
    reply(STATUS_BAD_REQUEST, message)
}

/// A 500 answer with `message`.
pub fn internal_error(message: &str) -> (r: ErrorReply)
    ensures
        reply_view(r) == (500u16, message@),
{
    reply(STATUS_INTERNAL_SERVER_ERROR, message)
}

/// The answer to a failed login or refresh grant.
pub open spec fn token_error_reply(e: ErrorView) -> (u16, Seq<char>) {
    match e {
        ErrorView::InvalidGrant(_, _) => (401, "Invalid email or password"@),
        ErrorView::Request => (502, "Identity provider unavailable"@),
        ErrorView::UnexpectedStatus(_, _) => (502, "Identity provider error"@),
        ErrorView::TokenUnavailable => (503, "Identity provider unavailable"@),
    }
}

/// The answer to a failed logout that was not treated as done.
pub open spec fn logout_error_reply(e: ErrorView) -> (u16, Seq<char>) {
    match e {
        ErrorView::InvalidGrant(_, _) => (400, "Invalid refresh token"@),
        ErrorView::Request => (502, "Identity provider unavailable"@),
        ErrorView::UnexpectedStatus(_, _) => (502, "Identity provider error"@),
        ErrorView::TokenUnavailable => (503, "Identity provider unavailable"@),
    }
}

/// The answer to a failed registration.
pub open spec fn registration_error_reply(e: ErrorView) -> (u16, Seq<char>) {
    match e {
        ErrorView::TokenUnavailable => (503, "Registration temporarily unavailable"@),
        ErrorView::Request => (502, "Unable to reach identity service"@),
        ErrorView::UnexpectedStatus(_, _) => (502, "Identity service error"@),
        ErrorView::InvalidGrant(_, _) => (502, "Identity service error"@),
    }
}

/// Maps a login or refresh failure to its answer: refused credentials are 401, an
/// unreachable or misbehaving provider 502, a missing admin credential 503.
pub fn map_token_error(error: &KeycloakError) -> (r: ErrorReply)
    ensures
        reply_view(r) == token_error_reply(error@),
{
    match error {
        KeycloakError::InvalidGrant { .. } => reply(STATUS_UNAUTHORIZED, "Invalid email or password"),
        KeycloakError::Request(_) => reply(STATUS_BAD_GATEWAY, "Identity provider unavailable"),
        KeycloakError::UnexpectedStatus { .. } => reply(STATUS_BAD_GATEWAY, "Identity provider error"),
        KeycloakError::TokenUnavailable => reply(STATUS_SERVICE_UNAVAILABLE, "Identity provider unavailable"),
    }
}

/// Maps a logout failure to its answer.
pub fn map_logout_error(error: &KeycloakError) -> (r: ErrorReply)
    ensures
        reply_view(r) == logout_error_reply(error@),
{
    match error {
        KeycloakError::Request(_) => reply(STATUS_BAD_GATEWAY, "Identity provider unavailable"),
        KeycloakError::UnexpectedStatus { .. } => reply(STATUS_BAD_GATEWAY, "Identity provider error"),
        KeycloakError::TokenUnavailable => reply(STATUS_SERVICE_UNAVAILABLE, "Identity provider unavailable"),
        KeycloakError::InvalidGrant { .. } => reply(STATUS_BAD_REQUEST, "Invalid refresh token"),
    }
}

/// Maps a registration failure to its answer.
pub fn map_keycloak_error(error: &KeycloakError) -> (r: ErrorReply)
    ensures
        reply_view(r) == registration_error_reply(error@),
{
    match error {
        KeycloakError::TokenUnavailable => reply(
            STATUS_SERVICE_UNAVAILABLE,
            "Registration temporarily unavailable",
        ),
        KeycloakError::Request(_) => reply(STATUS_BAD_GATEWAY, "Unable to reach identity service"),
        KeycloakError::UnexpectedStatus { .. } => reply(STATUS_BAD_GATEWAY, "Identity service error"),
        KeycloakError::InvalidGrant { .. } => reply(STATUS_BAD_GATEWAY, "Identity service error"),
    }
}

/// The e-mail to log in with, trimmed, when both it and the password are non-blank;
/// else a 400 answer.
pub fn check_login_input(email: &str, password: &str) -> (r: Result<String, ErrorReply>)
    ensures
        match r {
            Ok(e) => trimmed(email@).len() > 0 && trimmed(password@).len() > 0 && e@ == trimmed(
                email@,
            ),
            Err(rep) => (trimmed(email@).len() == 0 || trimmed(password@).len() == 0) && reply_view(
                rep,
            ) == (400u16, "Email and password are required"@),
        },
{
    let e = trim_text(email);
    if e.is_empty() || is_blank(password) {
        return Err(invalid_request("Email and password are required"));
    }
    Ok(e.to_owned())
}

/// A refresh or logout needs a non-blank refresh token; else a 400 answer.
pub fn check_refresh_input(refresh_token: &str) -> (r: Result<(), ErrorReply>)
    ensures
        match r {
            Ok(()) => trimmed(refresh_token@).len() > 0,
            Err(rep) => trimmed(refresh_token@).len() == 0 && reply_view(rep) == (
                400u16,
                "Refresh token is required"@,
            ),
        },
{
    if is_blank(refresh_token) {
        return Err(invalid_request("Refresh token is required"));
    }
    Ok(())
}

/// The answer to a login or refresh: 200 with the tokens, or the failure's answer.
pub fn token_reply(result: Result<UserTokenSet, KeycloakError>) -> (r: Result<(u16, AuthResponse), ErrorReply>)
    ensures
        match result {
            Ok(t) => r matches Ok((s, a)) && s == 200 && a.access_token@ == t.access_token@
                && a.refresh_token@ == t.refresh_token@ && a.token_type@ == t.token_type@
                && a.expires_in == t.expires_in && a.refresh_expires_in == t.refresh_expires_in,
            Err(e) => r matches Err(rep) && reply_view(rep) == token_error_reply(e@),
        },
{
    match result {
        Ok(tokens) => Ok((STATUS_OK, to_auth_response(tokens))),
        Err(e) => Err(map_token_error(&e)),
    }
}

/// The answer to a logout: 204 when it went through or the token was refused as
/// invalid, else the failure's answer.
pub fn logout_reply(result: Result<(), KeycloakError>) -> (r: Result<u16, ErrorReply>)
    ensures
        match result {
            Ok(()) => r == Ok::<u16, ErrorReply>(204),
            Err(e) => match e@ {
                ErrorView::InvalidGrant(_, _) => r == Ok::<u16, ErrorReply>(204),
                _ => r matches Err(rep) && reply_view(rep) == logout_error_reply(e@),
            },
        },
{
    match result {
        Ok(()) => Ok(STATUS_NO_CONTENT),
        Err(KeycloakError::InvalidGrant { .. }) => Ok(STATUS_NO_CONTENT),
        Err(e) => Err(map_logout_error(&e)),
    }
}

/// The answer to a registration: 201 when the user was created, 409 when the e-mail is
/// taken, else the failure's answer.
pub fn registration_reply(result: Result<CreateUserResult, KeycloakError>) -> (r: Result<(u16, RegisterResponse), ErrorReply>)
    ensures
        match result {
            Ok(CreateUserResult::Created) => r matches Ok((s, resp)) && s == 201
                && resp.message@ == "User registered"@,
            Ok(CreateUserResult::Conflict(_)) => r matches Err(rep) && reply_view(rep) == (
                409u16,
                "Email already exists"@,
            ),
            Err(e) => r matches Err(rep) && reply_view(rep) == registration_error_reply(e@),
        },
{
    match result {
        Ok(CreateUserResult::Created) => Ok((STATUS_CREATED, RegisterResponse::success())),
        Ok(CreateUserResult::Conflict(_)) => Err(reply(STATUS_CONFLICT, "Email already exists")),
        Err(e) => Err(map_keycloak_error(&e)),
    }
}

/// A registration skips its CAPTCHA with the development site key or the mock token.
pub open spec fn registration_skips(site_key: Seq<char>, token: Option<Seq<char>>) -> bool {
    site_key == DEV_MOCK_SITE_KEY@ || token == Some(MOCK_SUCCESS_TOKEN@)
}

/// Whether a registration's CAPTCHA check is skipped.
pub fn registration_skips_captcha(config: &AppConfig, token: Option<&str>) -> (r: bool)
    ensures
        r == registration_skips(config.turnstile_site_key@, str_opt_view(token)),
{
    text_eq(config.turnstile_site_key.as_str(), DEV_MOCK_SITE_KEY) || match token {
        Some(t) => text_eq(t, MOCK_SUCCESS_TOKEN),
        None => false,
    }
}

/// The CAPTCHA step of a registration: `None` when it is skipped; otherwise a blank or
/// absent token is a 400, a blank or absent secret a 500, and else the secret and the
/// token (as sent) go to the verifier.
pub fn plan_registration_captcha(config: &AppConfig, token: Option<&str>) -> (r: Result<Option<(String, String)>, ErrorReply>)
    ensures
        registration_skips(config.turnstile_site_key@, str_opt_view(token)) ==> r matches Ok(None),
        !registration_skips(config.turnstile_site_key@, str_opt_view(token)) ==> match r {
            Ok(None) => false,
            Ok(Some((secret, t))) => token is Some && trimmed(token.unwrap()@).len() > 0 && t@
                == token.unwrap()@ && config.turnstile_secret_key is Some && trimmed(
                config.turnstile_secret_key.unwrap()@,
            ).len() > 0 && secret@ == config.turnstile_secret_key.unwrap()@,
            Err(rep) => if token is None || trimmed(token.unwrap()@).len() == 0 {
                reply_view(rep) == (400u16, "Missing captcha token for verification"@)
            } else {
                (config.turnstile_secret_key is None || trimmed(
                    config.turnstile_secret_key.unwrap()@,
                ).len() == 0) && reply_view(rep) == (500u16, "CAPTCHA verification misconfigured"@)
            },
        },
{
    if registration_skips_captcha(config, token) {
        return Ok(None);
    }
    let captcha = match token {
        Some(t) => t,
        None => {
            return Err(bad_request("Missing captcha token for verification"));
        },
    };
    if is_blank(captcha) {
        return Err(bad_request("Missing captcha token for verification"));
    }
    let secret = match &config.turnstile_secret_key {
        Some(s) => s,
        None => {
            return Err(internal_error("CAPTCHA verification misconfigured"));
        },
    };
    if is_blank(secret.as_str()) {
        return Err(internal_error("CAPTCHA verification misconfigured"));
    }
    Ok(Some((secret.clone(), captcha.to_owned())))
}

/// How the verifier's answer to a registration reads: unreachable or undecodable is a
/// 500, a non-2xx status a 502, `success: false` a 422, else a pass. `status` is `None`
/// when the verifier could not be reached, `answer` `None` when the body did not decode.
pub fn registration_captcha_verdict(status: Option<u16>, answer: Option<&TurnstileVerifyResponse>) -> (r: Result<(), ErrorReply>)
    ensures
        match status {
            None => r matches Err(rep) && reply_view(rep) == (500u16, "CAPTCHA verification unavailable"@),
            Some(s) => if !is_success_status(s) {
                r matches Err(rep) && reply_view(rep) == (502u16, "CAPTCHA verification failed"@)
            } else {
                match answer {
                    None => r matches Err(rep) && reply_view(rep) == (
                        500u16,
                        "CAPTCHA verification unavailable"@,
                    ),
                    Some(a) => if a.success {
                        r is Ok
                    } else {
                        r matches Err(rep) && reply_view(rep) == (422u16, "CAPTCHA verification failed"@)
                    },
                }
            },
        },
{
    let s = match status {
        Some(s) => s,
        None => {
            return Err(internal_error("CAPTCHA verification unavailable"));
        },
    };
    if !is_success(s) {
        return Err(reply(STATUS_BAD_GATEWAY, "CAPTCHA verification failed"));
    }
    match answer {
        None => Err(internal_error("CAPTCHA verification unavailable")),
        Some(a) => if a.success {
            Ok(())
        } else {
            Err(reply(STATUS_UNPROCESSABLE_ENTITY, "CAPTCHA verification failed"))
        },
    }
}

} // verus!
