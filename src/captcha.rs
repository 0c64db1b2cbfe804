//! The CAPTCHA check: when a check is skipped, what it needs, and how its answer reads.
use vstd::prelude::*;
use crate::config::{AppConfig, DEV_MOCK_SITE_KEY, MOCK_SUCCESS_TOKEN};
use crate::error::{
    is_success, is_success_status, STATUS_BAD_GATEWAY, STATUS_BAD_REQUEST,
    STATUS_INTERNAL_SERVER_ERROR, STATUS_UNPROCESSABLE_ENTITY,
};
use crate::keycloak::str_opt_view;
use crate::models::TurnstileVerifyResponse;
use crate::text::{text_eq, trim_text, trimmed};

verus! {

/// Why a CAPTCHA check did not pass.
#[derive(Debug, Clone, Copy, PartialEq, Eq, Structural)]
pub enum CaptchaError {
    MissingToken,
    Misconfigured,
    RequestFailed,
    DecodeFailed,
    Rejected,
}

/// The check is skipped: no site key, the development site key, or the mock token.
pub open spec fn skips_check(site_key: Seq<char>, token: Option<Seq<char>>) -> bool {
    site_key.len() == 0 || site_key == DEV_MOCK_SITE_KEY@ || token == Some(MOCK_SUCCESS_TOKEN@)
}

fn is_mock_token(token: Option<&str>) -> (r: bool)
    ensures
        r == (str_opt_view(token) == Some(MOCK_SUCCESS_TOKEN@)),
{
    match token {
        Some(t) => text_eq(t, MOCK_SUCCESS_TOKEN),
        None => false,
    }
}

/// Whether the CAPTCHA check of a login is skipped.
pub fn should_skip_captcha(config: &AppConfig, token: Option<&str>) -> (r: bool)
    ensures
        r == skips_check(config.turnstile_site_key@, str_opt_view(token)),
{
    config.turnstile_site_key.as_str().is_empty() || text_eq(
        config.turnstile_site_key.as_str(),
        DEV_MOCK_SITE_KEY,
    ) || is_mock_token(token)
}

/// What to do about the CAPTCHA of a request.
#[derive(Debug, Clone)]
pub enum CaptchaCheck {
    /// Nothing: the check is skipped.
    Skip,
    /// Ask the verifier with this secret about this token (both trimmed).
    Verify { secret: String, token: String },
}

/// The CAPTCHA step of a login: skipped as `should_skip_captcha` says; otherwise a
/// blank or absent token is `MissingToken`, a blank or absent secret `Misconfigured`,
/// and else the trimmed secret and token go to the verifier.
pub fn plan_captcha_check(config: &AppConfig, token: Option<&str>) -> (r: Result<CaptchaCheck, CaptchaError>)
    ensures
        skips_check(config.turnstile_site_key@, str_opt_view(token)) ==> r matches Ok(CaptchaCheck::Skip),
        !skips_check(config.turnstile_site_key@, str_opt_view(token)) ==> match r {
            Ok(CaptchaCheck::Skip) => false,
            Ok(CaptchaCheck::Verify { secret, token: t }) => token is Some && trimmed(
                token.unwrap()@,
            ).len() > 0 && t@ == trimmed(token.unwrap()@)
                && config.turnstile_secret_key is Some && trimmed(
                config.turnstile_secret_key.unwrap()@,
            ).len() > 0 && secret@ == trimmed(config.turnstile_secret_key.unwrap()@),
            Err(CaptchaError::MissingToken) => token is None || trimmed(token.unwrap()@).len() == 0,
            Err(CaptchaError::Misconfigured) => token is Some && trimmed(token.unwrap()@).len() > 0
                && (config.turnstile_secret_key is None || trimmed(
                config.turnstile_secret_key.unwrap()@,
            ).len() == 0),
            Err(_) => false,
        },
{
    if should_skip_captcha(config, token) {
        return Ok(CaptchaCheck::Skip);
    }
    let captcha_token = match token {
        Some(t) => trim_text(t),
        None => {
            return Err(CaptchaError::MissingToken);
        },
    };
    if captcha_token.is_empty() {
        return Err(CaptchaError::MissingToken);
    }
    let secret = match &config.turnstile_secret_key {
        Some(s) => trim_text(s.as_str()),
        None => {
            return Err(CaptchaError::Misconfigured);
        },
    };
    if secret.is_empty() {
        return Err(CaptchaError::Misconfigured);
    }
    Ok(CaptchaCheck::Verify { secret: secret.to_owned(), token: captcha_token.to_owned() })
}

/// How the verifier's answer reads: unreachable or a non-2xx status is `RequestFailed`,
/// an undecodable body `DecodeFailed`, `success: false` `Rejected`, else a pass.
/// `status` is `None` when the verifier could not be reached, `answer` `None` when the
/// body did not decode.
pub fn turnstile_verdict(status: Option<u16>, answer: Option<&TurnstileVerifyResponse>) -> (r: Result<(), CaptchaError>)
    ensures
        match status {
            None => r == Err::<(), CaptchaError>(CaptchaError::RequestFailed),
            Some(s) => if !is_success_status(s) {
                r == Err::<(), CaptchaError>(CaptchaError::RequestFailed)
            } else {
                match answer {
                    None => r == Err::<(), CaptchaError>(CaptchaError::DecodeFailed),
                    Some(a) => if a.success {
                        r == Ok::<(), CaptchaError>(())
                    } else {
                        r == Err::<(), CaptchaError>(CaptchaError::Rejected)
                    },
                }
            },
        },
{
    let s = match status {
        Some(s) => s,
        None => {
            return Err(CaptchaError::RequestFailed);
        },
    };
    if !is_success(s) {
        return Err(CaptchaError::RequestFailed);
    }
    match answer {
        None => Err(CaptchaError::DecodeFailed),
        Some(a) => if a.success {
            Ok(())
        } else {
            Err(CaptchaError::Rejected)
        },
    }
}

/// The HTTP status and message that each CAPTCHA failure is answered with.
pub open spec fn captcha_reply(error: CaptchaError) -> (u16, Seq<char>) {
    match error {
        CaptchaError::MissingToken => (400, "Missing captcha token"@),
        CaptchaError::Misconfigured => (500, "CAPTCHA verification misconfigured"@),
        CaptchaError::RequestFailed => (502, "CAPTCHA verification unavailable"@),
        CaptchaError::DecodeFailed => (502, "CAPTCHA verification unavailable"@),
        CaptchaError::Rejected => (422, "CAPTCHA verification failed"@),
    }
}

/// The HTTP status and message for a CAPTCHA failure.
pub fn captcha_error_status(error: CaptchaError) -> (r: (u16, &'static str))
    ensures
        (r.0, r.1@) == captcha_reply(error),
{
    match error {
        CaptchaError::MissingToken => (STATUS_BAD_REQUEST, "Missing captcha token"),
        CaptchaError::Misconfigured => (STATUS_INTERNAL_SERVER_ERROR, "CAPTCHA verification misconfigured"),
        CaptchaError::RequestFailed => (STATUS_BAD_GATEWAY, "CAPTCHA verification unavailable"),
        CaptchaError::DecodeFailed => (STATUS_BAD_GATEWAY, "CAPTCHA verification unavailable"),
        CaptchaError::Rejected => (STATUS_UNPROCESSABLE_ENTITY, "CAPTCHA verification failed"),
    }
}

} // verus!
