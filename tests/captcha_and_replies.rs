use argus_backend::captcha::{
    captcha_error_status, plan_captcha_check, should_skip_captcha, turnstile_verdict,
    CaptchaCheck, CaptchaError,
};
use argus_backend::config::AppConfig;
use argus_backend::error::KeycloakError;
use argus_backend::handlers::{
    bad_request, check_login_input, check_refresh_input, internal_error, invalid_request,
    logout_reply, map_keycloak_error, map_logout_error, map_token_error,
    plan_registration_captcha, registration_captcha_verdict, registration_reply,
    registration_skips_captcha, token_reply,
};
use argus_backend::keycloak::{CreateUserResult, UserTokenSet};
use argus_backend::models::TurnstileVerifyResponse;

fn config(site_key: &str, secret: Option<&str>) -> AppConfig {
    let mut vars = vec![("VITE_TURNSTILE_SITE_KEY".to_string(), site_key.to_string())];
    if let Some(s) = secret {
        vars.push(("TURNSTILE_SECRET_KEY".to_string(), s.to_string()));
    }
    AppConfig::from_env(&vars)
}

fn unexpected() -> KeycloakError {
    KeycloakError::UnexpectedStatus { status: 500, message: "x".to_string() }
}

fn invalid_grant() -> KeycloakError {
    KeycloakError::InvalidGrant { error: "invalid_grant".to_string(), description: None }
}

fn reply_of(r: (u16, argus_backend::models::ErrorResponse)) -> (u16, String) {
    (r.0, r.1.error)
}

#[test]
fn captcha_skips() {
    assert!(should_skip_captcha(&config("", None), None));
    assert!(should_skip_captcha(&config("dev-mock", None), None));
    assert!(should_skip_captcha(&config("site", None), Some("mock-success")));
    assert!(!should_skip_captcha(&config("site", None), Some("tok")));
    assert!(registration_skips_captcha(&config("dev-mock", None), None));
    assert!(!registration_skips_captcha(&config("", None), None));
}

#[test]
fn captcha_plan() {
    let c = config("site", Some(" sec "));
    assert!(matches!(plan_captcha_check(&config("dev-mock", None), None), Ok(CaptchaCheck::Skip)));
    assert_eq!(plan_captcha_check(&c, None).unwrap_err(), CaptchaError::MissingToken);
    assert_eq!(plan_captcha_check(&c, Some("  ")).unwrap_err(), CaptchaError::MissingToken);
    assert_eq!(
        plan_captcha_check(&config("site", Some(" ")), Some("t")).unwrap_err(),
        CaptchaError::Misconfigured
    );
    assert_eq!(plan_captcha_check(&config("site", None), Some("t")).unwrap_err(), CaptchaError::Misconfigured);
    match plan_captcha_check(&c, Some(" tok ")) {
        Ok(CaptchaCheck::Verify { secret, token }) => {
            assert_eq!(secret, "sec");
            assert_eq!(token, "tok");
        }
        other => panic!("unexpected {:?}", other),
    }
}

#[test]
fn captcha_verdicts() {
    let pass = TurnstileVerifyResponse { success: true, error_codes: vec![] };
    let fail = TurnstileVerifyResponse { success: false, error_codes: vec!["invalid-input-response".to_string()] };
    assert_eq!(turnstile_verdict(None, None), Err(CaptchaError::RequestFailed));
    assert_eq!(turnstile_verdict(Some(500), Some(&pass)), Err(CaptchaError::RequestFailed));
    assert_eq!(turnstile_verdict(Some(200), None), Err(CaptchaError::DecodeFailed));
    assert_eq!(turnstile_verdict(Some(200), Some(&fail)), Err(CaptchaError::Rejected));
    assert_eq!(turnstile_verdict(Some(200), Some(&pass)), Ok(()));
}

#[test]
fn captcha_statuses() {
    assert_eq!(captcha_error_status(CaptchaError::MissingToken), (400, "Missing captcha token"));
    assert_eq!(captcha_error_status(CaptchaError::Misconfigured), (500, "CAPTCHA verification misconfigured"));
    assert_eq!(captcha_error_status(CaptchaError::RequestFailed), (502, "CAPTCHA verification unavailable"));
    assert_eq!(captcha_error_status(CaptchaError::DecodeFailed), (502, "CAPTCHA verification unavailable"));
    assert_eq!(captcha_error_status(CaptchaError::Rejected), (422, "CAPTCHA verification failed"));
}

#[test]
fn registration_captcha() {
    let c = config("site", Some("sec"));
    assert!(matches!(plan_registration_captcha(&config("dev-mock", None), None), Ok(None)));
    let e = plan_registration_captcha(&c, Some(" ")).unwrap_err();
    assert_eq!(reply_of(e), (400, "Missing captcha token for verification".to_string()));
    let e = plan_registration_captcha(&config("site", None), Some("t")).unwrap_err();
    assert_eq!(reply_of(e), (500, "CAPTCHA verification misconfigured".to_string()));
    assert_eq!(
        plan_registration_captcha(&c, Some("t")).unwrap(),
        Some(("sec".to_string(), "t".to_string()))
    );
    let pass = TurnstileVerifyResponse { success: true, error_codes: vec![] };
    let fail = TurnstileVerifyResponse { success: false, error_codes: vec![] };
    assert_eq!(reply_of(registration_captcha_verdict(None, None).unwrap_err()).0, 500);
    assert_eq!(reply_of(registration_captcha_verdict(Some(403), None).unwrap_err()), (502, "CAPTCHA verification failed".to_string()));
    assert_eq!(reply_of(registration_captcha_verdict(Some(200), None).unwrap_err()), (500, "CAPTCHA verification unavailable".to_string()));
    assert_eq!(reply_of(registration_captcha_verdict(Some(200), Some(&fail)).unwrap_err()).0, 422);
    assert!(registration_captcha_verdict(Some(200), Some(&pass)).is_ok());
}

#[test]
fn token_error_replies() {
    assert_eq!(reply_of(map_token_error(&invalid_grant())), (401, "Invalid email or password".to_string()));
    assert_eq!(reply_of(map_token_error(&unexpected())), (502, "Identity provider error".to_string()));
    assert_eq!(reply_of(map_token_error(&KeycloakError::TokenUnavailable)), (503, "Identity provider unavailable".to_string()));
}

#[test]
fn logout_and_registration_error_replies() {
    assert_eq!(reply_of(map_logout_error(&invalid_grant())), (400, "Invalid refresh token".to_string()));
    assert_eq!(reply_of(map_logout_error(&unexpected())), (502, "Identity provider error".to_string()));
    assert_eq!(reply_of(map_keycloak_error(&KeycloakError::TokenUnavailable)), (503, "Registration temporarily unavailable".to_string()));
    assert_eq!(reply_of(map_keycloak_error(&unexpected())), (502, "Identity service error".to_string()));
}

#[test]
fn simple_replies() {
    assert_eq!(reply_of(invalid_request("m")), (400, "m".to_string()));
    assert_eq!(reply_of(bad_request("m")), (400, "m".to_string()));
    assert_eq!(reply_of(internal_error("m")), (500, "m".to_string()));
}

#[test]
fn login_and_refresh_inputs() {
    assert_eq!(check_login_input("  a@b.c ", "pw").unwrap(), "a@b.c");
    assert_eq!(reply_of(check_login_input(" ", "pw").unwrap_err()), (400, "Email and password are required".to_string()));
    assert!(check_login_input("a@b.c", "  ").is_err());
    assert!(check_refresh_input("rt").is_ok());
    assert_eq!(reply_of(check_refresh_input("\t").unwrap_err()), (400, "Refresh token is required".to_string()));
}

#[test]
fn outcome_replies() {
    let tokens = UserTokenSet {
        token_type: "Bearer".to_string(),
        access_token: "a".to_string(),
        refresh_token: "r".to_string(),
        expires_in: 300,
        refresh_expires_in: None,
    };
    let (status, body) = token_reply(Ok(tokens)).unwrap();
    assert_eq!(status, 200);
    assert_eq!(body.access_token, "a");
    assert_eq!(reply_of(token_reply(Err(invalid_grant())).unwrap_err()).0, 401);
    assert_eq!(logout_reply(Ok(())).unwrap(), 204);
    assert_eq!(logout_reply(Err(invalid_grant())).unwrap(), 204);
    assert_eq!(reply_of(logout_reply(Err(unexpected())).unwrap_err()).0, 502);
    let (status, body) = registration_reply(Ok(CreateUserResult::Created)).unwrap();
    assert_eq!((status, body.message.as_str()), (201, "User registered"));
    assert_eq!(
        reply_of(registration_reply(Ok(CreateUserResult::Conflict("dup".to_string()))).unwrap_err()),
        (409, "Email already exists".to_string())
    );
    assert_eq!(reply_of(registration_reply(Err(KeycloakError::TokenUnavailable)).unwrap_err()).0, 503);
}
