use argus_backend::config::AppConfig;
use argus_backend::error::KeycloakError;
use argus_backend::json::JsonField;
use argus_backend::keycloak::{
    handle_user_token_response, logout_outcome, user_tokens_from_fields, CreateUserFlow,
    CreateUserResult, CreateUserStep, KeycloakSettings,
};

fn settings(secret: Option<&str>) -> KeycloakSettings {
    let mut vars = vec![("KEYCLOAK_BASE_URL".to_string(), "https://id.example/".to_string())];
    if let Some(s) = secret {
        vars.push(("KEYCLOAK_PUBLIC_CLIENT_SECRET".to_string(), s.to_string()));
    }
    KeycloakSettings::from_config(&AppConfig::from_env(&vars))
}

fn pairs(form: &[(String, String)]) -> Vec<(&str, &str)> {
    form.iter().map(|(k, v)| (k.as_str(), v.as_str())).collect()
}

/// Drives one user creation against a scripted sequence of statuses; returns the result
/// and the number of calls made.
fn run_create_user(statuses: &[u16]) -> (Result<CreateUserResult, KeycloakError>, usize, usize) {
    let mut flow = CreateUserFlow::new();
    let mut calls = 0;
    let mut invalidations = 0;
    while flow.has_attempts() {
        let status = statuses[calls];
        calls += 1;
        match flow.on_response(status, Some(format!("body-{}", status))) {
            CreateUserStep::Finished(r) => return (r, calls, invalidations),
            CreateUserStep::InvalidateAndRetry => invalidations += 1,
            CreateUserStep::InvalidateAndFail(e) => return (Err(e), calls, invalidations + 1),
        }
    }
    unreachable!("the flow always finishes")
}

#[test]
fn create_user_recovers_after_401() {
    let (r, calls, invalidations) = run_create_user(&[401, 201]);
    assert!(matches!(r, Ok(CreateUserResult::Created)));
    assert_eq!(calls, 2);
    assert_eq!(invalidations, 1);
}

#[test]
fn create_user_gives_up_after_two_403() {
    let (r, calls, _) = run_create_user(&[403, 403, 201]);
    assert!(matches!(r, Err(KeycloakError::TokenUnavailable)));
    assert_eq!(calls, 2);
}

#[test]
fn create_user_created_first_time() {
    let (r, calls, invalidations) = run_create_user(&[201]);
    assert!(matches!(r, Ok(CreateUserResult::Created)));
    assert_eq!(calls, 1);
    assert_eq!(invalidations, 0);
}

#[test]
fn create_user_conflict_keeps_reason() {
    let mut flow = CreateUserFlow::new();
    match flow.on_response(409, Some("User exists with same email".to_string())) {
        CreateUserStep::Finished(Ok(CreateUserResult::Conflict(reason))) => {
            assert_eq!(reason, "User exists with same email")
        }
        other => panic!("unexpected {:?}", other),
    }
    let mut flow = CreateUserFlow::new();
    match flow.on_response(409, None) {
        CreateUserStep::Finished(Ok(CreateUserResult::Conflict(reason))) => assert_eq!(reason, "Conflict"),
        other => panic!("unexpected {:?}", other),
    }
}

#[test]
fn create_user_other_status_is_unexpected() {
    let (r, calls, _) = run_create_user(&[500]);
    assert!(matches!(r, Err(KeycloakError::UnexpectedStatus { status: 500, ref message }) if message == "body-500"));
    assert_eq!(calls, 1);
    let mut flow = CreateUserFlow::new();
    let step = flow.on_response(400, None);
    assert!(matches!(step, CreateUserStep::Finished(Err(KeycloakError::UnexpectedStatus { status: 400, ref message })) if message.is_empty()));
}

#[test]
fn invalid_grant_is_classified() {
    let r = handle_user_token_response(
        400,
        r#"{"error":"invalid_grant","error_description":"bad"}"#.to_string(),
    );
    match r {
        Err(KeycloakError::InvalidGrant { error, description }) => {
            assert_eq!(error, "invalid_grant");
            assert_eq!(description, Some("bad".to_string()));
        }
        other => panic!("unexpected {:?}", other),
    }
}

#[test]
fn invalid_grant_without_description() {
    let r = handle_user_token_response(401, r#"{"error":"invalid_client"}"#.to_string());
    assert!(matches!(r, Err(KeycloakError::InvalidGrant { ref error, description: None }) if error == "invalid_client"));
}

#[test]
fn error_body_on_other_status_is_unexpected() {
    let body = r#"{"error":"invalid_grant"}"#.to_string();
    let r = handle_user_token_response(500, body.clone());
    assert!(matches!(r, Err(KeycloakError::UnexpectedStatus { status: 500, ref message }) if *message == body));
    let r = handle_user_token_response(400, "<html>".to_string());
    assert!(matches!(r, Err(KeycloakError::UnexpectedStatus { status: 400, ref message }) if message == "<html>"));
}

#[test]
fn missing_refresh_token_is_an_error() {
    let r = handle_user_token_response(200, r#"{"access_token":"a","expires_in":60}"#.to_string());
    assert!(matches!(r, Err(KeycloakError::UnexpectedStatus { status: 200, ref message })
        if message == "missing refresh_token in Keycloak response"));
    let r = handle_user_token_response(200, r#"{"access_token":"a","refresh_token":null}"#.to_string());
    assert!(r.is_err());
}

#[test]
fn user_tokens_are_read_with_defaults() {
    let r = handle_user_token_response(
        200,
        r#"{"access_token":"a","refresh_token":"r","token_type":"  "}"#.to_string(),
    )
    .unwrap();
    assert_eq!(r.access_token, "a");
    assert_eq!(r.refresh_token, "r");
    assert_eq!(r.token_type, "Bearer");
    assert_eq!(r.expires_in, 300);
    assert_eq!(r.refresh_expires_in, None);
}

#[test]
fn user_tokens_keep_declared_values() {
    let r = handle_user_token_response(
        200,
        r#"{"access_token":"a","refresh_token":"r","token_type":"DPoP","expires_in":60,"refresh_expires_in":1800}"#
            .to_string(),
    )
    .unwrap();
    assert_eq!(r.token_type, "DPoP");
    assert_eq!(r.expires_in, 60);
    assert_eq!(r.refresh_expires_in, Some(1800));
}

#[test]
fn user_tokens_from_given_fields() {
    let fields = vec![
        ("access_token".to_string(), JsonField::Text("a".to_string())),
        ("refresh_token".to_string(), JsonField::Text("r".to_string())),
        ("expires_in".to_string(), JsonField::Null),
    ];
    let r = user_tokens_from_fields(201, String::new(), Some(fields)).unwrap();
    assert_eq!(r.expires_in, 300);
    let r = user_tokens_from_fields(200, "raw".to_string(), None);
    assert!(matches!(r, Err(KeycloakError::UnexpectedStatus { status: 200, ref message }) if message == "raw"));
}

#[test]
fn logout_accepts_already_invalid_tokens() {
    assert!(logout_outcome(400, String::new()).is_ok());
    assert!(logout_outcome(401, String::new()).is_ok());
    assert!(logout_outcome(204, String::new()).is_ok());
    let r = logout_outcome(500, "oops".to_string());
    assert!(matches!(r, Err(KeycloakError::UnexpectedStatus { status: 500, ref message }) if message == "oops"));
}

#[test]
fn password_grant_form_fields() {
    let s = settings(Some("pub-secret"));
    let form = s.password_grant_form("a@b.c", "pw", Some("openid"));
    assert_eq!(
        pairs(&form),
        vec![
            ("grant_type", "password"),
            ("client_id", "argus-frontend"),
            ("username", "a@b.c"),
            ("password", "pw"),
            ("client_secret", "pub-secret"),
            ("scope", "openid"),
        ]
    );
    let s = settings(None);
    let form = s.password_grant_form("u", "p", None);
    assert_eq!(form.len(), 4);
}

#[test]
fn refresh_and_logout_forms() {
    let s = settings(None);
    assert_eq!(
        pairs(&s.refresh_grant_form("rt", Some("openid"))),
        vec![
            ("grant_type", "refresh_token"),
            ("client_id", "argus-frontend"),
            ("refresh_token", "rt"),
            ("scope", "openid"),
        ]
    );
    let s = settings(Some("sec"));
    assert_eq!(
        pairs(&s.logout_form("rt")),
        vec![("client_id", "argus-frontend"), ("refresh_token", "rt"), ("client_secret", "sec")]
    );
}

#[test]
fn client_credentials_form_and_endpoints() {
    let s = settings(None);
    assert_eq!(
        pairs(&s.client_credentials_form()),
        vec![
            ("grant_type", "client_credentials"),
            ("client_id", "argus-backend"),
            ("client_secret", "argus-backend-secret"),
        ]
    );
    assert_eq!(s.token_endpoint, "https://id.example/realms/argus/protocol/openid-connect/token");
    assert_eq!(s.logout_endpoint, "https://id.example/realms/argus/protocol/openid-connect/logout");
    assert_eq!(s.users_endpoint, "https://id.example/admin/realms/argus/users");
}
