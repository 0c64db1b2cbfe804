use argus_backend::config::{matches_ignore_ascii_case, AppConfig};
use argus_backend::keycloak::UserTokenSet;
use argus_backend::models::{
    extract_attributes, to_auth_response, AttributeItem, AttributeValue, ErrorResponse,
    KeycloakUser, RegisterRequest, RegisterResponse,
};

fn vars(pairs: &[(&str, &str)]) -> Vec<(String, String)> {
    pairs.iter().map(|(k, v)| (k.to_string(), v.to_string())).collect()
}

#[test]
fn config_defaults() {
    let c = AppConfig::from_env(&Vec::new());
    assert_eq!(c.bind_address, "127.0.0.1");
    assert_eq!(c.port, 8000);
    assert_eq!(c.turnstile_site_key, "dev-mock");
    assert_eq!(c.turnstile_secret_key, None);
    assert_eq!(c.turnstile_verify_url, "https://challenges.cloudflare.com/turnstile/v0/siteverify");
    assert_eq!(c.keycloak_base_url, "http://localhost:8080");
    assert_eq!(c.keycloak_realm, "argus");
    assert_eq!(c.keycloak_admin_client_id, "argus-backend");
    assert_eq!(c.keycloak_admin_client_secret, "argus-backend-secret");
    assert_eq!(c.keycloak_public_client_id, "argus-frontend");
    assert_eq!(c.keycloak_public_client_secret, None);
    assert!(c.keycloak_tls_insecure);
    assert!(c.cors_allowed_origins.is_empty());
    assert_eq!(AppConfig::env_keys().len(), 13);
    assert_eq!(AppConfig::env_keys()[1], "BACKEND_PORT");
}

#[test]
fn config_reads_values() {
    let c = AppConfig::from_env(&vars(&[
        ("BACKEND_PORT", "+9090"),
        ("KEYCLOAK_REALM", "demo"),
        ("KEYCLOAK_TLS_INSECURE", " NO "),
        ("TURNSTILE_SECRET_KEY", "s3"),
        ("CORS_ALLOWED_ORIGINS", " https://a.example , ,https://b.example,"),
    ]));
    assert_eq!(c.port, 9090);
    assert_eq!(c.keycloak_realm, "demo");
    assert!(!c.keycloak_tls_insecure);
    assert_eq!(c.turnstile_secret_key, Some("s3".to_string()));
    assert_eq!(c.cors_allowed_origins, vec!["https://a.example".to_string(), "https://b.example".to_string()]);
}

#[test]
fn config_bad_port_falls_back() {
    for bad in ["abc", "70000", " 80", "-1", ""] {
        let c = AppConfig::from_env(&vars(&[("BACKEND_PORT", bad)]));
        assert_eq!(c.port, 8000, "port text {:?}", bad);
    }
}

#[test]
fn tls_flag_choices() {
    for yes in ["1", "true", " Yes ", "ON"] {
        let c = AppConfig::from_env(&vars(&[("KEYCLOAK_TLS_INSECURE", yes)]));
        assert!(c.keycloak_tls_insecure, "{:?}", yes);
    }
    let c = AppConfig::from_env(&vars(&[("KEYCLOAK_TLS_INSECURE", "0")]));
    assert!(!c.keycloak_tls_insecure);
}

#[test]
fn matches_ignore_ascii_case_trims_and_lowers() {
    let choices = ["1", "true", "yes", "on"];
    assert!(matches_ignore_ascii_case("  TRUE\t", choices));
    assert!(!matches_ignore_ascii_case("truth", choices));
    assert!(!matches_ignore_ascii_case("", choices));
}

#[test]
fn endpoints_strip_trailing_slashes() {
    let c = AppConfig::from_env(&vars(&[("KEYCLOAK_BASE_URL", "http://kc:8080///"), ("KEYCLOAK_REALM", "r")]));
    assert_eq!(c.keycloak_base(), "http://kc:8080");
    assert_eq!(c.keycloak_users_endpoint(), "http://kc:8080/admin/realms/r/users");
    assert_eq!(c.keycloak_token_endpoint(), "http://kc:8080/realms/r/protocol/openid-connect/token");
    assert_eq!(c.keycloak_logout_endpoint(), "http://kc:8080/realms/r/protocol/openid-connect/logout");
}

#[test]
fn responses() {
    assert_eq!(RegisterResponse::success().message, "User registered");
    assert_eq!(ErrorResponse::new("nope".to_string()).error, "nope");
}

#[test]
fn auth_response_copies_tokens() {
    let tokens = UserTokenSet {
        token_type: "Bearer".to_string(),
        access_token: "a".to_string(),
        refresh_token: "r".to_string(),
        expires_in: 60,
        refresh_expires_in: Some(10),
    };
    let a = to_auth_response(tokens);
    assert_eq!(a.token_type, "Bearer");
    assert_eq!(a.access_token, "a");
    assert_eq!(a.refresh_token, "r");
    assert_eq!(a.expires_in, 60);
    assert_eq!(a.refresh_expires_in, Some(10));
}

#[test]
fn attributes_are_extracted() {
    let extra = vec![
        ("team".to_string(), AttributeValue::Item(AttributeItem::Text("  blue ".to_string()))),
        ("blank".to_string(), AttributeValue::Item(AttributeItem::Text("   ".to_string()))),
        ("newsletter".to_string(), AttributeValue::Item(AttributeItem::Flag(true))),
        ("age".to_string(), AttributeValue::Item(AttributeItem::Number("42".to_string()))),
        ("nothing".to_string(), AttributeValue::Item(AttributeItem::Other)),
        (
            "tags".to_string(),
            AttributeValue::List(vec![
                AttributeItem::Text(" a ".to_string()),
                AttributeItem::Text("  ".to_string()),
                AttributeItem::Flag(false),
                AttributeItem::Other,
                AttributeItem::Number("1.5".to_string()),
            ]),
        ),
        ("empty_list".to_string(), AttributeValue::List(vec![AttributeItem::Text("".to_string())])),
    ];
    let attrs = extract_attributes(&extra);
    let expected: Vec<(String, Vec<String>)> = vec![
        ("team".to_string(), vec!["blue".to_string()]),
        ("blank".to_string(), vec!["".to_string()]),
        ("newsletter".to_string(), vec!["true".to_string()]),
        ("age".to_string(), vec!["42".to_string()]),
        ("tags".to_string(), vec!["a".to_string(), "false".to_string(), "1.5".to_string()]),
    ];
    assert_eq!(attrs, expected);
}

#[test]
fn user_record_from_registration() {
    let request = RegisterRequest {
        email: "a@b.c".to_string(),
        password: "pw".to_string(),
        first_name: Some("Ann".to_string()),
        last_name: None,
        captcha_token: None,
        extra: vec![("team".to_string(), AttributeValue::Item(AttributeItem::Flag(false)))],
    };
    let user = KeycloakUser::from_request(&request);
    assert_eq!(user.username, "a@b.c");
    assert_eq!(user.email, "a@b.c");
    assert_eq!(user.first_name, Some("Ann".to_string()));
    assert_eq!(user.last_name, None);
    assert!(user.enabled);
    assert!(!user.email_verified);
    assert_eq!(user.attributes, vec![("team".to_string(), vec!["false".to_string()])]);
    assert_eq!(user.credentials.len(), 1);
    assert_eq!(user.credentials[0].kind, "password");
    assert!(!user.credentials[0].temporary);
    assert_eq!(user.credentials[0].value, "pw");
    assert_eq!(user.required_actions, vec!["VERIFY_EMAIL".to_string()]);
}
