//! The identity provider's clients: user creation with its retry on a rejected admin
//! credential, and the end-user password, refresh and logout grants.
use vstd::prelude::*;
use crate::config::{opt_view, AppConfig};
use crate::error::{is_success, is_success_status, ErrorView, KeycloakError};
use crate::json::{
    field_of, json_object_fields, optional_text, optional_u64, parse_json_object,
    read_optional_text, read_optional_u64, read_required_text, required_text, FieldsView, JsonField,
    JsonFieldView, parsed_view,
};
use crate::text::{trim_text, trimmed};
use crate::token::DEFAULT_EXPIRES_IN_SECS;

verus! {

/// How many times user creation is attempted.
pub const CREATE_USER_ATTEMPTS: u8 = 2;

/// The outcome of a user creation that the provider answered normally.
#[derive(Debug)]
pub enum CreateUserResult {
    Created,
    /// The account exists already; the provider's explanation.
    Conflict(String),
}

/// The endpoints and client identities that the clients use.
#[derive(Debug, Clone)]
pub struct KeycloakSettings {
    pub token_endpoint: String,
    pub logout_endpoint: String,
    pub users_endpoint: String,
    pub admin_client_id: String,
    pub admin_client_secret: String,
    pub public_client_id: String,
    pub public_client_secret: Option<String>,
}

impl KeycloakSettings {
    /// The settings that `config` gives.
    pub fn from_config(config: &AppConfig) -> (r: KeycloakSettings)
        ensures
            r.token_endpoint@ == config.base_view() + "/realms/"@ + config.keycloak_realm@
                + "/protocol/openid-connect/token"@,
            r.logout_endpoint@ == config.base_view() + "/realms/"@ + config.keycloak_realm@
                + "/protocol/openid-connect/logout"@,
            r.users_endpoint@ == config.base_view() + "/admin/realms/"@ + config.keycloak_realm@
                + "/users"@,
            r.admin_client_id@ == config.keycloak_admin_client_id@,
            r.admin_client_secret@ == config.keycloak_admin_client_secret@,
            r.public_client_id@ == config.keycloak_public_client_id@,
            opt_view(r.public_client_secret) == opt_view(config.keycloak_public_client_secret),
    {
        KeycloakSettings {
            token_endpoint: config.keycloak_token_endpoint(),
            logout_endpoint: config.keycloak_logout_endpoint(),
            users_endpoint: config.keycloak_users_endpoint(),
            admin_client_id: config.keycloak_admin_client_id.clone(),
            admin_client_secret: config.keycloak_admin_client_secret.clone(),
            public_client_id: config.keycloak_public_client_id.clone(),
            public_client_secret: match &config.keycloak_public_client_secret {
                Some(s) => Some(s.clone()),
                None => None,
            },
        }
    }
}

/// A form body: (name, value) pairs in order.
pub open spec fn form_view(form: &Vec<(String, String)>) -> Seq<(Seq<char>, Seq<char>)> {
    form@.map_values(|p: (String, String)| (p.0@, p.1@))
}

/// The optional `(name, value)` pair of a form.
pub open spec fn optional_pair(name: Seq<char>, value: Option<Seq<char>>) -> Seq<(Seq<char>, Seq<char>)> {
    match value {
        Some(v) => seq![(name, v)],
        None => Seq::empty(),
    }
}

pub open spec fn str_opt_view(o: Option<&str>) -> Option<Seq<char>> {
    match o {
        Some(s) => Some(s@),
        None => None,
    }
}

fn push_pair(form: &mut Vec<(String, String)>, name: &str, value: &str)
    ensures
        form_view(final(form)) == form_view(old(form)).push((name@, value@)),
{
    form.push((name.to_owned(), value.to_owned()));
    assert(form_view(form) =~= form_view(old(form)).push((name@, value@)));
}

impl KeycloakSettings {
    /// The form of a client-credentials grant for the admin client.
    pub fn client_credentials_form(&self) -> (r: Vec<(String, String)>)
        ensures
            form_view(&r) == seq![
                ("grant_type"@, "client_credentials"@),
                ("client_id"@, self.admin_client_id@),
                ("client_secret"@, self.admin_client_secret@),
            ],
    {
        let mut form: Vec<(String, String)> = Vec::new();
        push_pair(&mut form, "grant_type", "client_credentials");
        push_pair(&mut form, "client_id", self.admin_client_id.as_str());
        push_pair(&mut form, "client_secret", self.admin_client_secret.as_str());
        assert(form_view(&form) =~= seq![
            ("grant_type"@, "client_credentials"@),
            ("client_id"@, self.admin_client_id@),
            ("client_secret"@, self.admin_client_secret@),
        ]);
        form
    }

    /// The form of a password grant for the public client: grant type, client id, user
    /// name, password, then the client secret and the scope when there are any.
    pub fn password_grant_form(&self, username: &str, password: &str, scope: Option<&str>) -> (r: Vec<(String, String)>)
        ensures
            form_view(&r) == seq![
                ("grant_type"@, "password"@),
                ("client_id"@, self.public_client_id@),
                ("username"@, username@),
                ("password"@, password@),
            ] + optional_pair("client_secret"@, opt_view(self.public_client_secret))
                + optional_pair("scope"@, str_opt_view(scope)),
    {
        let mut form: Vec<(String, String)> = Vec::new();
        push_pair(&mut form, "grant_type", "password");
        push_pair(&mut form, "client_id", self.public_client_id.as_str());
        push_pair(&mut form, "username", username);
        push_pair(&mut form, "password", password);
        self.push_secret_and_scope(&mut form, scope);
        form
    }

    /// The form of a refresh grant for the public client: grant type, client id, refresh
    /// token, then the client secret and the scope when there are any.
    pub fn refresh_grant_form(&self, refresh_token: &str, scope: Option<&str>) -> (r: Vec<(String, String)>)
        ensures
            form_view(&r) == seq![
                ("grant_type"@, "refresh_token"@),
                ("client_id"@, self.public_client_id@),
                ("refresh_token"@, refresh_token@),
            ] + optional_pair("client_secret"@, opt_view(self.public_client_secret))
                + optional_pair("scope"@, str_opt_view(scope)),
    {
        let mut form: Vec<(String, String)> = Vec::new();
        push_pair(&mut form, "grant_type", "refresh_token");
        push_pair(&mut form, "client_id", self.public_client_id.as_str());
        push_pair(&mut form, "refresh_token", refresh_token);
        self.push_secret_and_scope(&mut form, scope);
        form
    }

    /// The form of a logout: client id, refresh token, then the client secret if any.
    pub fn logout_form(&self, refresh_token: &str) -> (r: Vec<(String, String)>)
        ensures
            form_view(&r) == seq![
                ("client_id"@, self.public_client_id@),
                ("refresh_token"@, refresh_token@),
            ] + optional_pair("client_secret"@, opt_view(self.public_client_secret)),
    {
        let mut form: Vec<(String, String)> = Vec::new();
        push_pair(&mut form, "client_id", self.public_client_id.as_str());
        push_pair(&mut form, "refresh_token", refresh_token);
        let ghost head = form_view(&form);
        if let Some(secret) = &self.public_client_secret {
            push_pair(&mut form, "client_secret", secret.as_str());
        }
        assert(form_view(&form) =~= head + optional_pair(
            "client_secret"@,
            opt_view(self.public_client_secret),
        ));
        form
    }

    fn push_secret_and_scope(&self, form: &mut Vec<(String, String)>, scope: Option<&str>)
        ensures
            form_view(final(form)) == form_view(old(form)) + optional_pair(
                "client_secret"@,
                opt_view(self.public_client_secret),
            ) + optional_pair("scope"@, str_opt_view(scope)),
    {
        if let Some(secret) = &self.public_client_secret {
            push_pair(form, "client_secret", secret.as_str());
        }
        if let Some(s) = scope {
            push_pair(form, "scope", s);
        }
        assert(form_view(form) =~= form_view(old(form)) + optional_pair(
            "client_secret"@,
            opt_view(self.public_client_secret),
        ) + optional_pair("scope"@, str_opt_view(scope)));
    }
}

/// The tokens of a successful password or refresh grant.
#[derive(Debug, Clone)]
pub struct UserTokenSet {
    pub token_type: String,
    pub access_token: String,
    pub refresh_token: String,
    pub expires_in: u64,
    pub refresh_expires_in: Option<u64>,
}

pub ghost struct UserTokenSetView {
    pub token_type: Seq<char>,
    pub access_token: Seq<char>,
    pub refresh_token: Seq<char>,
    pub expires_in: u64,
    pub refresh_expires_in: Option<u64>,
}

impl View for UserTokenSet {
    type V = UserTokenSetView;

    open spec fn view(&self) -> UserTokenSetView {
        UserTokenSetView {
            token_type: self.token_type@,
            access_token: self.access_token@,
            refresh_token: self.refresh_token@,
            expires_in: self.expires_in,
            refresh_expires_in: self.refresh_expires_in,
        }
    }
}

/// The error payload `{error, error_description?}` of a decoded body, when it has one.
pub open spec fn error_payload_from(parsed: Option<FieldsView>) -> Option<(Seq<char>, Option<Seq<char>>)> {
    match parsed {
        None => None,
        Some(f) => match (
            required_text(field_of(f, "error"@)),
            optional_text(field_of(f, "error_description"@)),
        ) {
            (Some(e), Some(d)) => Some((e, d)),
            _ => None,
        },
    }
}

/// The decoded success payload of a user grant: access token, optional refresh token,
/// optional lifetimes and optional token type.
pub ghost struct UserTokenPayload {
    pub access_token: Seq<char>,
    pub refresh_token: Option<Seq<char>>,
    pub expires_in: Option<u64>,
    pub refresh_expires_in: Option<u64>,
    pub token_type: Option<Seq<char>>,
}

pub open spec fn user_token_payload(f: FieldsView) -> Option<UserTokenPayload> {
    match (
        required_text(field_of(f, "access_token"@)),
        optional_text(field_of(f, "refresh_token"@)),
        optional_u64(field_of(f, "expires_in"@)),
        optional_u64(field_of(f, "refresh_expires_in"@)),
        optional_text(field_of(f, "token_type"@)),
    ) {
        (Some(a), Some(r), Some(e), Some(re), Some(t)) => Some(
            UserTokenPayload {
                access_token: a,
                refresh_token: r,
                expires_in: e,
                refresh_expires_in: re,
                token_type: t,
            },
        ),
        _ => None,
    }
}

pub open spec fn missing_refresh_token_message() -> Seq<char> {
    "missing refresh_token in Keycloak response"@
}

/// The token type to report: the provider's, unless it is absent or blank, then `Bearer`.
pub open spec fn token_type_or_bearer(t: Option<Seq<char>>) -> Seq<char> {
    match t {
        Some(v) => if trimmed(v).len() == 0 {
            "Bearer"@
        } else {
            v
        },
        None => "Bearer"@,
    }
}

/// What a user grant's response gives.
pub ghost enum UserTokenOutcome {
    Tokens(UserTokenSetView),
    Failed(ErrorView),
}

/// What a user grant's response gives, `parsed` being what the body decodes to.
pub open spec fn user_token_outcome_from(status: u16, body: Seq<char>, parsed: Option<FieldsView>) -> UserTokenOutcome {
    if !is_success_status(status) {
        if (status == 400 || status == 401) && error_payload_from(parsed) is Some {
            UserTokenOutcome::Failed(
                ErrorView::InvalidGrant(
                    error_payload_from(parsed).unwrap().0,
                    error_payload_from(parsed).unwrap().1,
                ),
            )
        } else {
            UserTokenOutcome::Failed(ErrorView::UnexpectedStatus(status, body))
        }
    } else {
        match parsed {
            None => UserTokenOutcome::Failed(ErrorView::UnexpectedStatus(status, body)),
            Some(f) => match user_token_payload(f) {
                None => UserTokenOutcome::Failed(ErrorView::UnexpectedStatus(status, body)),
                Some(p) => match p.refresh_token {
                    None => UserTokenOutcome::Failed(
                        ErrorView::UnexpectedStatus(status, missing_refresh_token_message()),
                    ),
                    Some(rt) => UserTokenOutcome::Tokens(
                        UserTokenSetView {
                            token_type: token_type_or_bearer(p.token_type),
                            access_token: p.access_token,
                            refresh_token: rt,
                            expires_in: match p.expires_in {
                                Some(e) => e,
                                None => DEFAULT_EXPIRES_IN_SECS,
                            },
                            refresh_expires_in: p.refresh_expires_in,
                        },
                    ),
                },
            },
        }
    }
}

/// What a user grant's response gives.
pub open spec fn user_token_outcome(status: u16, body: Seq<char>) -> UserTokenOutcome {
    user_token_outcome_from(status, body, json_object_fields(body))
}

pub open spec fn token_result_view(r: Result<UserTokenSet, KeycloakError>) -> UserTokenOutcome {
    match r {
        Ok(t) => UserTokenOutcome::Tokens(t@),
        Err(e) => UserTokenOutcome::Failed(e@),
    }
}

fn unexpected(status: u16, message: String) -> (r: KeycloakError)
    ensures
        r@ == ErrorView::UnexpectedStatus(status, message@),
{
    KeycloakError::UnexpectedStatus { status, message }
}

/// Reads the token endpoint's answer to a password or refresh grant. A 400 or 401 whose
/// body is an error payload is `InvalidGrant` with its code and description; any other
/// failure status, or a success body that does not decode, is `UnexpectedStatus` with the
/// body; a success without a refresh token is an error, never a token set without one.
/// A blank or absent token type reads as `Bearer`, an absent lifetime as 300 s.
pub fn handle_user_token_response(status: u16, body: String) -> (r: Result<UserTokenSet, KeycloakError>)
    ensures
        token_result_view(r) == user_token_outcome(status, body@),
{
    let parsed = parse_json_object(body.as_str());
    user_tokens_from_fields(status, body, parsed)
}

/// The classification of `handle_user_token_response`, given what the body decoded to
/// (`parsed`, `None` when it is not a JSON object).
pub fn user_tokens_from_fields(status: u16, body: String, parsed: Option<Vec<(String, JsonField)>>) -> (r: Result<UserTokenSet, KeycloakError>)
    ensures
        token_result_view(r) == user_token_outcome_from(status, body@, parsed_view(parsed)),
{
    if !is_success(status) {
        if status == 400 || status == 401 {
            if let Some(fields) = &parsed {
                let error = read_required_text(fields, "error");
                let description = read_optional_text(fields, "error_description");
                if let (Some(error), Some(description)) = (error, description) {
                    return Err(KeycloakError::InvalidGrant { error, description });
                }
            }
        }
        return Err(unexpected(status, body));
    }
    let fields = match parsed {
        Some(f) => f,
        None => {
            return Err(unexpected(status, body));
        },
    };
    let access_token = read_required_text(&fields, "access_token");
    let refresh_token = read_optional_text(&fields, "refresh_token");
    let expires_in = read_optional_u64(&fields, "expires_in");
    let refresh_expires_in = read_optional_u64(&fields, "refresh_expires_in");
    let token_type = read_optional_text(&fields, "token_type");
    match (access_token, refresh_token, expires_in, refresh_expires_in, token_type) {
        (Some(access_token), Some(refresh_token), Some(expires_in), Some(refresh_expires_in), Some(token_type)) => {
            let refresh_token = match refresh_token {
                Some(t) => t,
                None => {
                    return Err(
                        unexpected(status, String::from_str("missing refresh_token in Keycloak response")),
                    );
                },
            };
            let token_type = match token_type {
                Some(t) => if trim_text(t.as_str()).is_empty() {
                    String::from_str("Bearer")
                } else {
                    t
                },
                None => String::from_str("Bearer"),
            };
            let expires_in = match expires_in {
                Some(e) => e,
                None => DEFAULT_EXPIRES_IN_SECS,
            };
            Ok(UserTokenSet { token_type, access_token, refresh_token, expires_in, refresh_expires_in })
        },
        _ => Err(unexpected(status, body)),
    }
}

/// Reads the logout endpoint's answer: 2xx, 400 and 401 all mean the refresh token is no
/// longer valid, which is what logout wants; any other status is `UnexpectedStatus` with
/// the body.
pub fn logout_outcome(status: u16, body: String) -> (r: Result<(), KeycloakError>)
    ensures
        match r {
            Ok(()) => is_success_status(status) || status == 400 || status == 401,
            Err(e) => !(is_success_status(status) || status == 400 || status == 401)
                && e@ == ErrorView::UnexpectedStatus(status, body@),
        },
{
    if is_success(status) || status == 400 || status == 401 {
        Ok(())
    } else {
        Err(unexpected(status, body))
    }
}

/// A success answer whose refresh token is absent (or null) never yields a token set:
/// the grant fails instead.
pub proof fn lemma_missing_refresh_token_fails(status: u16, body: Seq<char>, fields: FieldsView)
    requires
        is_success_status(status),
        field_of(fields, "refresh_token"@) is None || field_of(fields, "refresh_token"@)
            == Some(JsonFieldView::Null),
    ensures
        user_token_outcome_from(status, body, Some(fields)) is Failed,
{
}

/// The next move of user creation after a response.
#[derive(Debug)]
pub enum CreateUserStep {
    /// Creation is over, with this result.
    Finished(Result<CreateUserResult, KeycloakError>),
    /// The admin credential was rejected: invalidate it and try again.
    InvalidateAndRetry,
    /// The admin credential was rejected on the last attempt: invalidate it and give up
    /// with this error.
    InvalidateAndFail(KeycloakError),
}

/// Whether `status` says that the admin credential was refused.
pub open spec fn rejects_credential(status: u16) -> bool {
    status == 401 || status == 403
}

/// Attempts left after a response with `status`.
pub open spec fn attempts_after(remaining: u8, status: u16) -> u8 {
    if rejects_credential(status) && remaining > 0 {
        (remaining - 1) as u8
    } else {
        remaining
    }
}

/// Whether a response with `status`, with `remaining` attempts before it, leads to
/// another attempt.
pub open spec fn retries(remaining: u8, status: u16) -> bool {
    rejects_credential(status) && attempts_after(remaining, status) > 0
}

pub open spec fn conflict_reason(body: Option<Seq<char>>) -> Seq<char> {
    match body {
        Some(b) => b,
        None => "Conflict"@,
    }
}

pub open spec fn body_or_empty(body: Option<Seq<char>>) -> Seq<char> {
    match body {
        Some(b) => b,
        None => Seq::empty(),
    }
}

/// The state of one user creation: how many attempts are left.
#[derive(Debug)]
pub struct CreateUserFlow {
    pub attempts_remaining: u8,
}

impl CreateUserFlow {
    /// A creation that has made no attempt yet.
    pub fn new() -> (r: CreateUserFlow)
        ensures
            r.attempts_remaining == CREATE_USER_ATTEMPTS,
    {
        CreateUserFlow { attempts_remaining: CREATE_USER_ATTEMPTS }
    }

    /// Whether another attempt may be made.
    pub fn has_attempts(&self) -> (r: bool)
        ensures
            r == (self.attempts_remaining > 0),
    {
        self.attempts_remaining > 0
    }

    /// Classifies the users endpoint's answer to one attempt. `body` is the response text,
    /// `None` when it could not be read. 201 is `Created`; 409 is `Conflict` with the body
    /// (`"Conflict"` when unreadable); 401 and 403 use up an attempt and retry while one
    /// is left, else fail with `TokenUnavailable`; any other status is `UnexpectedStatus`
    /// with the body.
    pub fn on_response(&mut self, status: u16, body: Option<String>) -> (r: CreateUserStep)
        requires
            old(self).attempts_remaining > 0,
        ensures
            final(self).attempts_remaining == attempts_after(old(self).attempts_remaining, status),
            match r {
                CreateUserStep::Finished(Ok(CreateUserResult::Created)) => status == 201,
                CreateUserStep::Finished(Ok(CreateUserResult::Conflict(reason))) => status == 409
                    && reason@ == conflict_reason(opt_view(body)),
                CreateUserStep::Finished(Err(e)) => status != 201 && status != 409
                    && !rejects_credential(status) && e@ == ErrorView::UnexpectedStatus(
                    status,
                    body_or_empty(opt_view(body)),
                ),
                CreateUserStep::InvalidateAndRetry => retries(old(self).attempts_remaining, status),
                CreateUserStep::InvalidateAndFail(e) => rejects_credential(status)
                    && !retries(old(self).attempts_remaining, status) && e@
                    == ErrorView::TokenUnavailable,
            },
    {
        if status == 201 {
            CreateUserStep::Finished(Ok(CreateUserResult::Created))
        } else if status == 409 {
            let reason = match body {
                Some(b) => b,
                None => String::from_str("Conflict"),
            };
            CreateUserStep::Finished(Ok(CreateUserResult::Conflict(reason)))
        } else if status == 401 || status == 403 {
            self.attempts_remaining = self.attempts_remaining - 1;
            if self.attempts_remaining == 0 {
                CreateUserStep::InvalidateAndFail(KeycloakError::TokenUnavailable)
            } else {
                CreateUserStep::InvalidateAndRetry
            }
        } else {
            let message = match body {
                Some(b) => b,
                None => String::new(),
            };
            CreateUserStep::Finished(Err(unexpected(status, message)))
        }
    }
}

/// At most two attempts: from a new creation, a response that leads to a retry is never
/// followed by another one that does.
pub proof fn lemma_create_user_at_most_two_attempts(first: u16, second: u16)
    ensures
        !(retries(CREATE_USER_ATTEMPTS, first) && retries(
            attempts_after(CREATE_USER_ATTEMPTS, first),
            second,
        )),
{
}

} // verus!
