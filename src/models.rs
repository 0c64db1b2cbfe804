//! The request and response records of the proxy, and the provider-shaped user record
//! built from a registration.
use vstd::prelude::*;
use crate::config::opt_view;
use crate::keycloak::UserTokenSet;
use crate::text::{bool_text, bool_to_text, trim_text, trimmed};

verus! {

/// A login: the user's e-mail and password, and the CAPTCHA token if the client sent one.
#[derive(Debug, Clone)]
pub struct LoginRequest {
    pub email: String,
    pub password: String,
    pub captcha_token: Option<String>,
}

/// The tokens returned to the client after a login or a refresh.
#[derive(Debug, Clone)]
pub struct AuthResponse {
    pub token_type: String,
    pub access_token: String,
    pub refresh_token: String,
    pub expires_in: u64,
    pub refresh_expires_in: Option<u64>,
}

/// A refresh: the refresh token to exchange.
#[derive(Debug, Clone)]
pub struct RefreshRequest {
    pub refresh_token: String,
}

/// A logout: the refresh token to revoke.
#[derive(Debug, Clone)]
pub struct LogoutRequest {
    pub refresh_token: String,
}

/// A scalar of a registration's extra fields, or an item of one of its lists.
#[derive(Debug, Clone)]
pub enum AttributeItem {
    Text(String),
    Flag(bool),
    /// A number, in the text that the JSON encoder gives it.
    Number(String),
    /// Null, an object, or a list inside a list.
    Other,
}

/// The value of one extra field of a registration.
#[derive(Debug, Clone)]
pub enum AttributeValue {
    Item(AttributeItem),
    List(Vec<AttributeItem>),
}

pub ghost enum AttributeItemView {
    Text(Seq<char>),
    Flag(bool),
    Number(Seq<char>),
    Other,
}

pub ghost enum AttributeValueView {
    Item(AttributeItemView),
    List(Seq<AttributeItemView>),
}

impl View for AttributeItem {
    type V = AttributeItemView;

    open spec fn view(&self) -> AttributeItemView {
        match self {
            AttributeItem::Text(s) => AttributeItemView::Text(s@),
            AttributeItem::Flag(b) => AttributeItemView::Flag(*b),
            AttributeItem::Number(n) => AttributeItemView::Number(n@),
            AttributeItem::Other => AttributeItemView::Other,
        }
    }
}

impl View for AttributeValue {
    type V = AttributeValueView;

    open spec fn view(&self) -> AttributeValueView {
        match self {
            AttributeValue::Item(i) => AttributeValueView::Item(i@),
            AttributeValue::List(items) => AttributeValueView::List(
                items@.map_values(|i: AttributeItem| i@),
            ),
        }
    }
}

/// A registration: credentials, optional names, the CAPTCHA token, and any other fields
/// the client sent (names unique).
#[derive(Debug, Clone)]
pub struct RegisterRequest {
    pub email: String,
    pub password: String,
    pub first_name: Option<String>,
    pub last_name: Option<String>,
    pub captcha_token: Option<String>,
    pub extra: Vec<(String, AttributeValue)>,
}

/// The answer to a successful registration.
#[derive(Debug, Clone)]
pub struct RegisterResponse {
    pub message: String,
}

impl RegisterResponse {
    /// The message `User registered`.
    pub fn success() -> (r: RegisterResponse)
        ensures
            r.message@ == "User registered"@,
    {
        RegisterResponse { message: String::from_str("User registered") }
    }
}

/// An error answer: its message.
#[derive(Debug, Clone)]
pub struct ErrorResponse {
    pub error: String,
}

impl ErrorResponse {
    /// An error answer with `error` as its message.
    pub fn new(error: String) -> (r: ErrorResponse)
        ensures
            r.error@ == error@,
    {
        ErrorResponse { error }
    }
}

/// A credential of a provider user record.
#[derive(Debug, Clone)]
pub struct KeycloakCredential {
    /// The credential type (`password`).
    pub kind: String,
    pub temporary: bool,
    pub value: String,
}

/// A user record in the shape the provider's admin API takes.
#[derive(Debug, Clone)]
pub struct KeycloakUser {
    pub username: String,
    pub email: String,
    pub first_name: Option<String>,
    pub last_name: Option<String>,
    pub enabled: bool,
    pub email_verified: bool,
    /// Attribute name and its values, names unique.
    pub attributes: Vec<(String, Vec<String>)>,
    pub credentials: Vec<KeycloakCredential>,
    pub required_actions: Vec<String>,
}

/// The text of a list item, if it has one: trimmed text, `true`/`false`, a number.
pub open spec fn item_text(i: AttributeItemView) -> Option<Seq<char>> {
    match i {
        AttributeItemView::Text(s) => Some(trimmed(s)),
        AttributeItemView::Flag(b) => Some(bool_text(b)),
        AttributeItemView::Number(n) => Some(n),
        AttributeItemView::Other => None,
    }
}

/// The non-empty texts of a list's items, in order.
pub open spec fn list_texts(items: Seq<AttributeItemView>) -> Seq<Seq<char>>
    decreases items.len(),
{
    if items.len() == 0 {
        Seq::empty()
    } else {
        let rest = list_texts(items.drop_last());
        match item_text(items.last()) {
            Some(t) => if t.len() > 0 {
                rest.push(t)
            } else {
                rest
            },
            None => rest,
        }
    }
}

/// The values an extra field contributes: a scalar gives its text (even if empty), a
/// list the non-empty texts of its items, anything else nothing.
pub open spec fn attribute_values(v: AttributeValueView) -> Seq<Seq<char>> {
    match v {
        AttributeValueView::Item(i) => match item_text(i) {
            Some(t) => seq![t],
            None => Seq::empty(),
        },
        AttributeValueView::List(items) => list_texts(items),
    }
}

/// The attributes of the extra fields: each field with values, in order.
pub open spec fn attributes_of(extra: Seq<(Seq<char>, AttributeValueView)>) -> Seq<(Seq<char>, Seq<Seq<char>>)>
    decreases extra.len(),
{
    if extra.len() == 0 {
        Seq::empty()
    } else {
        let rest = attributes_of(extra.drop_last());
        let values = attribute_values(extra.last().1);
        if values.len() > 0 {
            rest.push((extra.last().0, values))
        } else {
            rest
        }
    }
}

pub open spec fn extra_view(extra: &Vec<(String, AttributeValue)>) -> Seq<(Seq<char>, AttributeValueView)> {
    extra@.map_values(|p: (String, AttributeValue)| (p.0@, p.1@))
}

pub open spec fn texts_view(v: &Vec<String>) -> Seq<Seq<char>> {
    v@.map_values(|s: String| s@)
}

pub open spec fn attributes_view(a: &Vec<(String, Vec<String>)>) -> Seq<(Seq<char>, Seq<Seq<char>>)> {
    a@.map_values(|p: (String, Vec<String>)| (p.0@, texts_view(&p.1)))
}

fn item_to_text(item: &AttributeItem) -> (r: Option<String>)
    ensures
        opt_view(r) == item_text(item@),
{
    match item {
        AttributeItem::Text(s) => Some(trim_text(s.as_str()).to_owned()),
        AttributeItem::Flag(b) => Some(bool_to_text(*b)),
        AttributeItem::Number(n) => Some(n.clone()),
        AttributeItem::Other => None,
    }
}

fn values_of(value: &AttributeValue) -> (r: Vec<String>)
    ensures
        texts_view(&r) == attribute_values(value@),
{
    match value {
        AttributeValue::Item(item) => {
            let mut out: Vec<String> = Vec::new();
            if let Some(t) = item_to_text(item) {
                out.push(t);
            }
            assert(texts_view(&out) =~= attribute_values(value@));
            out
        },
        AttributeValue::List(items) => {
            let ghost iv = items@.map_values(|i: AttributeItem| i@);
            let mut out: Vec<String> = Vec::new();
            let mut i: usize = 0;
            while i < items.len()
                invariant
                    i <= items.len(),
                    iv == items@.map_values(|i: AttributeItem| i@),
                    texts_view(&out) == list_texts(iv.subrange(0, i as int)),
                decreases items.len() - i,
            {
                proof {
                    assert(iv.subrange(0, i + 1).drop_last() =~= iv.subrange(0, i as int));
                }
                if let Some(t) = item_to_text(&items[i]) {
                    if !t.as_str().is_empty() {
                        out.push(t);
                    }
                }
                assert(texts_view(&out) =~= list_texts(iv.subrange(0, i + 1)));
                i = i + 1;
            }
            assert(iv.subrange(0, i as int) =~= iv);
            out
        },
    }
}

/// The attributes of a registration's extra fields: every field that yields at least one
/// value, with those values, in the order given.
pub fn extract_attributes(extra: &Vec<(String, AttributeValue)>) -> (r: Vec<(String, Vec<String>)>)
    ensures
        attributes_view(&r) == attributes_of(extra_view(extra)),
{
    let ghost ev = extra_view(extra);
    let mut out: Vec<(String, Vec<String>)> = Vec::new();
    let mut i: usize = 0;
    while i < extra.len()
        invariant
            i <= extra.len(),
            ev == extra_view(extra),
            attributes_view(&out) == attributes_of(ev.subrange(0, i as int)),
        decreases extra.len() - i,
    {
        proof {
            assert(ev.subrange(0, i + 1).drop_last() =~= ev.subrange(0, i as int));
        }
        let values = values_of(&extra[i].1);
        if values.len() > 0 {
            out.push((extra[i].0.clone(), values));
        }
        assert(attributes_view(&out) =~= attributes_of(ev.subrange(0, i + 1)));
        i = i + 1;
    }
    assert(ev.subrange(0, i as int) =~= ev);
    out
}

impl KeycloakUser {
    /// The provider record for a registration: the e-mail as user name, the names, an
    /// enabled account with an unverified e-mail, the extra fields as attributes, the
    /// password as a permanent credential, and e-mail verification required.
    pub fn from_request(request: &RegisterRequest) -> (r: KeycloakUser)
        ensures
            r.username@ == request.email@,
            r.email@ == request.email@,
            opt_view(r.first_name) == opt_view(request.first_name),
            opt_view(r.last_name) == opt_view(request.last_name),
            r.enabled,
            !r.email_verified,
            attributes_view(&r.attributes) == attributes_of(extra_view(&request.extra)),
            r.credentials@.len() == 1,
            r.credentials@[0].kind@ == "password"@,
            !r.credentials@[0].temporary,
            r.credentials@[0].value@ == request.password@,
            texts_view(&r.required_actions) == seq!["VERIFY_EMAIL"@],
    {
        let credentials = vec![
            KeycloakCredential {
                kind: String::from_str("password"),
                temporary: false,
                value: request.password.clone(),
            },
        ];
        let attributes = extract_attributes(&request.extra);
        let required_actions = vec![String::from_str("VERIFY_EMAIL")];
        assert(texts_view(&required_actions) =~= seq!["VERIFY_EMAIL"@]);
        KeycloakUser {
            username: request.email.clone(),
            email: request.email.clone(),
            first_name: match &request.first_name {
                Some(s) => Some(s.clone()),
                None => None,
            },
            last_name: match &request.last_name {
                Some(s) => Some(s.clone()),
                None => None,
            },
            enabled: true,
            email_verified: false,
            attributes,
            credentials,
            required_actions,
        }
    }
}

/// The Turnstile verification answer, as decoded from its JSON body.
#[derive(Debug, Clone)]
pub struct TurnstileVerifyResponse {
    pub success: bool,
    pub error_codes: Vec<String>,
}

/// The tokens of a grant, as returned to the client.
pub fn to_auth_response(tokens: UserTokenSet) -> (r: AuthResponse)
    ensures
        r.token_type@ == tokens.token_type@,
        r.access_token@ == tokens.access_token@,
        r.refresh_token@ == tokens.refresh_token@,
        r.expires_in == tokens.expires_in,
        r.refresh_expires_in == tokens.refresh_expires_in,
{
    AuthResponse {
        token_type: tokens.token_type,
        access_token: tokens.access_token,
        refresh_token: tokens.refresh_token,
        expires_in: tokens.expires_in,
        refresh_expires_in: tokens.refresh_expires_in,
    }
}

} // verus!
