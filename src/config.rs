//! Process settings: the values read once at startup and the provider endpoints
//! derived from them.
use vstd::prelude::*;
use crate::text::{
    ascii_lowercase, join4, strip_trailing_slashes, text_eq, to_ascii_lower, trim_text,
    trimmed, without_trailing_slashes,
};

verus! {

pub const DEV_MOCK_SITE_KEY: &'static str = "dev-mock";
pub const MOCK_SUCCESS_TOKEN: &'static str = "mock-success";

/// The value of the ASCII digits `s`, most significant first.
pub open spec fn digits_value(s: Seq<char>) -> int
    decreases s.len(),
{
    if s.len() == 0 {
        0
    } else {
        digits_value(s.drop_last()) * 10 + (s.last() as int - '0' as int)
    }
}

pub open spec fn all_digits(s: Seq<char>) -> bool {
    forall|i: int| 0 <= i < s.len() ==> '0' <= #[trigger] s[i] && s[i] <= '9'
}

/// What `u16::from_str` accepts: an optional `+`, then one or more ASCII digits whose
/// value fits in 16 bits.
pub open spec fn decimal_u16(s: Seq<char>) -> Option<u16> {
    let digits = if s.len() > 0 && s[0] == '+' {
        s.drop_first()
    } else {
        s
    };
    if digits.len() > 0 && all_digits(digits) && digits_value(digits) <= u16::MAX {
        Some(digits_value(digits) as u16)
    } else {
        None
    }
}

/// Relies on `u16::from_str`: an optional `+` and decimal digits, no other character.
#[verifier::external_body]
fn parse_u16(s: &str) -> (r: Option<u16>)
    ensures
        r == decimal_u16(s@),
{
    s.parse::<u16>().ok()
}

/// The pieces of `s` between commas, empty ones included, as `str::split(',')` gives them.
pub open spec fn comma_pieces(s: Seq<char>) -> Seq<Seq<char>>
    decreases s.len(),
{
    if s.len() == 0 {
        seq![Seq::empty()]
    } else {
        let rest = comma_pieces(s.drop_first());
        if s[0] == ',' {
            seq![Seq::<char>::empty()] + rest
        } else {
            rest.update(0, seq![s[0]] + rest[0])
        }
    }
}

/// Relies on `str::split` with the pattern `','`.
#[verifier::external_body]
fn split_commas(s: &str) -> (r: Vec<String>)
    ensures
        r@.map_values(|p: String| p@) == comma_pieces(s@),
{
    s.split(',').map(|piece| piece.to_owned()).collect()
}

/// The settings of the process.
#[derive(Debug, Clone)]
pub struct AppConfig {
    pub bind_address: String,
    pub port: u16,
    pub turnstile_site_key: String,
    pub turnstile_secret_key: Option<String>,
    pub turnstile_verify_url: String,
    pub keycloak_base_url: String,
    pub keycloak_realm: String,
    pub keycloak_admin_client_id: String,
    pub keycloak_admin_client_secret: String,
    pub keycloak_public_client_id: String,
    pub keycloak_public_client_secret: Option<String>,
    pub keycloak_tls_insecure: bool,
    pub cors_allowed_origins: Vec<String>,
}

/// The value held under `key` (the first one), if any.
pub open spec fn lookup_view(vars: Seq<(Seq<char>, Seq<char>)>, key: Seq<char>) -> Option<Seq<char>>
    decreases vars.len(),
{
    if vars.len() == 0 {
        None
    } else if vars[0].0 == key {
        Some(vars[0].1)
    } else {
        lookup_view(vars.drop_first(), key)
    }
}

pub open spec fn vars_view(vars: &Vec<(String, String)>) -> Seq<(Seq<char>, Seq<char>)> {
    vars@.map_values(|p: (String, String)| (p.0@, p.1@))
}

pub open spec fn opt_view(o: Option<String>) -> Option<Seq<char>> {
    match o {
        Some(s) => Some(s@),
        None => None,
    }
}

pub open spec fn or_default(o: Option<Seq<char>>, d: Seq<char>) -> Seq<char> {
    match o {
        Some(s) => s,
        None => d,
    }
}

/// Whether `value`, trimmed and lower-cased, is one of `choices`.
pub open spec fn matches_choice(value: Seq<char>, choices: Seq<Seq<char>>) -> bool {
    exists|i: int| 0 <= i < choices.len() && choices[i] == ascii_lowercase(trimmed(value))
}

/// The trimmed, non-empty pieces of a comma-separated list.
pub open spec fn origin_list(pieces: Seq<Seq<char>>) -> Seq<Seq<char>>
    decreases pieces.len(),
{
    if pieces.len() == 0 {
        Seq::empty()
    } else {
        let rest = origin_list(pieces.drop_last());
        if trimmed(pieces.last()).len() == 0 {
            rest
        } else {
            rest.push(trimmed(pieces.last()))
        }
    }
}

/// Looks up `key` in `vars`.
pub fn lookup(vars: &Vec<(String, String)>, key: &str) -> (r: Option<String>)
    ensures
        opt_view(r) == lookup_view(vars_view(vars), key@),
{
    let mut i: usize = 0;
    proof {
        assert(vars_view(vars).skip(0) =~= vars_view(vars));
    }
    while i < vars.len()
        invariant
            i <= vars.len(),
            lookup_view(vars_view(vars), key@) == lookup_view(vars_view(vars).skip(i as int), key@),
        decreases vars.len() - i,
    {
        proof {
            assert(vars_view(vars).skip(i as int).drop_first() =~= vars_view(vars).skip(i + 1));
        }
        if text_eq(vars[i].0.as_str(), key) {
            return Some(vars[i].1.clone());
        }
        i = i + 1;
    }
    proof {
        assert(vars_view(vars).skip(i as int).len() == 0);
    }
    None
}

fn lookup_or(vars: &Vec<(String, String)>, key: &str, default: &str) -> (r: String)
    ensures
        r@ == or_default(lookup_view(vars_view(vars), key@), default@),
{
    match lookup(vars, key) {
        Some(v) => v,
        None => default.to_owned(),
    }
}

/// Whether `value`, trimmed and lower-cased in ASCII, equals one of the four `choices`.
pub fn matches_ignore_ascii_case(value: &str, choices: [&str; 4]) -> (r: bool)
    ensures
        r == matches_choice(value@, choices@.map_values(|c: &str| c@)),
{
    let lowered = to_ascii_lower(trim_text(value));
    let ghost cs = choices@.map_values(|c: &str| c@);
    let mut i: usize = 0;
    while i < 4
        invariant
            i <= 4,
            cs == choices@.map_values(|c: &str| c@),
            lowered@ == ascii_lowercase(trimmed(value@)),
            forall|j: int| 0 <= j < i ==> cs[j] != lowered@,
        decreases 4 - i,
    {
        if text_eq(lowered.as_str(), choices[i]) {
            assert(cs[i as int] == lowered@);
            return true;
        }
        i = i + 1;
    }
    false
}

/// The trimmed, non-empty entries of a comma-separated list of origins.
pub fn parse_origin_list(value: &str) -> (r: Vec<String>)
    ensures
        r@.map_values(|p: String| p@) == origin_list(comma_pieces(value@)),
{
    let pieces = split_commas(value);
    let ghost pv = pieces@.map_values(|p: String| p@);
    let mut out: Vec<String> = Vec::new();
    let mut i: usize = 0;
    while i < pieces.len()
        invariant
            i <= pieces.len(),
            pv == pieces@.map_values(|p: String| p@),
            out@.map_values(|p: String| p@) == origin_list(pv.subrange(0, i as int)),
        decreases pieces.len() - i,
    {
        proof {
            assert(pv.subrange(0, i + 1).drop_last() =~= pv.subrange(0, i as int));
        }
        let piece = trim_text(pieces[i].as_str());
        if !piece.is_empty() {
            out.push(piece.to_owned());
            assert(out@.map_values(|p: String| p@) =~= origin_list(pv.subrange(0, i as int)).push(
                piece@,
            ));
        }
        i = i + 1;
    }
    proof {
        assert(pv.subrange(0, i as int) =~= pv);
    }
    out
}

/// The configuration that the environment `vars` gives, each missing value taking its
/// default.
pub open spec fn config_matches(c: AppConfig, vars: Seq<(Seq<char>, Seq<char>)>) -> bool {
    &&& c.bind_address@ == or_default(lookup_view(vars, "BACKEND_BIND_ADDRESS"@), "127.0.0.1"@)
    &&& c.port == match lookup_view(vars, "BACKEND_PORT"@) {
        Some(v) => match decimal_u16(v) {
            Some(p) => p,
            None => 8000,
        },
        None => 8000,
    }
    &&& c.turnstile_site_key@ == or_default(lookup_view(vars, "VITE_TURNSTILE_SITE_KEY"@), DEV_MOCK_SITE_KEY@)
    &&& opt_view(c.turnstile_secret_key) == lookup_view(vars, "TURNSTILE_SECRET_KEY"@)
    &&& c.turnstile_verify_url@ == or_default(
        lookup_view(vars, "TURNSTILE_VERIFY_URL"@),
        "https://challenges.cloudflare.com/turnstile/v0/siteverify"@,
    )
    &&& c.keycloak_base_url@ == or_default(lookup_view(vars, "KEYCLOAK_BASE_URL"@), "http://localhost:8080"@)
    &&& c.keycloak_realm@ == or_default(lookup_view(vars, "KEYCLOAK_REALM"@), "argus"@)
    &&& c.keycloak_admin_client_id@ == or_default(lookup_view(vars, "KEYCLOAK_ADMIN_CLIENT_ID"@), "argus-backend"@)
    &&& c.keycloak_admin_client_secret@ == or_default(
        lookup_view(vars, "KEYCLOAK_ADMIN_CLIENT_SECRET"@),
        "argus-backend-secret"@,
    )
    &&& c.keycloak_public_client_id@ == or_default(lookup_view(vars, "KEYCLOAK_PUBLIC_CLIENT_ID"@), "argus-frontend"@)
    &&& opt_view(c.keycloak_public_client_secret) == lookup_view(vars, "KEYCLOAK_PUBLIC_CLIENT_SECRET"@)
    &&& c.keycloak_tls_insecure == match lookup_view(vars, "KEYCLOAK_TLS_INSECURE"@) {
        Some(v) => matches_choice(v, seq!["1"@, "true"@, "yes"@, "on"@]),
        None => true,
    }
    &&& c.cors_allowed_origins@.map_values(|p: String| p@) == match lookup_view(vars, "CORS_ALLOWED_ORIGINS"@) {
        Some(v) => origin_list(comma_pieces(v)),
        None => Seq::empty(),
    }
}

/// The names of the environment variables that the configuration reads.
pub open spec fn env_key_names() -> Seq<Seq<char>> {
    seq![
        "BACKEND_BIND_ADDRESS"@,
        "BACKEND_PORT"@,
        "VITE_TURNSTILE_SITE_KEY"@,
        "TURNSTILE_SECRET_KEY"@,
        "TURNSTILE_VERIFY_URL"@,
        "KEYCLOAK_BASE_URL"@,
        "KEYCLOAK_REALM"@,
        "KEYCLOAK_ADMIN_CLIENT_ID"@,
        "KEYCLOAK_ADMIN_CLIENT_SECRET"@,
        "KEYCLOAK_PUBLIC_CLIENT_ID"@,
        "KEYCLOAK_PUBLIC_CLIENT_SECRET"@,
        "KEYCLOAK_TLS_INSECURE"@,
        "CORS_ALLOWED_ORIGINS"@,
    ]
}

impl AppConfig {
    /// The names of the environment variables that the configuration reads.
    pub fn env_keys() -> (r: Vec<&'static str>)
        ensures
            r@.map_values(|k: &str| k@) == env_key_names(),
    {
        let keys = vec![
            "BACKEND_BIND_ADDRESS",
            "BACKEND_PORT",
            "VITE_TURNSTILE_SITE_KEY",
            "TURNSTILE_SECRET_KEY",
            "TURNSTILE_VERIFY_URL",
            "KEYCLOAK_BASE_URL",
            "KEYCLOAK_REALM",
            "KEYCLOAK_ADMIN_CLIENT_ID",
            "KEYCLOAK_ADMIN_CLIENT_SECRET",
            "KEYCLOAK_PUBLIC_CLIENT_ID",
            "KEYCLOAK_PUBLIC_CLIENT_SECRET",
            "KEYCLOAK_TLS_INSECURE",
            "CORS_ALLOWED_ORIGINS",
        ];
        assert(keys@.map_values(|k: &str| k@) =~= env_key_names());
        keys
    }

    /// The configuration given by the environment variables `vars` (name, value), with
    /// a default for each one that is missing; an unparsable port falls back to 8000.
    pub fn from_env(vars: &Vec<(String, String)>) -> (r: AppConfig)
        ensures
            config_matches(r, vars_view(vars)),
    {
        let bind_address = lookup_or(vars, "BACKEND_BIND_ADDRESS", "127.0.0.1");
        let port = match lookup(vars, "BACKEND_PORT") {
            Some(v) => match parse_u16(v.as_str()) {
                Some(p) => p,
                None => 8000,
            },
            None => 8000,
        };
        let turnstile_site_key = lookup_or(vars, "VITE_TURNSTILE_SITE_KEY", DEV_MOCK_SITE_KEY);
        let turnstile_secret_key = lookup(vars, "TURNSTILE_SECRET_KEY");
        let turnstile_verify_url = lookup_or(
            vars,
            "TURNSTILE_VERIFY_URL",
            "https://challenges.cloudflare.com/turnstile/v0/siteverify",
        );
        let keycloak_base_url = lookup_or(vars, "KEYCLOAK_BASE_URL", "http://localhost:8080");
        let keycloak_realm = lookup_or(vars, "KEYCLOAK_REALM", "argus");
        let keycloak_admin_client_id = lookup_or(vars, "KEYCLOAK_ADMIN_CLIENT_ID", "argus-backend");
        let keycloak_admin_client_secret = lookup_or(
            vars,
            "KEYCLOAK_ADMIN_CLIENT_SECRET",
            "argus-backend-secret",
        );
        let keycloak_public_client_id = lookup_or(vars, "KEYCLOAK_PUBLIC_CLIENT_ID", "argus-frontend");
        let keycloak_public_client_secret = lookup(vars, "KEYCLOAK_PUBLIC_CLIENT_SECRET");
        let keycloak_tls_insecure = match lookup(vars, "KEYCLOAK_TLS_INSECURE") {
            Some(v) => {
                let choices: [&str; 4] = ["1", "true", "yes", "on"];
                assert(choices@.map_values(|c: &str| c@) =~= seq!["1"@, "true"@, "yes"@, "on"@]);
                matches_ignore_ascii_case(v.as_str(), choices)
            },
            None => true,
        };
        let cors_allowed_origins = match lookup(vars, "CORS_ALLOWED_ORIGINS") {
            Some(v) => parse_origin_list(v.as_str()),
            None => {
                let empty: Vec<String> = Vec::new();
                assert(empty@.map_values(|p: String| p@) =~= Seq::<Seq<char>>::empty());
                empty
            },
        };
        AppConfig {
            bind_address,
            port,
            turnstile_site_key,
            turnstile_secret_key,
            turnstile_verify_url,
            keycloak_base_url,
            keycloak_realm,
            keycloak_admin_client_id,
            keycloak_admin_client_secret,
            keycloak_public_client_id,
            keycloak_public_client_secret,
            keycloak_tls_insecure,
            cors_allowed_origins,
        }
    }

    pub open spec fn base_view(&self) -> Seq<char> {
        without_trailing_slashes(self.keycloak_base_url@)
    }

    /// The provider's base URL without trailing slashes.
    pub fn keycloak_base(&self) -> (r: String)
        ensures
            r@ == self.base_view(),
    {
        strip_trailing_slashes(self.keycloak_base_url.as_str()).to_owned()
    }

    /// `<base>/admin/realms/<realm>/users`.
    pub fn keycloak_users_endpoint(&self) -> (r: String)
        ensures
            r@ == self.base_view() + "/admin/realms/"@ + self.keycloak_realm@ + "/users"@,
    {
        let base = self.keycloak_base();
        join4(base.as_str(), "/admin/realms/", self.keycloak_realm.as_str(), "/users")
    }

    /// `<base>/realms/<realm>/protocol/openid-connect/token`.
    pub fn keycloak_token_endpoint(&self) -> (r: String)
        ensures
            r@ == self.base_view() + "/realms/"@ + self.keycloak_realm@
                + "/protocol/openid-connect/token"@,
    {
        let base = self.keycloak_base();
        join4(base.as_str(), "/realms/", self.keycloak_realm.as_str(), "/protocol/openid-connect/token")
    }

    /// `<base>/realms/<realm>/protocol/openid-connect/logout`.
    pub fn keycloak_logout_endpoint(&self) -> (r: String)
        ensures
            r@ == self.base_view() + "/realms/"@ + self.keycloak_realm@
                + "/protocol/openid-connect/logout"@,
    {
        let base = self.keycloak_base();
        join4(base.as_str(), "/realms/", self.keycloak_realm.as_str(), "/protocol/openid-connect/logout")
    }
}

} // verus!
