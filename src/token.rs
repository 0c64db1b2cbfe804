//! The admin credential's lifecycle: the cache, its safety margin, the
//! double-checked refresh lock and the renewal schedule.
//!
//! Instants are milliseconds on a monotonic clock that the caller reads; lifetimes
//! are seconds, as the token endpoint declares them.
use vstd::prelude::*;
use crate::error::{is_success, is_success_status, ErrorView, KeycloakError};
use crate::json::{
    field_of, json_object_fields, optional_u64, parse_json_object, parsed_view,
    read_optional_u64, read_required_text, required_text, FieldsView, JsonField,
};

verus! {

/// A cached credential is only handed out while its expiry is further away than this.
pub const TOKEN_SAFETY_MARGIN_MS: u64 = 5000;
/// Renewal is due this long before the credential expires.
pub const TOKEN_REFRESH_LEEWAY_MS: u64 = 60000;
/// Pause after a failed bootstrap or background fetch.
pub const TOKEN_RETRY_DELAY_MS: u64 = 30000;
/// Lifetime assumed when the token endpoint declares none.
pub const DEFAULT_EXPIRES_IN_SECS: u64 = 300;

/// Why a fetch of the admin credential was started; it does not change what happens.
#[derive(Debug, Clone, Copy, PartialEq, Eq, Structural)]
pub enum RefreshSource {
    Bootstrap,
    Background,
    Demand,
}

/// The admin credential as cached: its value, when it expires, and its declared lifetime.
#[derive(Debug)]
pub struct TokenState {
    pub access_token: String,
    /// Instant of expiry, in milliseconds.
    pub expires_at: u64,
    /// Declared lifetime, in seconds.
    pub expires_in: u64,
}

pub ghost struct TokenStateView {
    pub access_token: Seq<char>,
    pub expires_at: u64,
    pub expires_in: u64,
}

impl View for TokenState {
    type V = TokenStateView;

    open spec fn view(&self) -> TokenStateView {
        TokenStateView {
            access_token: self.access_token@,
            expires_at: self.expires_at,
            expires_in: self.expires_in,
        }
    }
}

/// `a + b`, held at `u64::MAX`.
pub open spec fn sat_add(a: int, b: int) -> u64 {
    if a + b > u64::MAX {
        u64::MAX
    } else {
        (a + b) as u64
    }
}

/// The expiry of a credential with lifetime `expires_in` seconds obtained at `now`.
pub open spec fn expiry_after(now: u64, expires_in: u64) -> u64 {
    sat_add(now as int, expires_in * 1000)
}

/// The credential made from a token response read at `now`.
pub open spec fn issued_state(access_token: Seq<char>, expires_in: Option<u64>, now: u64) -> TokenStateView {
    let lifetime = match expires_in {
        Some(s) => s,
        None => DEFAULT_EXPIRES_IN_SECS,
    };
    TokenStateView {
        access_token,
        expires_at: expiry_after(now, lifetime),
        expires_in: lifetime,
    }
}

/// A credential may be handed out at `now`: it expires more than the margin later.
pub open spec fn is_fresh(st: TokenStateView, now: u64) -> bool {
    st.expires_at > now + TOKEN_SAFETY_MARGIN_MS
}

/// The cached credential that may be handed out at `now`, if any.
pub open spec fn fresh_view(cache: Option<TokenStateView>, now: u64) -> Option<TokenStateView> {
    match cache {
        Some(st) => if is_fresh(st, now) {
            Some(st)
        } else {
            None
        },
        None => None,
    }
}

/// How long the renewal task waits, from `now`, before its next fetch: until the
/// credential enters its renewal leeway, or not at all when it is already inside it (or
/// there is none).
pub open spec fn refresh_delay(cache: Option<TokenStateView>, now: u64) -> u64 {
    match cache {
        None => 0,
        Some(st) => if st.expires_at >= now + TOKEN_REFRESH_LEEWAY_MS {
            (st.expires_at - TOKEN_REFRESH_LEEWAY_MS - now) as u64
        } else {
            0
        },
    }
}

/// The cached credential when it is not yet due for renewal at `now`: it expires later
/// than the renewal leeway, so another fetch has already renewed it.
pub open spec fn renewed_view(cache: Option<TokenStateView>, now: u64) -> Option<TokenStateView> {
    match cache {
        Some(st) => if st.expires_at > now + TOKEN_REFRESH_LEEWAY_MS {
            Some(st)
        } else {
            None
        },
        None => None,
    }
}

impl TokenState {
    /// The credential made from an access token and its declared lifetime, read at `now`
    /// (lifetime 300 s when none is declared; the expiry is held at `u64::MAX`).
    pub fn issued(access_token: String, expires_in: Option<u64>, now: u64) -> (r: TokenState)
        ensures
            r@ == issued_state(access_token@, expires_in, now),
    {
        let lifetime = match expires_in {
            Some(s) => s,
            None => DEFAULT_EXPIRES_IN_SECS,
        };
        let room = (u64::MAX - now) / 1000;
        let expires_at = if lifetime > room {
            proof {
                let l = lifetime as int;
                let q = room as int;
                assert(l >= q + 1);
                assert((q + 1) * 1000 > u64::MAX - now) by (nonlinear_arith)
                    requires
                        q == (u64::MAX - now) / 1000,
                        0 <= u64::MAX - now,
                ;
                assert(l * 1000 >= (q + 1) * 1000) by (nonlinear_arith)
                    requires
                        l >= q + 1,
                ;
            }
            u64::MAX
        } else {
            proof {
                let l = lifetime as int;
                let q = room as int;
                assert(q * 1000 <= u64::MAX - now) by (nonlinear_arith)
                    requires
                        q == (u64::MAX - now) / 1000,
                        0 <= u64::MAX - now,
                ;
                assert(l * 1000 <= q * 1000) by (nonlinear_arith)
                    requires
                        l <= q,
                ;
            }
            now + lifetime * 1000
        };
        TokenState { access_token, expires_at, expires_in: lifetime }
    }

    /// A copy of this credential.
    pub fn duplicate(&self) -> (r: TokenState)
        ensures
            r@ == self@,
    {
        TokenState {
            access_token: self.access_token.clone(),
            expires_at: self.expires_at,
            expires_in: self.expires_in,
        }
    }

    /// Whether this credential may be handed out at `now`.
    pub fn fresh_at(&self, now: u64) -> (r: bool)
        ensures
            r == is_fresh(self@, now),
    {
        self.expires_at > now && self.expires_at - now > TOKEN_SAFETY_MARGIN_MS
    }
}

/// The manager's cache of the admin credential: absent, or the last one fetched.
#[derive(Debug)]
pub struct TokenCache {
    pub state: Option<TokenState>,
}

impl TokenCache {
    pub open spec fn view_state(&self) -> Option<TokenStateView> {
        match self.state {
            Some(st) => Some(st@),
            None => None,
        }
    }

    /// An empty cache: no credential yet.
    pub fn new() -> (r: TokenCache)
        ensures
            r.view_state().is_none(),
    {
        TokenCache { state: None }
    }

    /// The cached credential, when it may be handed out at `now`. This is both the
    /// read-only fast path and the re-check made once the refresh lock is held.
    pub fn fresh_state(&self, now: u64) -> (r: Option<TokenState>)
        ensures
            match r {
                Some(st) => fresh_view(self.view_state(), now) == Some(st@),
                None => fresh_view(self.view_state(), now).is_none(),
            },
    {
        match &self.state {
            Some(st) => if st.fresh_at(now) {
                Some(st.duplicate())
            } else {
                None
            },
            None => None,
        }
    }

    /// The cached access token, when it may be handed out at `now`; `None` means a fetch
    /// is due.
    pub fn fresh_token(&self, now: u64) -> (r: Option<String>)
        ensures
            match r {
                Some(t) => fresh_view(self.view_state(), now) is Some
                    && fresh_view(self.view_state(), now).unwrap().access_token == t@,
                None => fresh_view(self.view_state(), now).is_none(),
            },
    {
        match self.fresh_state(now) {
            Some(st) => Some(st.access_token),
            None => None,
        }
    }

    /// Replaces the cached credential wholesale.
    pub fn store(&mut self, st: TokenState)
        ensures
            final(self).view_state() == Some(st@),
    {
        self.state = Some(st);
    }

    /// Forgets the cached credential, so that the next request fetches a new one.
    pub fn invalidate(&mut self)
        ensures
            final(self).view_state().is_none(),
    {
        self.state = None;
    }

    /// The cached credential when it is not yet due for renewal at `now`: the re-check
    /// that the renewal task makes once the refresh lock is held, so that a renewal that
    /// is due always reaches the token endpoint.
    pub fn renewed_state(&self, now: u64) -> (r: Option<TokenState>)
        ensures
            match r {
                Some(st) => renewed_view(self.view_state(), now) == Some(st@),
                None => renewed_view(self.view_state(), now).is_none(),
            },
    {
        match &self.state {
            Some(st) => if st.expires_at > now && st.expires_at - now > TOKEN_REFRESH_LEEWAY_MS {
                Some(st.duplicate())
            } else {
                None
            },
            None => None,
        }
    }

    /// Milliseconds the renewal task sleeps, from `now`, before its next fetch: until the
    /// credential enters its renewal leeway; none when it is already inside it, has
    /// expired, or there is no credential.
    pub fn time_until_refresh(&self, now: u64) -> (r: u64)
        ensures
            r == refresh_delay(self.view_state(), now),
    {
        match &self.state {
            None => 0,
            Some(st) => if st.expires_at >= now && st.expires_at - now >= TOKEN_REFRESH_LEEWAY_MS {
                st.expires_at - now - TOKEN_REFRESH_LEEWAY_MS
            } else {
                0
            },
        }
    }
}

/// What the client-credentials response gives, `parsed` being what its body decodes to:
/// the credential, or `None` when there is none.
pub open spec fn admin_token_outcome_from(status: u16, parsed: Option<FieldsView>, now: u64) -> Option<TokenStateView> {
    if !is_success_status(status) {
        None
    } else {
        match parsed {
            None => None,
            Some(fields) => match (
                required_text(field_of(fields, "access_token"@)),
                optional_u64(field_of(fields, "expires_in"@)),
            ) {
                (Some(tok), Some(exp)) => Some(issued_state(tok, exp, now)),
                _ => None,
            },
        }
    }
}

/// What the client-credentials response gives.
pub open spec fn admin_token_outcome(status: u16, body: Seq<char>, now: u64) -> Option<TokenStateView> {
    admin_token_outcome_from(status, json_object_fields(body), now)
}

/// Reads the token endpoint's answer to a client-credentials grant, received at `now`.
/// A non-2xx status, or a body without an `access_token` text, is an `UnexpectedStatus`
/// carrying the status and the body.
pub fn admin_token_from_response(status: u16, body: String, now: u64) -> (r: Result<TokenState, KeycloakError>)
    ensures
        match r {
            Ok(st) => admin_token_outcome(status, body@, now) == Some(st@),
            Err(e) => admin_token_outcome(status, body@, now).is_none() && e@
                == ErrorView::UnexpectedStatus(status, body@),
        },
{
    let parsed = parse_json_object(body.as_str());
    admin_token_from_fields(status, body, parsed, now)
}

/// The reading of `admin_token_from_response`, given what the body decoded to
/// (`parsed`, `None` when it is not a JSON object).
pub fn admin_token_from_fields(status: u16, body: String, parsed: Option<Vec<(String, JsonField)>>, now: u64) -> (r: Result<TokenState, KeycloakError>)
    ensures
        match r {
            Ok(st) => admin_token_outcome_from(status, parsed_view(parsed), now) == Some(st@),
            Err(e) => admin_token_outcome_from(status, parsed_view(parsed), now).is_none() && e@
                == ErrorView::UnexpectedStatus(status, body@),
        },
{
    if !is_success(status) {
        return Err(KeycloakError::UnexpectedStatus { status, message: body });
    }
    let fields = match parsed {
        Some(f) => f,
        None => {
            return Err(KeycloakError::UnexpectedStatus { status, message: body });
        },
    };
    let token = read_required_text(&fields, "access_token");
    let expires_in = read_optional_u64(&fields, "expires_in");
    match (token, expires_in) {
        (Some(tok), Some(exp)) => Ok(TokenState::issued(tok, exp, now)),
        _ => Err(KeycloakError::UnexpectedStatus { status, message: body }),
    }
}

/// Pause before the next bootstrap attempt: none once a credential is held, else the
/// fixed retry delay (the bootstrap loop never gives up).
pub fn bootstrap_retry_delay(fetched: bool) -> (r: Option<u64>)
    ensures
        r == if fetched {
            None::<u64>
        } else {
            Some(TOKEN_RETRY_DELAY_MS)
        },
{
    if fetched {
        None
    } else {
        Some(TOKEN_RETRY_DELAY_MS)
    }
}

/// Extra pause of the renewal task after a fetch: none after success (the next sleep
/// follows the new expiry), the fixed retry delay after a failure (the task goes on).
pub fn background_pause_after(fetched: bool) -> (r: u64)
    ensures
        r == if fetched {
            0
        } else {
            TOKEN_RETRY_DELAY_MS
        },
{
    if fetched {
        0
    } else {
        TOKEN_RETRY_DELAY_MS
    }
}

/// Callers passing the refresh lock one after another at the instants `times`, starting
/// from `cache`: a caller that finds a fresh credential is handed it, any other fetches,
/// and that fetch yields `token` with a lifetime of `lifetime` seconds. The result is the
/// number of fetches made and the token handed to each caller.
pub open spec fn through_refresh_lock(
    cache: Option<TokenStateView>,
    times: Seq<u64>,
    token: Seq<char>,
    lifetime: u64,
) -> (nat, Seq<Seq<char>>)
    decreases times.len(),
{
    if times.len() == 0 {
        (0, Seq::empty())
    } else {
        match fresh_view(cache, times[0]) {
            Some(st) => {
                let rest = through_refresh_lock(cache, times.drop_first(), token, lifetime);
                (rest.0, seq![st.access_token] + rest.1)
            },
            None => {
                let st = issued_state(token, Some(lifetime), times[0]);
                let rest = through_refresh_lock(Some(st), times.drop_first(), token, lifetime);
                (rest.0 + 1, seq![token] + rest.1)
            },
        }
    }
}

/// Once a credential that stays fresh at every instant of `times` is cached, callers
/// passing the refresh lock make no fetch and all receive that credential.
pub proof fn lemma_lock_reuses_fresh(st: TokenStateView, times: Seq<u64>, token: Seq<char>, lifetime: u64)
    requires
        forall|k: int| 0 <= k < times.len() ==> is_fresh(st, #[trigger] times[k]),
    ensures
        through_refresh_lock(Some(st), times, token, lifetime).0 == 0,
        through_refresh_lock(Some(st), times, token, lifetime).1.len() == times.len(),
        forall|k: int|
            0 <= k < times.len() ==> #[trigger] through_refresh_lock(Some(st), times, token, lifetime).1[k]
                == st.access_token,
    decreases times.len(),
{
    if times.len() > 0 {
        let rest = times.drop_first();
        assert forall|k: int| 0 <= k < rest.len() implies is_fresh(st, #[trigger] rest[k]) by {
            assert(rest[k] == times[k + 1]);
        }
        lemma_lock_reuses_fresh(st, rest, token, lifetime);
        assert(is_fresh(st, times[0]));
        let out = through_refresh_lock(Some(st), times, token, lifetime);
        let tail = through_refresh_lock(Some(st), rest, token, lifetime);
        assert(out.1 == seq![st.access_token] + tail.1);
        assert forall|k: int| 0 <= k < times.len() implies #[trigger] out.1[k] == st.access_token by {
            if k > 0 {
                assert(out.1[k] == tail.1[k - 1]);
            }
        }
    }
}

/// Single flight: when callers reach the refresh lock while no fresh credential is cached, and
/// the credential that the first fetch brings stays fresh at every caller's instant,
/// exactly one fetch is made and every caller is handed the same token.
pub proof fn lemma_single_flight(
    cache: Option<TokenStateView>,
    times: Seq<u64>,
    token: Seq<char>,
    lifetime: u64,
)
    requires
        times.len() > 0,
        fresh_view(cache, times[0]).is_none(),
        forall|k: int|
            0 <= k < times.len() ==> is_fresh(
                issued_state(token, Some(lifetime), times[0]),
                #[trigger] times[k],
            ),
    ensures
        through_refresh_lock(cache, times, token, lifetime).0 == 1,
        through_refresh_lock(cache, times, token, lifetime).1.len() == times.len(),
        forall|k: int|
            0 <= k < times.len() ==> #[trigger] through_refresh_lock(cache, times, token, lifetime).1[k]
                == token,
{
    let st = issued_state(token, Some(lifetime), times[0]);
    let rest = times.drop_first();
    assert forall|k: int| 0 <= k < rest.len() implies is_fresh(st, #[trigger] rest[k]) by {
        assert(rest[k] == times[k + 1]);
    }
    lemma_lock_reuses_fresh(st, rest, token, lifetime);
    let out = through_refresh_lock(cache, times, token, lifetime);
    let tail = through_refresh_lock(Some(st), rest, token, lifetime);
    assert(out.1 == seq![token] + tail.1);
    assert forall|k: int| 0 <= k < times.len() implies #[trigger] out.1[k] == token by {
        if k > 0 {
            assert(out.1[k] == tail.1[k - 1]);
        }
    }
}

/// A credential is never handed out, neither on the fast path nor after the refresh lock's
/// re-check, once `now` is within the safety margin of its expiry: a fetch follows.
pub proof fn lemma_expiry_margin(st: TokenStateView, now: u64)
    requires
        st.expires_at <= now + TOKEN_SAFETY_MARGIN_MS,
    ensures
        fresh_view(Some(st), now).is_none(),
{
}

/// A renewal that is due is never satisfied from the cache: whenever the renewal task
/// has nothing left to wait, its re-check under the refresh lock finds no renewed
/// credential, so it fetches.
pub proof fn lemma_due_renewal_fetches(cache: Option<TokenStateView>, now: u64)
    requires
        refresh_delay(cache, now) == 0,
    ensures
        renewed_view(cache, now).is_none(),
{
}

/// Background timing: after a fetch at `fetched_at` of a credential whose lifetime is at
/// least the renewal leeway, the renewal task's next fetch, scheduled at any later `now`,
/// comes no earlier than the lifetime less the leeway after the fetch (240 s for a
/// lifetime of 300 s).
pub proof fn lemma_background_timing(token: Seq<char>, lifetime: u64, fetched_at: u64, now: u64)
    requires
        lifetime * 1000 >= TOKEN_REFRESH_LEEWAY_MS,
        fetched_at + lifetime * 1000 <= u64::MAX,
        fetched_at <= now,
    ensures
        now + refresh_delay(Some(issued_state(token, Some(lifetime), fetched_at)), now)
            >= fetched_at + lifetime * 1000 - TOKEN_REFRESH_LEEWAY_MS,
{
}

} // verus!
