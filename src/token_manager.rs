//! Registry of OAuth providers and the in-memory session state of each:
//! access tokens with their expiry, pending `state` values and PKCE verifiers.
//! Time is handed in as Unix seconds by the caller.

use vstd::prelude::*;
use crate::assoc::{assoc_map, get_key, keys_unique, put_key, take_key};

verus! {

/// A token is refreshed this many seconds before it expires.
pub const REFRESH_EARLY_SECS: u64 = 60;

/// Characters of every key and value of a parameter list.
pub open spec fn pairs_view(s: Seq<(String, String)>) -> Seq<(Seq<char>, Seq<char>)> {
    s.map_values(|p: (String, String)| (p.0@, p.1@))
}

pub open spec fn opt_str_view(o: Option<&str>) -> Option<Seq<char>> {
    match o {
        Some(s) => Some(s@),
        None => None,
    }
}

pub open spec fn opt_view(o: Option<String>) -> Option<Seq<char>> {
    match o {
        Some(s) => Some(s@),
        None => None,
    }
}

/// A copy of a string list.
pub fn copy_strings(v: &Vec<String>) -> (r: Vec<String>)
    ensures
        r@ == v@,
{
    let mut out: Vec<String> = Vec::new();
    for i in 0..v.len()
        invariant
            out@ == v@.take(i as int),
    {
        out.push(v[i].clone());
        assert(out@ =~= v@.take(i + 1));
    }
    assert(out@ =~= v@);
    out
}

/// A copy of a parameter list.
pub fn copy_pairs(v: &Vec<(String, String)>) -> (r: Vec<(String, String)>)
    ensures
        r@ == v@,
{
    let mut out: Vec<(String, String)> = Vec::new();
    for i in 0..v.len()
        invariant
            out@ == v@.take(i as int),
    {
        let pair = (v[i].0.clone(), v[i].1.clone());
        out.push(pair);
        assert(out@ =~= v@.take(i + 1));
    }
    assert(out@ =~= v@);
    out
}

/// How one provider is reached: endpoints, client, flow options and the
/// names it uses in its callback.
#[derive(Debug)]
pub struct ProviderConfig {
    pub client_id: String,
    pub authorize_url: String,
    pub token_url: String,
    pub use_pkce: bool,
    pub uses_state: bool,
    pub callback_code_param: Option<String>,
    pub callback_access_token_param: Option<String>,
    pub callback_state_param: String,
    pub callback_expires_in_param: String,
    pub default_access_token_ttl_seconds: Option<u64>,
    pub authorize_extra_params: Vec<(String, String)>,
    pub token_extra_params: Vec<(String, String)>,
    pub refresh_extra_params: Vec<(String, String)>,
    pub callback_hints: Vec<String>,
}

impl ProviderConfig {
    /// A code-flow provider with PKCE and `state`, whose callback carries
    /// `code`, `state` and, for the implicit flow, `expires_in`.
    pub fn new(client_id: &str, authorize_url: &str, token_url: &str) -> (r: Self)
        ensures
            r.client_id@ == client_id@,
            r.authorize_url@ == authorize_url@,
            r.token_url@ == token_url@,
            r.use_pkce,
            r.uses_state,
            opt_view(r.callback_code_param) == Some("code"@),
            r.callback_access_token_param is None,
            r.callback_state_param@ == "state"@,
            r.callback_expires_in_param@ == "expires_in"@,
            r.default_access_token_ttl_seconds is None,
            r.authorize_extra_params@.len() == 0,
            r.token_extra_params@.len() == 0,
            r.refresh_extra_params@.len() == 0,
            r.callback_hints@.len() == 0,
    {
        ProviderConfig {
            client_id: client_id.to_owned(),
            authorize_url: authorize_url.to_owned(),
            token_url: token_url.to_owned(),
            use_pkce: true,
            uses_state: true,
            callback_code_param: Some("code".to_owned()),
            callback_access_token_param: None,
            callback_state_param: "state".to_owned(),
            callback_expires_in_param: "expires_in".to_owned(),
            default_access_token_ttl_seconds: None,
            authorize_extra_params: Vec::new(),
            token_extra_params: Vec::new(),
            refresh_extra_params: Vec::new(),
            callback_hints: Vec::new(),
        }
    }

    pub fn with_pkce(self, enabled: bool) -> (r: Self)
        ensures
            r == (ProviderConfig { use_pkce: enabled, ..self }),
    {
        let mut s = self;
        s.use_pkce = enabled;
        s
    }

    /// Whether the provider echoes a `state` value in its callback.
    pub fn with_state(self, enabled: bool) -> (r: Self)
        ensures
            r == (ProviderConfig { uses_state: enabled, ..self }),
    {
        let mut s = self;
        s.uses_state = enabled;
        s
    }

    /// Name of the callback field that carries an authorization code.
    pub fn with_callback_code_param(self, name: Option<&str>) -> (r: Self)
        ensures
            opt_view(r.callback_code_param) == opt_str_view(name),
            r == (ProviderConfig { callback_code_param: r.callback_code_param, ..self }),
    {
        let mut s = self;
        s.callback_code_param = match name {
            Some(n) => Some(n.to_owned()),
            None => None,
        };
        s
    }

    /// Name of the callback field that carries an access token (implicit flow).
    pub fn with_callback_access_token_param(self, name: Option<&str>) -> (r: Self)
        ensures
            opt_view(r.callback_access_token_param) == opt_str_view(name),
            r == (ProviderConfig { callback_access_token_param: r.callback_access_token_param, ..self }),
    {
        let mut s = self;
        s.callback_access_token_param = match name {
            Some(n) => Some(n.to_owned()),
            None => None,
        };
        s
    }

    /// Lifetime given to an implicit-flow token whose callback names none.
    pub fn with_default_access_token_ttl(self, seconds: Option<u64>) -> (r: Self)
        ensures
            r == (ProviderConfig { default_access_token_ttl_seconds: seconds, ..self }),
    {
        let mut s = self;
        s.default_access_token_ttl_seconds = seconds;
        s
    }

    /// Appends a parameter of the authorize URL.
    pub fn with_authorize_param(self, key: &str, value: &str) -> (r: Self)
        ensures
            pairs_view(r.authorize_extra_params@) == pairs_view(self.authorize_extra_params@).push(
                (key@, value@),
            ),
            r == (ProviderConfig { authorize_extra_params: r.authorize_extra_params, ..self }),
    {
        let mut s = self;
        s.authorize_extra_params.push((key.to_owned(), value.to_owned()));
        proof {
            assert(pairs_view(s.authorize_extra_params@) =~= pairs_view(
                self.authorize_extra_params@,
            ).push((key@, value@)));
        }
        s
    }

    /// Appends a parameter of the code-exchange request.
    pub fn with_token_param(self, key: &str, value: &str) -> (r: Self)
        ensures
            pairs_view(r.token_extra_params@) == pairs_view(self.token_extra_params@).push(
                (key@, value@),
            ),
            r == (ProviderConfig { token_extra_params: r.token_extra_params, ..self }),
    {
        let mut s = self;
        s.token_extra_params.push((key.to_owned(), value.to_owned()));
        proof {
            assert(pairs_view(s.token_extra_params@) =~= pairs_view(self.token_extra_params@).push(
                (key@, value@),
            ));
        }
        s
    }

    /// Appends a parameter of the refresh request.
    pub fn with_refresh_param(self, key: &str, value: &str) -> (r: Self)
        ensures
            pairs_view(r.refresh_extra_params@) == pairs_view(self.refresh_extra_params@).push(
                (key@, value@),
            ),
            r == (ProviderConfig { refresh_extra_params: r.refresh_extra_params, ..self }),
    {
        let mut s = self;
        s.refresh_extra_params.push((key.to_owned(), value.to_owned()));
        proof {
            assert(pairs_view(s.refresh_extra_params@) =~= pairs_view(
                self.refresh_extra_params@,
            ).push((key@, value@)));
        }
        s
    }

    /// Adds a host or first path segment that marks a callback as this provider's.
    pub fn with_callback_hint(self, hint: &str) -> (r: Self)
        ensures
            r.callback_hints@.map_values(|h: String| h@) == self.callback_hints@.map_values(
                |h: String| h@,
            ).push(hint@),
            r == (ProviderConfig { callback_hints: r.callback_hints, ..self }),
    {
        let mut s = self;
        s.callback_hints.push(hint.to_owned());
        proof {
            assert(s.callback_hints@.map_values(|h: String| h@) =~= self.callback_hints@.map_values(
                |h: String| h@,
            ).push(hint@));
        }
        s
    }

    /// The two configurations hold the same values.
    pub open spec fn same_as(&self, o: &Self) -> bool {
        &&& self.client_id == o.client_id
        &&& self.authorize_url == o.authorize_url
        &&& self.token_url == o.token_url
        &&& self.use_pkce == o.use_pkce
        &&& self.uses_state == o.uses_state
        &&& self.callback_code_param == o.callback_code_param
        &&& self.callback_access_token_param == o.callback_access_token_param
        &&& self.callback_state_param == o.callback_state_param
        &&& self.callback_expires_in_param == o.callback_expires_in_param
        &&& self.default_access_token_ttl_seconds == o.default_access_token_ttl_seconds
        &&& self.authorize_extra_params@ == o.authorize_extra_params@
        &&& self.token_extra_params@ == o.token_extra_params@
        &&& self.refresh_extra_params@ == o.refresh_extra_params@
        &&& self.callback_hints@ == o.callback_hints@
    }

    /// A copy that holds the same values.
    pub fn duplicate(&self) -> (r: Self)
        ensures
            r.same_as(self),
    {
        let r = ProviderConfig {
            client_id: self.client_id.clone(),
            authorize_url: self.authorize_url.clone(),
            token_url: self.token_url.clone(),
            use_pkce: self.use_pkce,
            uses_state: self.uses_state,
            callback_code_param: match &self.callback_code_param {
                Some(s) => Some(s.clone()),
                None => None,
            },
            callback_access_token_param: match &self.callback_access_token_param {
                Some(s) => Some(s.clone()),
                None => None,
            },
            callback_state_param: self.callback_state_param.clone(),
            callback_expires_in_param: self.callback_expires_in_param.clone(),
            default_access_token_ttl_seconds: self.default_access_token_ttl_seconds,
            authorize_extra_params: copy_pairs(&self.authorize_extra_params),
            token_extra_params: copy_pairs(&self.token_extra_params),
            refresh_extra_params: copy_pairs(&self.refresh_extra_params),
            callback_hints: copy_strings(&self.callback_hints),
        };
        r
    }
}

} // verus!

verus! {

/// Why a token operation failed.
#[derive(Debug)]
pub enum TokenError {
    ProviderNotRegistered(String),
    MissingCodeChallenge,
    MissingCodeVerifier,
    MissingTokenUrl(String),
    ExpirationOverflow,
    ReauthorizeRequired(String),
    NoRefreshToken,
    InvalidAuthorizeUrl,
}

impl TokenError {
    /// The text shown to the user.
    pub fn message(&self) -> (r: String)
        ensures
            r@ == match self {
                TokenError::ProviderNotRegistered(id) => "Provider not registered: "@ + id@,
                TokenError::MissingCodeChallenge => "Missing PKCE code challenge"@,
                TokenError::MissingCodeVerifier => "Missing PKCE code verifier"@,
                TokenError::MissingTokenUrl(id) => "Missing token URL configuration for provider "@
                    + id@,
                TokenError::ExpirationOverflow => "Failed to compute access token expiration"@,
                TokenError::ReauthorizeRequired(id) => id@
                    + " access token expired or missing; reauthorize"@,
                TokenError::NoRefreshToken => "No refresh token stored"@,
                TokenError::InvalidAuthorizeUrl => "Invalid authorize URL"@,
            },
    {
        match self {
            TokenError::ProviderNotRegistered(id) => "Provider not registered: ".to_owned().concat(
                id.as_str(),
            ),
            TokenError::MissingCodeChallenge => "Missing PKCE code challenge".to_owned(),
            TokenError::MissingCodeVerifier => "Missing PKCE code verifier".to_owned(),
            TokenError::MissingTokenUrl(id) => "Missing token URL configuration for provider ".to_owned().concat(
                id.as_str(),
            ),
            TokenError::ExpirationOverflow => "Failed to compute access token expiration".to_owned(),
            TokenError::ReauthorizeRequired(id) => id.clone().concat(
                " access token expired or missing; reauthorize",
            ),
            TokenError::NoRefreshToken => "No refresh token stored".to_owned(),
            TokenError::InvalidAuthorizeUrl => "Invalid authorize URL".to_owned(),
        }
    }
}

/// The token endpoint's answer.
#[derive(Debug)]
pub struct TokenResponse {
    pub token_type: String,
    pub expires_in: u64,
    pub access_token: String,
    pub refresh_token: Option<String>,
}

/// What to do to obtain an access token once the cache has been consulted.
#[derive(Debug)]
pub enum AccessStep {
    /// A fresh token is at hand.
    Ready(String),
    /// Ask the token endpoint with the stored refresh token.
    Refresh,
}

/// A token whose expiry lies at `expires_at` is still handed out at `now`.
pub open spec fn is_fresh(expires_at: u64, now: u64) -> bool {
    now + REFRESH_EARLY_SECS < expires_at
}

pub fn token_is_fresh(expires_at: u64, now: u64) -> (r: bool)
    ensures
        r == is_fresh(expires_at, now),
{
    expires_at >= REFRESH_EARLY_SECS && now < expires_at - REFRESH_EARLY_SECS
}

/// The Unix second at which a token that lives `expires_in` seconds from
/// `now` expires; fails where that instant does not fit.
pub fn compute_expires_at_unix_secs(expires_in: u64, now: u64) -> (r: Result<u64, TokenError>)
    ensures
        match r {
            Ok(t) => t == now + expires_in,
            Err(e) => now + expires_in > u64::MAX && e is ExpirationOverflow,
        },
{
    match now.checked_add(expires_in) {
        Some(t) => Ok(t),
        None => Err(TokenError::ExpirationOverflow),
    }
}

/// The query of an authorize URL: the client, the PKCE challenge where the
/// provider uses PKCE, the `state` where it uses one and one is given, then
/// the provider's own parameters.
pub open spec fn authorize_query(
    config: ProviderConfig,
    challenge: Option<Seq<char>>,
    state: Option<Seq<char>>,
) -> Seq<(Seq<char>, Seq<char>)> {
    seq![("client_id"@, config.client_id@)] + (if config.use_pkce {
        seq![("code_challenge"@, challenge->0)]
    } else {
        Seq::empty()
    }) + (if config.uses_state && state is Some {
        seq![("state"@, state->0)]
    } else {
        Seq::empty()
    }) + pairs_view(config.authorize_extra_params@)
}

/// The form of a code exchange.
pub open spec fn exchange_form(
    config: ProviderConfig,
    code: Seq<char>,
    verifier: Option<Seq<char>>,
) -> Seq<(Seq<char>, Seq<char>)> {
    seq![
        ("grant_type"@, "authorization_code"@),
        ("client_id"@, config.client_id@),
        ("code"@, code),
    ] + (match verifier {
        Some(v) => seq![("code_verifier"@, v)],
        None => Seq::empty(),
    }) + pairs_view(config.token_extra_params@)
}

/// The form of a refresh.
pub open spec fn refresh_form(config: ProviderConfig, refresh_token: Seq<char>) -> Seq<
    (Seq<char>, Seq<char>),
> {
    seq![
        ("client_id"@, config.client_id@),
        ("grant_type"@, "refresh_token"@),
        ("refresh_token"@, refresh_token),
    ] + pairs_view(config.refresh_extra_params@)
}

/// Names the string that `url` builds from a base URL and query pairs,
/// or `None` where the base does not parse.
pub uninterp spec fn url_with_params_of(base: Seq<char>, params: Seq<(Seq<char>, Seq<char>)>) -> Option<Seq<char>>;

/// Relies on `url::Url::parse_with_params`: parses `base`, appends the pairs
/// to its query with form encoding, and serialises the result.
#[verifier::external_body]
pub(crate) fn url_with_params(base: &str, params: &Vec<(String, String)>) -> (r: Option<String>)
    ensures
        opt_view(r) == url_with_params_of(base@, pairs_view(params@)),
{
    url::Url::parse_with_params(base, params.iter()).ok().map(|u| u.to_string())
}

fn push_pair(v: &mut Vec<(String, String)>, k: &str, val: &str)
    ensures
        pairs_view(final(v)@) == pairs_view(old(v)@).push((k@, val@)),
{
    v.push((k.to_owned(), val.to_owned()));
    assert(pairs_view(v@) =~= pairs_view(old(v)@).push((k@, val@)));
}

fn append_pairs(v: &mut Vec<(String, String)>, extra: &Vec<(String, String)>)
    ensures
        pairs_view(final(v)@) == pairs_view(old(v)@) + pairs_view(extra@),
{
    let ghost start = pairs_view(v@);
    for i in 0..extra.len()
        invariant
            pairs_view(v@) == start + pairs_view(extra@.take(i as int)),
    {
        push_pair(v, extra[i].0.as_str(), extra[i].1.as_str());
        assert(pairs_view(extra@.take(i + 1)) =~= pairs_view(extra@.take(i as int)).push(
            (extra@[i as int].0@, extra@[i as int].1@),
        ));
        assert(start + pairs_view(extra@.take(i + 1)) =~= (start + pairs_view(
            extra@.take(i as int),
        )).push((extra@[i as int].0@, extra@[i as int].1@)));
    }
    assert(extra@.take(extra@.len() as int) =~= extra@);
}

/// Registered providers and the session state of each.
#[derive(Debug)]
pub struct TokenManagerState {
    pub providers: Vec<(String, ProviderConfig)>,
    pub tokens: Vec<(String, (String, u64))>,
    pub pkce_verifiers: Vec<(String, String)>,
    pub pkce_states: Vec<(String, (String, Option<String>))>,
}

impl TokenManagerState {
    pub open spec fn wf(&self) -> bool {
        &&& keys_unique(self.providers@)
        &&& keys_unique(self.tokens@)
        &&& keys_unique(self.pkce_verifiers@)
        &&& keys_unique(self.pkce_states@)
    }

    /// Provider id to configuration.
    pub open spec fn provider_map(&self) -> Map<Seq<char>, ProviderConfig> {
        assoc_map(self.providers@)
    }

    /// Provider id to access token and its expiry in Unix seconds.
    pub open spec fn token_map(&self) -> Map<Seq<char>, (String, u64)> {
        assoc_map(self.tokens@)
    }

    /// Provider id to the verifier of a flow without `state`.
    pub open spec fn verifier_map(&self) -> Map<Seq<char>, String> {
        assoc_map(self.pkce_verifiers@)
    }

    /// Pending `state` to its provider id and verifier.
    pub open spec fn state_map(&self) -> Map<Seq<char>, (String, Option<String>)> {
        assoc_map(self.pkce_states@)
    }

    pub fn new() -> (r: Self)
        ensures
            r.wf(),
            r.provider_map().is_empty(),
            r.token_map().is_empty(),
            r.verifier_map().is_empty(),
            r.state_map().is_empty(),
    {
        let r = TokenManagerState {
            providers: Vec::new(),
            tokens: Vec::new(),
            pkce_verifiers: Vec::new(),
            pkce_states: Vec::new(),
        };
        assert(r.provider_map() =~= Map::empty());
        assert(r.token_map() =~= Map::empty());
        assert(r.verifier_map() =~= Map::empty());
        assert(r.state_map() =~= Map::empty());
        r
    }

    /// Inserts or replaces the configuration of `provider_id`.
    pub fn register_provider(&mut self, provider_id: &str, config: ProviderConfig)
        requires
            old(self).wf(),
        ensures
            final(self).wf(),
            final(self).provider_map() == old(self).provider_map().insert(provider_id@, config),
            final(self).token_map() == old(self).token_map(),
            final(self).verifier_map() == old(self).verifier_map(),
            final(self).state_map() == old(self).state_map(),
    {
        put_key(&mut self.providers, provider_id.to_owned(), config);
    }

    /// A copy of the configuration of `provider_id`.
    pub fn get_provider(&self, provider_id: &str) -> (r: Result<ProviderConfig, TokenError>)
        requires
            self.wf(),
        ensures
            match r {
                Ok(c) => self.provider_map().contains_key(provider_id@) && c.same_as(
                    &self.provider_map()[provider_id@],
                ),
                Err(e) => !self.provider_map().contains_key(provider_id@) && e
                    == TokenError::ProviderNotRegistered(e->ProviderNotRegistered_0) && e->ProviderNotRegistered_0@
                    == provider_id@,
            },
    {
        match get_key(&self.providers, provider_id) {
            Some(c) => Ok(c.duplicate()),
            None => Err(TokenError::ProviderNotRegistered(provider_id.to_owned())),
        }
    }

    /// Records the verifier of a flow without `state`, replacing an earlier one.
    pub fn set_pkce_verifier(&mut self, provider_id: &str, code_verifier: String)
        requires
            old(self).wf(),
        ensures
            final(self).wf(),
            final(self).verifier_map() == old(self).verifier_map().insert(
                provider_id@,
                code_verifier,
            ),
            final(self).provider_map() == old(self).provider_map(),
            final(self).token_map() == old(self).token_map(),
            final(self).state_map() == old(self).state_map(),
    {
        put_key(&mut self.pkce_verifiers, provider_id.to_owned(), code_verifier);
    }

    /// Removes and returns the verifier recorded for `provider_id`.
    pub fn take_pkce_verifier(&mut self, provider_id: &str) -> (r: Option<String>)
        requires
            old(self).wf(),
        ensures
            final(self).wf(),
            r == (if old(self).verifier_map().contains_key(provider_id@) {
                Some(old(self).verifier_map()[provider_id@])
            } else {
                None
            }),
            final(self).verifier_map() == old(self).verifier_map().remove(provider_id@),
            final(self).provider_map() == old(self).provider_map(),
            final(self).token_map() == old(self).token_map(),
            final(self).state_map() == old(self).state_map(),
    {
        take_key(&mut self.pkce_verifiers, provider_id)
    }

    /// Records a pending `state` for `provider_id`, with the verifier of its flow.
    pub fn set_pkce_state(&mut self, state: String, provider_id: &str, code_verifier: Option<String>)
        requires
            old(self).wf(),
        ensures
            final(self).wf(),
            final(self).state_map() == old(self).state_map().insert(
                state@,
                (final(self).state_map()[state@].0, code_verifier),
            ),
            final(self).state_map()[state@].0@ == provider_id@,
            final(self).provider_map() == old(self).provider_map(),
            final(self).token_map() == old(self).token_map(),
            final(self).verifier_map() == old(self).verifier_map(),
    {
        let entry = (provider_id.to_owned(), code_verifier);
        put_key(&mut self.pkce_states, state, entry);
    }

    /// Removes and returns the entry of a pending `state`.
    pub fn take_pkce_state(&mut self, state: &str) -> (r: Option<(String, Option<String>)>)
        requires
            old(self).wf(),
        ensures
            final(self).wf(),
            r == (if old(self).state_map().contains_key(state@) {
                Some(old(self).state_map()[state@])
            } else {
                None
            }),
            final(self).state_map() == old(self).state_map().remove(state@),
            final(self).provider_map() == old(self).provider_map(),
            final(self).token_map() == old(self).token_map(),
            final(self).verifier_map() == old(self).verifier_map(),
    {
        take_key(&mut self.pkce_states, state)
    }

    /// The provider of a pending `state`, which stays pending.
    pub fn get_pkce_state_provider(&self, state: &str) -> (r: Option<String>)
        requires
            self.wf(),
        ensures
            r == (if self.state_map().contains_key(state@) {
                Some(self.state_map()[state@].0)
            } else {
                None
            }),
    {
        match get_key(&self.pkce_states, state) {
            Some(entry) => Some(entry.0.clone()),
            None => None,
        }
    }

    /// Caches an access token that lives `expires_in` seconds from `now`;
    /// returns its expiry.
    pub fn set_access_token(
        &mut self,
        provider_id: &str,
        access_token: String,
        expires_in: u64,
        now: u64,
    ) -> (r: Result<u64, TokenError>)
        requires
            old(self).wf(),
        ensures
            final(self).wf(),
            final(self).provider_map() == old(self).provider_map(),
            final(self).verifier_map() == old(self).verifier_map(),
            final(self).state_map() == old(self).state_map(),
            match r {
                Ok(t) => t == now + expires_in && final(self).token_map() == old(self).token_map().insert(provider_id@, (access_token, t)),
                Err(e) => now + expires_in > u64::MAX && e is ExpirationOverflow && final(self).token_map() == old(self).token_map(),
            },
    {
        let expires_at = compute_expires_at_unix_secs(expires_in, now)?;
        put_key(&mut self.tokens, provider_id.to_owned(), (access_token, expires_at));
        Ok(expires_at)
    }

    /// The cached token of `provider_id` where it is still fresh at `now`.
    pub fn get_valid_access_token(&self, provider_id: &str, now: u64) -> (r: Option<String>)
        requires
            self.wf(),
        ensures
            r == (if self.token_map().contains_key(provider_id@) && is_fresh(
                self.token_map()[provider_id@].1,
                now,
            ) {
                Some(self.token_map()[provider_id@].0)
            } else {
                None
            }),
    {
        match get_key(&self.tokens, provider_id) {
            Some(entry) => {
                if token_is_fresh(entry.1, now) {
                    Some(entry.0.clone())
                } else {
                    None
                }
            },
            None => None,
        }
    }

    /// Warms the cache from a persisted record (token, expiry in Unix
    /// seconds): where it is fresh at `now`, it is cached and returned.
    pub fn restore_access_token(
        &mut self,
        provider_id: &str,
        record: Option<(String, u64)>,
        now: u64,
    ) -> (r: Option<String>)
        requires
            old(self).wf(),
        ensures
            final(self).wf(),
            final(self).provider_map() == old(self).provider_map(),
            final(self).verifier_map() == old(self).verifier_map(),
            final(self).state_map() == old(self).state_map(),
            match record {
                Some(rec) => if is_fresh(rec.1, now) {
                    r == Some(rec.0) && final(self).token_map() == old(self).token_map().insert(
                        provider_id@,
                        rec,
                    )
                } else {
                    r is None && final(self).token_map() == old(self).token_map()
                },
                None => r is None && final(self).token_map() == old(self).token_map(),
            },
    {
        match record {
            Some((token, expires_at)) => {
                if token_is_fresh(expires_at, now) {
                    let returned = token.clone();
                    let remaining = expires_at - now;
                    let _ = self.set_access_token(provider_id, token, remaining, now);
                    Some(returned)
                } else {
                    None
                }
            },
            None => None,
        }
    }

    /// Consults the cache, then the persisted record: a fresh token is
    /// `Ready`; otherwise a provider of the implicit flow must be
    /// authorized again, and any other is refreshed.
    pub fn next_access_step(
        &mut self,
        provider_id: &str,
        record: Option<(String, u64)>,
        now: u64,
    ) -> (r: Result<AccessStep, TokenError>)
        requires
            old(self).wf(),
        ensures
            final(self).wf(),
            final(self).provider_map() == old(self).provider_map(),
            old(self).token_map().contains_key(provider_id@) && is_fresh(
                old(self).token_map()[provider_id@].1,
                now,
            ) ==> r == Ok::<AccessStep, TokenError>(
                AccessStep::Ready(old(self).token_map()[provider_id@].0),
            ) && final(self).token_map() == old(self).token_map(),
            !(old(self).token_map().contains_key(provider_id@) && is_fresh(
                old(self).token_map()[provider_id@].1,
                now,
            )) ==> (match record {
                Some(rec) if is_fresh(rec.1, now) => r == Ok::<AccessStep, TokenError>(
                    AccessStep::Ready(rec.0),
                ) && final(self).token_map() == old(self).token_map().insert(provider_id@, rec),
                _ => final(self).token_map() == old(self).token_map() && (if old(self).provider_map().contains_key(provider_id@) && old(self).provider_map()[provider_id@].is_implicit_flow() {
                    r is Err && r->Err_0 is ReauthorizeRequired
                        && r->Err_0->ReauthorizeRequired_0@ == provider_id@
                } else {
                    r == Ok::<AccessStep, TokenError>(AccessStep::Refresh)
                }),
            }),
    {
        if let Some(token) = self.get_valid_access_token(provider_id, now) {
            return Ok(AccessStep::Ready(token));
        }
        if let Some(token) = self.restore_access_token(provider_id, record, now) {
            return Ok(AccessStep::Ready(token));
        }
        match get_key(&self.providers, provider_id) {
            Some(config) => {
                if config.implicit_flow() {
                    return Err(TokenError::ReauthorizeRequired(provider_id.to_owned()));
                }
            },
            None => {},
        }
        Ok(AccessStep::Refresh)
    }

    /// The query pairs of the authorize URL of `provider_id`.
    pub fn authorize_params(
        &self,
        provider_id: &str,
        code_challenge: Option<&str>,
        state: Option<&str>,
    ) -> (r: Result<Vec<(String, String)>, TokenError>)
        requires
            self.wf(),
        ensures
            !self.provider_map().contains_key(provider_id@) ==> r is Err && r->Err_0 is ProviderNotRegistered,
            self.provider_map().contains_key(provider_id@) ==> {
                let c = self.provider_map()[provider_id@];
                if c.use_pkce && code_challenge is None {
                    r is Err && r->Err_0 is MissingCodeChallenge
                } else {
                    r is Ok && pairs_view(r->Ok_0@) == authorize_query(
                        c,
                        opt_str_view(code_challenge),
                        opt_str_view(state),
                    )
                }
            },
    {
        let config = match get_key(&self.providers, provider_id) {
            Some(c) => c,
            None => {
                return Err(TokenError::ProviderNotRegistered(provider_id.to_owned()));
            },
        };
        let mut params: Vec<(String, String)> = Vec::new();
        push_pair(&mut params, "client_id", config.client_id.as_str());
        let ghost after_client = pairs_view(params@);
        if config.use_pkce {
            match code_challenge {
                Some(ch) => push_pair(&mut params, "code_challenge", ch),
                None => {
                    return Err(TokenError::MissingCodeChallenge);
                },
            }
        }
        let ghost after_challenge = pairs_view(params@);
        if config.uses_state {
            if let Some(s) = state {
                push_pair(&mut params, "state", s);
            }
        }
        let ghost after_state = pairs_view(params@);
        append_pairs(&mut params, &config.authorize_extra_params);
        proof {
            let c = *config;
            let ch = opt_str_view(code_challenge);
            let st = opt_str_view(state);
            assert(after_client =~= seq![("client_id"@, c.client_id@)]);
            assert(after_challenge =~= after_client + (if c.use_pkce {
                seq![("code_challenge"@, ch->0)]
            } else {
                Seq::empty()
            }));
            assert(after_state =~= after_challenge + (if c.uses_state && st is Some {
                seq![("state"@, st->0)]
            } else {
                Seq::empty()
            }));
            assert(pairs_view(params@) =~= authorize_query(c, ch, st));
        }
        Ok(params)
    }

    /// The authorize URL of `provider_id`.
    pub fn build_authorize_url(
        &self,
        provider_id: &str,
        code_challenge: Option<&str>,
        state: Option<&str>,
    ) -> (r: Result<String, TokenError>)
        requires
            self.wf(),
        ensures
            !self.provider_map().contains_key(provider_id@) ==> r is Err && r->Err_0 is ProviderNotRegistered,
            self.provider_map().contains_key(provider_id@) ==> {
                let c = self.provider_map()[provider_id@];
                if c.use_pkce && code_challenge is None {
                    r is Err && r->Err_0 is MissingCodeChallenge
                } else {
                    match url_with_params_of(
                        c.authorize_url@,
                        authorize_query(c, opt_str_view(code_challenge), opt_str_view(state)),
                    ) {
                        Some(u) => r is Ok && r->Ok_0@ == u,
                        None => r is Err && r->Err_0 is InvalidAuthorizeUrl,
                    }
                }
            },
    {
        let params = self.authorize_params(provider_id, code_challenge, state)?;
        let config = match get_key(&self.providers, provider_id) {
            Some(c) => c,
            None => {
                return Err(TokenError::ProviderNotRegistered(provider_id.to_owned()));
            },
        };
        match url_with_params(config.authorize_url.as_str(), &params) {
            Some(u) => Ok(u),
            None => Err(TokenError::InvalidAuthorizeUrl),
        }
    }

    /// The token URL and form of a code exchange for `provider_id`.
    pub fn exchange_params(
        &self,
        provider_id: &str,
        code: &str,
        code_verifier: Option<String>,
    ) -> (r: Result<(String, Vec<(String, String)>), TokenError>)
        requires
            self.wf(),
        ensures
            !self.provider_map().contains_key(provider_id@) ==> r is Err && r->Err_0 is ProviderNotRegistered,
            self.provider_map().contains_key(provider_id@) ==> {
                let c = self.provider_map()[provider_id@];
                if crate::text::is_blank(c.token_url@) {
                    r is Err && r->Err_0 is MissingTokenUrl
                } else if c.use_pkce && code_verifier is None {
                    r is Err && r->Err_0 is MissingCodeVerifier
                } else {
                    r is Ok && r->Ok_0.0@ == c.token_url@ && pairs_view(r->Ok_0.1@)
                        == exchange_form(c, code@, opt_view(code_verifier))
                }
            },
    {
        let config = match get_key(&self.providers, provider_id) {
            Some(c) => c,
            None => {
                return Err(TokenError::ProviderNotRegistered(provider_id.to_owned()));
            },
        };
        if crate::text::str_is_blank(config.token_url.as_str()) {
            return Err(TokenError::MissingTokenUrl(provider_id.to_owned()));
        }
        if config.use_pkce && code_verifier.is_none() {
            return Err(TokenError::MissingCodeVerifier);
        }
        let mut params: Vec<(String, String)> = Vec::new();
        push_pair(&mut params, "grant_type", "authorization_code");
        push_pair(&mut params, "client_id", config.client_id.as_str());
        push_pair(&mut params, "code", code);
        let ghost base = pairs_view(params@);
        match &code_verifier {
            Some(v) => push_pair(&mut params, "code_verifier", v.as_str()),
            None => {},
        }
        let ghost with_verifier = pairs_view(params@);
        append_pairs(&mut params, &config.token_extra_params);
        proof {
            let c = *config;
            assert(with_verifier =~= base + (match opt_view(code_verifier) {
                Some(v) => seq![("code_verifier"@, v)],
                None => Seq::empty(),
            }));
            assert(pairs_view(params@) =~= exchange_form(c, code@, opt_view(code_verifier)));
        }
        Ok((config.token_url.clone(), params))
    }

    /// The token URL and form of a refresh for `provider_id`.
    pub fn refresh_params(&self, provider_id: &str, refresh_token: Option<String>) -> (r: Result<
        (String, Vec<(String, String)>),
        TokenError,
    >)
        requires
            self.wf(),
        ensures
            refresh_token is None ==> r is Err && r->Err_0 is NoRefreshToken,
            refresh_token is Some && !self.provider_map().contains_key(provider_id@) ==> r is Err
                && r->Err_0 is ProviderNotRegistered,
            refresh_token is Some && self.provider_map().contains_key(provider_id@) ==> {
                let c = self.provider_map()[provider_id@];
                if crate::text::is_blank(c.token_url@) {
                    r is Err && r->Err_0 is MissingTokenUrl
                } else {
                    r is Ok && r->Ok_0.0@ == c.token_url@ && pairs_view(r->Ok_0.1@)
                        == refresh_form(c, refresh_token->0@)
                }
            },
    {
        let token = match refresh_token {
            Some(t) => t,
            None => {
                return Err(TokenError::NoRefreshToken);
            },
        };
        let config = match get_key(&self.providers, provider_id) {
            Some(c) => c,
            None => {
                return Err(TokenError::ProviderNotRegistered(provider_id.to_owned()));
            },
        };
        if crate::text::str_is_blank(config.token_url.as_str()) {
            return Err(TokenError::MissingTokenUrl(provider_id.to_owned()));
        }
        let mut params: Vec<(String, String)> = Vec::new();
        push_pair(&mut params, "client_id", config.client_id.as_str());
        push_pair(&mut params, "grant_type", "refresh_token");
        push_pair(&mut params, "refresh_token", token.as_str());
        append_pairs(&mut params, &config.refresh_extra_params);
        proof {
            assert(pairs_view(params@) =~= refresh_form(*config, token@));
        }
        Ok((config.token_url.clone(), params))
    }

    /// Caches the access token of a token response received at `now` and
    /// returns its expiry, which the caller persists with the token (and the
    /// refresh token, where there is one).
    pub fn store_token_response(
        &mut self,
        provider_id: &str,
        response: &TokenResponse,
        now: u64,
    ) -> (r: Result<u64, TokenError>)
        requires
            old(self).wf(),
        ensures
            final(self).wf(),
            final(self).provider_map() == old(self).provider_map(),
            final(self).verifier_map() == old(self).verifier_map(),
            final(self).state_map() == old(self).state_map(),
            match r {
                Ok(t) => t == now + response.expires_in && final(self).token_map() == old(self).token_map().insert(provider_id@, (response.access_token, t)),
                Err(e) => now + response.expires_in > u64::MAX && e is ExpirationOverflow,
            },
    {
        self.set_access_token(provider_id, response.access_token.clone(), response.expires_in, now)
    }
}

impl ProviderConfig {
    /// The provider hands out access tokens in its callback and never a code,
    /// so an expired token cannot be refreshed.
    pub open spec fn is_implicit_flow(&self) -> bool {
        self.callback_access_token_param is Some && self.callback_code_param is None
    }

    pub fn implicit_flow(&self) -> (r: bool)
        ensures
            r == self.is_implicit_flow(),
    {
        self.callback_access_token_param.is_some() && self.callback_code_param.is_none()
    }
}

} // verus!
