//! The OAuth flow: starting an authorization, and reading the callback URL
//! that the provider sends back.

use vstd::prelude::*;
use crate::assoc::get_key;
use crate::pkce::{challenge_of, is_alphanumeric, pkce_challenge, random_alphanumeric, ChallengeMethod};
use crate::text::{chars_of, decimal_u64, parse_u64};
use crate::token_manager::{
    opt_str_view, opt_view, pairs_view, url_with_params_of, ProviderConfig, TokenError,
    TokenManagerState,
};

verus! {

/// Names whether `url` parses as an absolute URL.
pub uninterp spec fn url_parses(url: Seq<char>) -> bool;

/// Names the query of a parsed URL.
pub uninterp spec fn url_query_of(url: Seq<char>) -> Option<Seq<char>>;

/// Names the fragment of a parsed URL.
pub uninterp spec fn url_fragment_of(url: Seq<char>) -> Option<Seq<char>>;

/// Names the host of a parsed URL.
pub uninterp spec fn url_host_of(url: Seq<char>) -> Option<Seq<char>>;

/// Names the first path segment of a parsed URL.
pub uninterp spec fn url_first_segment_of(url: Seq<char>) -> Option<Seq<char>>;

/// Names the decoded pairs of a form-encoded string.
pub uninterp spec fn form_pairs_of(text: Seq<char>) -> Seq<(Seq<char>, Seq<char>)>;

/// The parts of a callback URL that the flow reads.
#[derive(Debug)]
pub struct UrlParts {
    pub query: Option<String>,
    pub fragment: Option<String>,
    pub host: Option<String>,
    pub first_segment: Option<String>,
}

/// Relies on `url::Url::parse` and the accessors `query`, `fragment`,
/// `host_str` and `path_segments` of the parsed URL.
#[verifier::external_body]
pub(crate) fn parse_url(url: &str) -> (r: Option<UrlParts>)
    ensures
        r is Some <==> url_parses(url@),
        r matches Some(p) ==> opt_view(p.query) == url_query_of(url@) && opt_view(p.fragment)
            == url_fragment_of(url@) && opt_view(p.host) == url_host_of(url@) && opt_view(
            p.first_segment,
        ) == url_first_segment_of(url@),
{
    let u = url::Url::parse(url).ok()?;
    Some(UrlParts {
        query: u.query().map(|s| s.to_string()),
        fragment: u.fragment().map(|s| s.to_string()),
        host: u.host_str().map(|s| s.to_string()),
        first_segment: u.path_segments().and_then(|mut s| s.next()).map(|s| s.to_string()),
    })
}

/// Relies on `url::form_urlencoded::parse`: the name/value pairs of
/// `text`, percent-decoded, in order.
#[verifier::external_body]
pub(crate) fn form_pairs(text: &str) -> (r: Vec<(String, String)>)
    ensures
        pairs_view(r@) == form_pairs_of(text@),
{
    url::form_urlencoded::parse(text.as_bytes()).map(|(k, v)| (k.into_owned(), v.into_owned())).collect()
}

/// The value of the last pair named `key`: a later pair overrides an earlier one.
pub open spec fn lookup_param(params: Seq<(Seq<char>, Seq<char>)>, key: Seq<char>) -> Option<
    Seq<char>,
>
    decreases params.len(),
{
    if params.len() == 0 {
        None
    } else if params.last().0 == key {
        Some(params.last().1)
    } else {
        lookup_param(params.drop_last(), key)
    }
}

/// Looks a callback parameter up; a later pair overrides an earlier one.
pub fn get_param(params: &Vec<(String, String)>, key: &str) -> (r: Option<String>)
    ensures
        opt_view(r) == lookup_param(pairs_view(params@), key@),
{
    let k = key.to_owned();
    let mut i: usize = params.len();
    assert(params@.take(params@.len() as int) =~= params@);
    while i > 0
        invariant
            i <= params@.len(),
            k@ == key@,
            lookup_param(pairs_view(params@), key@) == lookup_param(
                pairs_view(params@.take(i as int)),
                key@,
            ),
        decreases i,
    {
        let ghost s = pairs_view(params@.take(i as int));
        assert(s.drop_last() =~= pairs_view(params@.take(i - 1)));
        if params[i - 1].0 == k {
            return Some(params[i - 1].1.clone());
        }
        i -= 1;
    }
    None
}

/// The parameters of a callback: those of the query, then those of the
/// fragment read as a query.
pub open spec fn callback_params_of(url: Seq<char>) -> Seq<(Seq<char>, Seq<char>)> {
    form_pairs_of(
        match url_query_of(url) {
            Some(q) => q,
            None => Seq::empty(),
        },
    ) + match url_fragment_of(url) {
        Some(f) => form_pairs_of(f),
        None => Seq::empty(),
    }
}

/// Merging the fragment's parameters after the query's: a name present in
/// the fragment takes the fragment's value, any other keeps the query's.
pub proof fn fragment_overrides_query(
    query: Seq<(Seq<char>, Seq<char>)>,
    fragment: Seq<(Seq<char>, Seq<char>)>,
    key: Seq<char>,
)
    ensures
        lookup_param(query + fragment, key) == (match lookup_param(fragment, key) {
            Some(v) => Some(v),
            None => lookup_param(query, key),
        }),
    decreases fragment.len(),
{
    if fragment.len() == 0 {
        assert(query + fragment =~= query);
    } else {
        assert((query + fragment).drop_last() =~= query + fragment.drop_last());
        assert((query + fragment).last() == fragment.last());
        fragment_overrides_query(query, fragment.drop_last(), key);
    }
}

fn append_all(v: &mut Vec<(String, String)>, extra: Vec<(String, String)>)
    ensures
        final(v)@ == old(v)@ + extra@,
{
    let mut extra = extra;
    let mut rest: Vec<(String, String)> = Vec::new();
    rest.append(&mut extra);
    v.append(&mut rest);
}

/// Parses a callback URL into its parts and its merged parameters.
pub fn callback_params(url: &str) -> (r: Option<(UrlParts, Vec<(String, String)>)>)
    ensures
        r is Some <==> url_parses(url@),
        r matches Some(x) ==> opt_view(x.0.host) == url_host_of(url@) && opt_view(x.0.first_segment)
            == url_first_segment_of(url@) && pairs_view(x.1@) == callback_params_of(url@),
{
    let parts = parse_url(url)?;
    proof {
        reveal_strlit("");
    }
    let query_text: &str = match &parts.query {
        Some(q) => q.as_str(),
        None => "",
    };
    assert(query_text@ == match url_query_of(url@) {
        Some(q) => q,
        None => Seq::<char>::empty(),
    });
    let mut params = form_pairs(query_text);
    let ghost from_query = params@;
    match &parts.fragment {
        Some(f) => {
            let extra = form_pairs(f.as_str());
            append_all(&mut params, extra);
        },
        None => {},
    }
    proof {
        let q = match url_query_of(url@) {
            Some(q) => q,
            None => Seq::<char>::empty(),
        };
        assert(pairs_view(from_query) == form_pairs_of(q));
        match url_fragment_of(url@) {
            Some(f) => {
                assert(pairs_view(params@) =~= pairs_view(from_query) + form_pairs_of(f));
            },
            None => {
                assert(params@ == from_query);
                assert(pairs_view(params@) =~= pairs_view(from_query) + Seq::empty());
            },
        }
    }
    Some((parts, params))
}


/// The hints of a provider, as characters.
pub open spec fn hints_view(c: ProviderConfig) -> Seq<Seq<char>> {
    c.callback_hints@.map_values(|h: String| h@)
}

/// The first registered provider that lists `hint`.
pub open spec fn first_with_hint(s: Seq<(String, ProviderConfig)>, hint: Seq<char>) -> Option<
    Seq<char>,
>
    decreases s.len(),
{
    if s.len() == 0 {
        None
    } else if hints_view(s[0].1).contains(hint) {
        Some(s[0].0@)
    } else {
        first_with_hint(s.drop_first(), hint)
    }
}

/// The callback holds a field that the provider names for a token or a code.
pub open spec fn carries_payload(c: ProviderConfig, params: Seq<(Seq<char>, Seq<char>)>) -> bool {
    (c.callback_access_token_param matches Some(n) && lookup_param(params, n@) is Some) || (
    c.callback_code_param matches Some(n) && lookup_param(params, n@) is Some)
}

/// The first registered provider whose payload field the callback holds.
pub open spec fn first_with_payload(
    s: Seq<(String, ProviderConfig)>,
    params: Seq<(Seq<char>, Seq<char>)>,
) -> Option<Seq<char>>
    decreases s.len(),
{
    if s.len() == 0 {
        None
    } else if carries_payload(s[0].1, params) {
        Some(s[0].0@)
    } else {
        first_with_payload(s.drop_first(), params)
    }
}

fn contains_string(v: &Vec<String>, x: &str) -> (r: bool)
    ensures
        r == v@.map_values(|h: String| h@).contains(x@),
{
    let k = x.to_owned();
    let ghost hv = v@.map_values(|h: String| h@);
    for i in 0..v.len()
        invariant
            k@ == x@,
            hv == v@.map_values(|h: String| h@),
            forall|j: int| 0 <= j < i ==> hv[j] != x@,
    {
        if v[i] == k {
            assert(hv[i as int] == x@);
            return true;
        }
    }
    false
}

fn param_present(params: &Vec<(String, String)>, name: &Option<String>) -> (r: bool)
    ensures
        r == (name matches Some(n) && lookup_param(pairs_view(params@), n@) is Some),
{
    match name {
        Some(n) => get_param(params, n.as_str()).is_some(),
        None => false,
    }
}

/// Where the provider of a callback is found, in order: the caller's
/// override, the pending `state`, the URL's host, its first path segment,
/// and last the payload fields.
pub open spec fn resolve_provider_spec(
    tm: TokenManagerState,
    host: Option<Seq<char>>,
    segment: Option<Seq<char>>,
    params: Seq<(Seq<char>, Seq<char>)>,
    provider_override: Option<Seq<char>>,
) -> Option<Seq<char>> {
    let st = lookup_param(params, "state"@);
    if provider_override is Some {
        provider_override
    } else if st is Some && tm.state_map().contains_key(st->0) {
        Some(tm.state_map()[st->0].0@)
    } else if host is Some && host->0.len() > 0 && first_with_hint(tm.providers@, host->0) is Some {
        first_with_hint(tm.providers@, host->0)
    } else if segment is Some && segment->0.len() > 0 && first_with_hint(
        tm.providers@,
        segment->0,
    ) is Some {
        first_with_hint(tm.providers@, segment->0)
    } else {
        first_with_payload(tm.providers@, params)
    }
}

/// What a callback leads to.
#[derive(Debug)]
pub enum CallbackAction {
    /// The access token of an implicit flow was cached; the caller persists it.
    TokenStored { provider_id: String, access_token: String, expires_at: u64 },
    /// The code is to be exchanged at the token endpoint.
    ExchangeCode { provider_id: String, code: String, code_verifier: Option<String> },
}

/// Why a callback failed.
#[derive(Debug)]
pub enum CallbackError {
    InvalidUrl,
    UnknownProvider,
    ProviderNotRegistered,
    Denied(String),
    MissingState,
    UnknownState,
    StateMismatch,
    MissingExpiry,
    ExpirationOverflow,
    MissingVerifier,
    NoPayloadFields,
    MissingPayload(Vec<String>),
}

/// A failed callback, with the provider whose failure is to be announced.
#[derive(Debug)]
pub struct CallbackFailure {
    pub provider_id: Option<String>,
    pub error: CallbackError,
}

/// The lifetime of an implicit-flow token: the callback's own, else the
/// provider's default.
pub open spec fn callback_expires_in(c: ProviderConfig, params: Seq<(Seq<char>, Seq<char>)>) -> Option<
    u64,
> {
    match lookup_param(params, c.callback_expires_in_param@) {
        Some(t) if decimal_u64(t) is Some => decimal_u64(t),
        _ => c.default_access_token_ttl_seconds,
    }
}

/// The payload names that a provider declares, access token first.
pub open spec fn expected_payload(c: ProviderConfig) -> Seq<Seq<char>> {
    (match c.callback_access_token_param {
        Some(n) => seq![n@],
        None => Seq::empty(),
    }) + (match c.callback_code_param {
        Some(n) => seq![n@],
        None => Seq::empty(),
    })
}

impl TokenManagerState {
    /// The first registered provider that lists `hint`.
    pub fn get_provider_from_callback_hint(&self, hint: &str) -> (r: Option<String>)
        ensures
            opt_view(r) == first_with_hint(self.providers@, hint@),
    {
        let ghost s = self.providers@;
        assert(s.skip(0) =~= s);
        for i in 0..self.providers.len()
            invariant
                s == self.providers@,
                first_with_hint(s, hint@) == first_with_hint(s.skip(i as int), hint@),
        {
            assert(s.skip(i as int).drop_first() =~= s.skip(i + 1));
            assert(s.skip(i as int)[0] == s[i as int]);
            if contains_string(&self.providers[i].1.callback_hints, hint) {
                return Some(self.providers[i].0.clone());
            }
        }
        assert(s.skip(s.len() as int).len() == 0);
        None
    }

    /// The first registered provider whose payload field the callback holds.
    pub fn infer_provider_from_callback_params(&self, params: &Vec<(String, String)>) -> (r: Option<
        String,
    >)
        ensures
            opt_view(r) == first_with_payload(self.providers@, pairs_view(params@)),
    {
        let ghost s = self.providers@;
        let ghost pv = pairs_view(params@);
        assert(s.skip(0) =~= s);
        for i in 0..self.providers.len()
            invariant
                s == self.providers@,
                pv == pairs_view(params@),
                first_with_payload(s, pv) == first_with_payload(s.skip(i as int), pv),
        {
            assert(s.skip(i as int).drop_first() =~= s.skip(i + 1));
            assert(s.skip(i as int)[0] == s[i as int]);
            let c = &self.providers[i].1;
            if param_present(params, &c.callback_access_token_param) || param_present(
                params,
                &c.callback_code_param,
            ) {
                return Some(self.providers[i].0.clone());
            }
        }
        assert(s.skip(s.len() as int).len() == 0);
        None
    }

    /// The provider that a callback belongs to.
    pub fn resolve_callback_provider(
        &self,
        parts: &UrlParts,
        params: &Vec<(String, String)>,
        provider_override: Option<&str>,
    ) -> (r: Option<String>)
        requires
            self.wf(),
        ensures
            opt_view(r) == resolve_provider_spec(
                *self,
                opt_view(parts.host),
                opt_view(parts.first_segment),
                pairs_view(params@),
                opt_str_view(provider_override),
            ),
    {
        if let Some(p) = provider_override {
            return Some(p.to_owned());
        }
        if let Some(st) = get_param(params, "state") {
            proof {
                reveal_strlit("state");
            }
            if let Some(p) = self.get_pkce_state_provider(st.as_str()) {
                return Some(p);
            }
        }
        proof {
            reveal_strlit("state");
        }
        if let Some(h) = &parts.host {
            if !h.as_str().is_empty() {
                if let Some(p) = self.get_provider_from_callback_hint(h.as_str()) {
                    return Some(p);
                }
            }
        }
        if let Some(seg) = &parts.first_segment {
            if !seg.as_str().is_empty() {
                if let Some(p) = self.get_provider_from_callback_hint(seg.as_str()) {
                    return Some(p);
                }
            }
        }
        self.infer_provider_from_callback_params(params)
    }
}


/// The callback names an access token in the provider's field for it.
pub open spec fn access_hit(c: ProviderConfig, params: Seq<(Seq<char>, Seq<char>)>) -> bool {
    c.callback_access_token_param matches Some(n) && lookup_param(params, n@) is Some
}

/// The callback names a code in the provider's field for it.
pub open spec fn code_hit(c: ProviderConfig, params: Seq<(Seq<char>, Seq<char>)>) -> bool {
    c.callback_code_param matches Some(n) && lookup_param(params, n@) is Some
}

/// How a callback for provider `p`, configured as `c`, with parameters
/// `params`, received at `now`, takes the state from `old` to `new` with
/// result `r`.
pub open spec fn settles(
    old: TokenManagerState,
    new: TokenManagerState,
    p: Seq<char>,
    c: ProviderConfig,
    params: Seq<(Seq<char>, Seq<char>)>,
    now: u64,
    r: Result<CallbackAction, CallbackError>,
) -> bool {
    let st = lookup_param(params, c.callback_state_param@);
    let sm = old.state_map();
    let vm = old.verifier_map();
    &&& new.wf()
    &&& new.provider_map() == old.provider_map()
    &&& new.state_map() == (if c.uses_state && st is Some {
        sm.remove(st->0)
    } else {
        sm
    })
    &&& new.verifier_map() == (if c.use_pkce && !c.uses_state && !(r matches Ok(
        CallbackAction::TokenStored { .. },
    )) {
        vm.remove(p)
    } else {
        vm
    })
    &&& settles_result(old, new, p, c, params, now, r)
}

/// The result of a callback, and the token it caches.
pub open spec fn settles_result(
    old: TokenManagerState,
    new: TokenManagerState,
    p: Seq<char>,
    c: ProviderConfig,
    params: Seq<(Seq<char>, Seq<char>)>,
    now: u64,
    r: Result<CallbackAction, CallbackError>,
) -> bool {
    let err = lookup_param(params, "error"@);
    let st = lookup_param(params, c.callback_state_param@);
    let sm = old.state_map();
    let vm = old.verifier_map();
    let state_ok = !c.uses_state || (st is Some && sm.contains_key(st->0) && sm[st->0].0@ == p);
    let passes = err is None && state_ok;
    &&& new.token_map() == (match r {
        Ok(CallbackAction::TokenStored { provider_id, access_token, expires_at }) => old.token_map().insert(
            p,
            (access_token, expires_at),
        ),
        _ => old.token_map(),
    })
    &&& err is Some ==> (r matches Err(CallbackError::Denied(e)) && e@ == err->0)
    &&& err is None && c.uses_state && st is None ==> (r matches Err(CallbackError::MissingState))
    &&& err is None && c.uses_state && st is Some && !sm.contains_key(st->0) ==> (r matches Err(
        CallbackError::UnknownState,
    ))
    &&& err is None && c.uses_state && st is Some && sm.contains_key(st->0) && sm[st->0].0@ != p
        ==> (r matches Err(CallbackError::StateMismatch))
    &&& passes && access_hit(c, params) ==> match callback_expires_in(c, params) {
        None => r matches Err(CallbackError::MissingExpiry),
        Some(e) => if now + e > u64::MAX {
            r matches Err(CallbackError::ExpirationOverflow)
        } else {
            r matches Ok(CallbackAction::TokenStored { provider_id, access_token, expires_at })
                && provider_id@ == p && access_token@ == lookup_param(
                params,
                c.callback_access_token_param->0@,
            )->0 && expires_at == now + e
        },
    }
    &&& passes && !access_hit(c, params) && code_hit(c, params) ==> if c.use_pkce && c.uses_state
        && sm[st->0].1 is None {
        r matches Err(CallbackError::MissingVerifier)
    } else {
        r matches Ok(CallbackAction::ExchangeCode { provider_id, code, code_verifier })
            && provider_id@ == p && code@ == lookup_param(params, c.callback_code_param->0@)->0
            && opt_view(code_verifier) == (if !c.use_pkce {
            None
        } else if c.uses_state {
            opt_view(sm[st->0].1)
        } else if vm.contains_key(p) {
            Some(vm[p]@)
        } else {
            None
        })
    }
    &&& passes && !access_hit(c, params) && !code_hit(c, params) ==> if expected_payload(c).len()
        == 0 {
        r matches Err(CallbackError::NoPayloadFields)
    } else {
        r matches Err(CallbackError::MissingPayload(names)) && names@.map_values(|n: String| n@)
            == expected_payload(c)
    }
}

fn expected_names(c: &ProviderConfig) -> (r: Vec<String>)
    ensures
        r@.map_values(|n: String| n@) == expected_payload(*c),
{
    let mut names: Vec<String> = Vec::new();
    if let Some(n) = &c.callback_access_token_param {
        names.push(n.clone());
    }
    if let Some(n) = &c.callback_code_param {
        names.push(n.clone());
    }
    assert(names@.map_values(|n: String| n@) =~= expected_payload(*c));
    names
}

fn callback_expiry(c: &ProviderConfig, params: &Vec<(String, String)>) -> (r: Option<u64>)
    ensures
        r == callback_expires_in(*c, pairs_view(params@)),
{
    if let Some(t) = get_param(params, c.callback_expires_in_param.as_str()) {
        let digits = chars_of(t.as_str());
        if let Some(n) = parse_u64(digits.as_slice()) {
            return Some(n);
        }
    }
    c.default_access_token_ttl_seconds
}

impl TokenManagerState {
    fn settle_inner(
        &mut self,
        p: &str,
        c: &ProviderConfig,
        params: &Vec<(String, String)>,
        st: &Option<String>,
        err: Option<String>,
        now: u64,
    ) -> (r: Result<CallbackAction, CallbackError>)
        requires
            old(self).wf(),
            opt_view(err) == lookup_param(pairs_view(params@), "error"@),
            opt_view(*st) == lookup_param(pairs_view(params@), c.callback_state_param@),
        ensures
            ({
                let pv = pairs_view(params@);
                let stv = opt_view(*st);
                &&& final(self).wf()
                &&& final(self).provider_map() == old(self).provider_map()
                &&& final(self).state_map() == (if err is None && c.uses_state && stv is Some {
                    old(self).state_map().remove(stv->0)
                } else {
                    old(self).state_map()
                })
                &&& final(self).verifier_map() == (if r matches Ok(
                    CallbackAction::ExchangeCode { .. },
                ) && c.use_pkce && !c.uses_state {
                    old(self).verifier_map().remove(p@)
                } else {
                    old(self).verifier_map()
                })
                &&& settles_result(*old(self), *final(self), p@, *c, pv, now, r)
            }),
    {
        if let Some(e) = err {
            return Err(CallbackError::Denied(e));
        }
        let ghost sm = self.state_map();
        let entry = if c.uses_state {
            match st {
                None => {
                    return Err(CallbackError::MissingState);
                },
                Some(s) => match self.take_pkce_state(s.as_str()) {
                    None => {
                        return Err(CallbackError::UnknownState);
                    },
                    Some(en) => {
                        let owner = p.to_owned();
                        if en.0 != owner {
                            return Err(CallbackError::StateMismatch);
                        }
                        Some(en)
                    },
                },
            }
        } else {
            None
        };
        if let Some(n) = &c.callback_access_token_param {
            if let Some(tok) = get_param(params, n.as_str()) {
                return match callback_expiry(c, params) {
                    None => Err(CallbackError::MissingExpiry),
                    Some(e) => match self.set_access_token(p, tok.clone(), e, now) {
                        Ok(t) => Ok(
                            CallbackAction::TokenStored {
                                provider_id: p.to_owned(),
                                access_token: tok,
                                expires_at: t,
                            },
                        ),
                        Err(_) => Err(CallbackError::ExpirationOverflow),
                    },
                };
            }
        }
        if let Some(n) = &c.callback_code_param {
            if let Some(code) = get_param(params, n.as_str()) {
                let code_verifier = if c.use_pkce {
                    if c.uses_state {
                        match entry {
                            Some((_, Some(v))) => Some(v),
                            _ => {
                                return Err(CallbackError::MissingVerifier);
                            },
                        }
                    } else {
                        self.take_pkce_verifier(p)
                    }
                } else {
                    None
                };
                return Ok(
                    CallbackAction::ExchangeCode {
                        provider_id: p.to_owned(),
                        code,
                        code_verifier,
                    },
                );
            }
        }
        let names = expected_names(c);
        if names.len() == 0 {
            Err(CallbackError::NoPayloadFields)
        } else {
            Err(CallbackError::MissingPayload(names))
        }
    }
}


impl TokenManagerState {
    /// Settles a callback for a resolved, registered provider. On failure
    /// the pending `state` and the pooled verifier of the provider are
    /// discarded.
    pub fn settle_callback(
        &mut self,
        p: &str,
        c: &ProviderConfig,
        params: &Vec<(String, String)>,
        now: u64,
    ) -> (r: Result<CallbackAction, CallbackError>)
        requires
            old(self).wf(),
        ensures
            settles(*old(self), *final(self), p@, *c, pairs_view(params@), now, r),
    {
        proof {
            reveal_strlit("error");
        }
        let err = get_param(params, "error");
        let st = get_param(params, c.callback_state_param.as_str());
        let ghost before = *self;
        let r = self.settle_inner(p, c, params, &st, err, now);
        if r.is_err() {
            if c.use_pkce && !c.uses_state {
                let _ = self.take_pkce_verifier(p);
            }
            if c.uses_state {
                if let Some(s) = &st {
                    let _ = self.take_pkce_state(s.as_str());
                }
            }
            proof {
                assert(self.state_map() =~= (if c.uses_state && opt_view(st) is Some {
                    before.state_map().remove(opt_view(st)->0)
                } else {
                    before.state_map()
                }));
                assert(self.verifier_map() =~= (if c.use_pkce && !c.uses_state {
                    before.verifier_map().remove(p@)
                } else {
                    before.verifier_map()
                }));
            }
        } else {
            proof {
                if c.uses_state && opt_view(st) is Some {
                    assert(err is None);
                }
            }
        }
        r
    }

    /// Reads a callback URL, finds its provider and settles it at `now`.
    /// A failure names the provider where one was found and is registered.
    pub fn process_callback(
        &mut self,
        url: &str,
        provider_override: Option<&str>,
        now: u64,
    ) -> (r: Result<CallbackAction, CallbackFailure>)
        requires
            old(self).wf(),
        ensures
            final(self).wf(),
            !url_parses(url@) ==> (r matches Err(f) && f.provider_id is None && f.error is InvalidUrl
                && *final(self) == *old(self)),
            url_parses(url@) ==> {
                let params = callback_params_of(url@);
                let p = resolve_provider_spec(
                    *old(self),
                    url_host_of(url@),
                    url_first_segment_of(url@),
                    params,
                    opt_str_view(provider_override),
                );
                if p is None {
                    (r matches Err(f) && f.provider_id is None && f.error is UnknownProvider
                        && *final(self) == *old(self))
                } else if !old(self).provider_map().contains_key(p->0) {
                    (r matches Err(f) && f.provider_id is None && f.error is ProviderNotRegistered
                        && *final(self) == *old(self))
                } else {
                    exists|res: Result<CallbackAction, CallbackError>|
                        settles(
                            *old(self),
                            *final(self),
                            p->0,
                            old(self).provider_map()[p->0],
                            params,
                            now,
                            res,
                        ) && match res {
                            Ok(a) => r == Ok::<CallbackAction, CallbackFailure>(a),
                            Err(e) => (r matches Err(f) && f.error == e && opt_view(f.provider_id)
                                == p),
                        }
                }
            },
    {
        let (parts, params) = match callback_params(url) {
            Some(x) => x,
            None => {
                return Err(CallbackFailure { provider_id: None, error: CallbackError::InvalidUrl });
            },
        };
        let p = match self.resolve_callback_provider(&parts, &params, provider_override) {
            Some(p) => p,
            None => {
                return Err(
                    CallbackFailure { provider_id: None, error: CallbackError::UnknownProvider },
                );
            },
        };
        let c = match get_key(&self.providers, p.as_str()) {
            Some(c) => c.duplicate(),
            None => {
                return Err(
                    CallbackFailure {
                        provider_id: None,
                        error: CallbackError::ProviderNotRegistered,
                    },
                );
            },
        };
        let ghost c0 = self.provider_map()[p@];
        let res = self.settle_callback(p.as_str(), &c, &params, now);
        proof {
            assert(settles(*old(self), *self, p@, c0, pairs_view(params@), now, res));
        }
        match res {
            Ok(a) => Ok(a),
            Err(e) => Err(CallbackFailure { provider_id: Some(p), error: e }),
        }
    }
}


/// The challenge method a provider asks for in its authorize parameters:
/// `plain` where it says so, S256 otherwise.
pub open spec fn challenge_method_of(c: ProviderConfig) -> ChallengeMethod {
    if lookup_param(pairs_view(c.authorize_extra_params@), "code_challenge_method"@) == Some(
        "plain"@,
    ) {
        ChallengeMethod::Plain
    } else {
        ChallengeMethod::S256
    }
}

fn challenge_method(c: &ProviderConfig) -> (r: ChallengeMethod)
    ensures
        r == challenge_method_of(*c),
{
    let plain = "plain".to_owned();
    match get_param(&c.authorize_extra_params, "code_challenge_method") {
        Some(m) => if m == plain {
            ChallengeMethod::Plain
        } else {
            ChallengeMethod::S256
        },
        None => ChallengeMethod::S256,
    }
}

/// How starting an authorization of `p` with the drawn `state` and
/// `verifier` takes the state from `old` to `new` with result `r`.
pub open spec fn starts(
    old: TokenManagerState,
    new: TokenManagerState,
    p: Seq<char>,
    state: Option<String>,
    verifier: Option<String>,
    r: Result<String, TokenError>,
) -> bool {
    let c = old.provider_map()[p];
    let st = if c.uses_state { state } else { None };
    let v = if c.use_pkce { verifier } else { None };
    let challenge = match v {
        Some(x) => Some(challenge_of(challenge_method_of(c), x@)),
        None => None,
    };
    &&& new.wf()
    &&& new.provider_map() == old.provider_map()
    &&& new.token_map() == old.token_map()
    &&& !old.provider_map().contains_key(p) ==> (r matches Err(e) && e is ProviderNotRegistered)
    &&& old.provider_map().contains_key(p) && c.use_pkce && verifier is None ==> (r matches Err(e)
        && e is MissingCodeChallenge)
    &&& old.provider_map().contains_key(p) && !(c.use_pkce && verifier is None) ==> match url_with_params_of(
        c.authorize_url@,
        crate::token_manager::authorize_query(c, challenge, opt_view(st)),
    ) {
        None => r matches Err(e) && e is InvalidAuthorizeUrl,
        Some(u) => r matches Ok(x) && x@ == u,
    }
    &&& r is Ok ==> match st {
        Some(s) => new.state_map() == old.state_map().insert(s@, (new.state_map()[s@].0, v))
            && new.state_map()[s@].0@ == p && new.verifier_map() == old.verifier_map(),
        None => new.state_map() == old.state_map() && new.verifier_map() == (match v {
            Some(x) => old.verifier_map().insert(p, x),
            None => old.verifier_map(),
        }),
    }
    &&& r is Err ==> new.state_map() == old.state_map() && new.verifier_map() == old.verifier_map()
}

impl TokenManagerState {
    /// Builds the authorize URL of `provider_id` from a drawn `state` and
    /// PKCE verifier (each used only where the provider asks for it), and
    /// records them for the callback: under the `state` where there is one,
    /// else in the provider's verifier slot.
    pub fn start_authorization(
        &mut self,
        provider_id: &str,
        state: Option<String>,
        code_verifier: Option<String>,
    ) -> (r: Result<String, TokenError>)
        requires
            old(self).wf(),
        ensures
            starts(*old(self), *final(self), provider_id@, state, code_verifier, r),
    {
        let c = match get_key(&self.providers, provider_id) {
            Some(c) => c.duplicate(),
            None => {
                return Err(TokenError::ProviderNotRegistered(provider_id.to_owned()));
            },
        };
        let st = if c.uses_state { state } else { None };
        let v = if c.use_pkce { code_verifier } else { None };
        let method = challenge_method(&c);
        let challenge = match &v {
            Some(x) => Some(pkce_challenge(method, x.as_str())),
            None => None,
        };
        let challenge_ref: Option<&str> = match &challenge {
            Some(x) => Some(x.as_str()),
            None => None,
        };
        let state_ref: Option<&str> = match &st {
            Some(x) => Some(x.as_str()),
            None => None,
        };
        let url = self.build_authorize_url(provider_id, challenge_ref, state_ref)?;
        match st {
            Some(s) => self.set_pkce_state(s, provider_id, v),
            None => match v {
                Some(x) => self.set_pkce_verifier(provider_id, x),
                None => {},
            },
        }
        Ok(url)
    }

    /// Starts an authorization of `provider_id`: draws a 32-character
    /// `state` and a 64-character verifier from `[A-Za-z0-9]`, then proceeds
    /// as `start_authorization`.
    pub fn begin_authorization(&mut self, provider_id: &str) -> (r: Result<String, TokenError>)
        requires
            old(self).wf(),
        ensures
            exists|state: String, verifier: String|
                starts(*old(self), *final(self), provider_id@, Some(state), Some(verifier), r)
                    && state@.len() == 32 && (forall|i: int|
                    0 <= i < 32 ==> is_alphanumeric(#[trigger] state@[i])) && verifier@.len() == 64
                    && (forall|i: int| 0 <= i < 64 ==> is_alphanumeric(#[trigger] verifier@[i])),
    {
        let state = random_alphanumeric(32);
        let verifier = random_alphanumeric(64);
        let ghost (s, v) = (state, verifier);
        let r = self.start_authorization(provider_id, Some(state), Some(verifier));
        assert(starts(*old(self), *self, provider_id@, Some(s), Some(v), r));
        r
    }
}


/// The verifier recorded when an authorization starts is the one handed to
/// the code exchange of the callback that answers it: under the echoed
/// `state` where the provider uses one, else from the provider's slot.
pub proof fn verifier_round_trip(
    m0: TokenManagerState,
    m1: TokenManagerState,
    m2: TokenManagerState,
    p: Seq<char>,
    state: String,
    verifier: String,
    url: String,
    params: Seq<(Seq<char>, Seq<char>)>,
    now: u64,
    r: Result<CallbackAction, CallbackError>,
)
    requires
        m0.wf(),
        m0.provider_map().contains_key(p),
        m0.provider_map()[p].use_pkce,
        starts(m0, m1, p, Some(state), Some(verifier), Ok(url)),
        lookup_param(params, "error"@) is None,
        m0.provider_map()[p].uses_state ==> lookup_param(
            params,
            m0.provider_map()[p].callback_state_param@,
        ) == Some(state@),
        !access_hit(m0.provider_map()[p], params),
        code_hit(m0.provider_map()[p], params),
        settles(m1, m2, p, m1.provider_map()[p], params, now, r),
    ensures
        r matches Ok(CallbackAction::ExchangeCode { code_verifier, .. }) && opt_view(code_verifier)
            == Some(verifier@),
{
    let c = m0.provider_map()[p];
    assert(m1.provider_map()[p] == c);
    if c.uses_state {
        assert(m1.state_map().contains_key(state@));
        assert(m1.state_map()[state@].1 == Some(verifier));
    } else {
        assert(m1.verifier_map()[p] == verifier);
    }
}

/// What taking a pending `state` does.
pub open spec fn takes_state(
    old: TokenManagerState,
    new: TokenManagerState,
    s: Seq<char>,
    r: Option<(String, Option<String>)>,
) -> bool {
    &&& new.state_map() == old.state_map().remove(s)
    &&& r == (if old.state_map().contains_key(s) {
        Some(old.state_map()[s])
    } else {
        None
    })
}

/// A pending `state` is handed out once: of two takes of it, the second
/// finds nothing.
pub proof fn state_taken_once(
    m0: TokenManagerState,
    m1: TokenManagerState,
    m2: TokenManagerState,
    s: Seq<char>,
    r1: Option<(String, Option<String>)>,
    r2: Option<(String, Option<String>)>,
)
    requires
        takes_state(m0, m1, s, r1),
        takes_state(m1, m2, s, r2),
    ensures
        r2 is None,
{
}

} // verus!

verus! {

/// What an authenticated request returned: its status and body.
#[derive(Debug)]
pub struct OAuthResponse {
    pub status: u16,
    pub body: String,
}

} // verus!

verus! {

/// The authorize URL of a started authorization carries, right after the
/// client, the challenge of the drawn verifier under the provider's method
/// (the verifier itself for `plain`), and then the drawn `state` where the
/// provider uses one.
pub proof fn authorize_url_carries_challenge(
    m0: TokenManagerState,
    m1: TokenManagerState,
    p: Seq<char>,
    state: Option<String>,
    verifier: String,
    url: String,
)
    requires
        m0.provider_map().contains_key(p),
        m0.provider_map()[p].use_pkce,
        starts(m0, m1, p, state, Some(verifier), Ok(url)),
    ensures
        ({
            let c = m0.provider_map()[p];
            exists|q: Seq<(Seq<char>, Seq<char>)>|
                url_with_params_of(c.authorize_url@, q) == Some(url@) && q[0] == ("client_id"@,
                    c.client_id@) && q[1] == ("code_challenge"@, challenge_of(
                    challenge_method_of(c),
                    verifier@,
                )) && (c.uses_state && state is Some ==> q[2] == ("state"@, state->0@))
        }),
{
    let c = m0.provider_map()[p];
    let st = if c.uses_state { state } else { None };
    let q = crate::token_manager::authorize_query(
        c,
        Some(challenge_of(challenge_method_of(c), verifier@)),
        opt_view(st),
    );
    assert(q[0] == ("client_id"@, c.client_id@));
    assert(q[1] == ("code_challenge"@, challenge_of(challenge_method_of(c), verifier@)));
    if c.uses_state && state is Some {
        assert(q[2] == ("state"@, state->0@));
    }
}

} // verus!
