//! The LLM runtime configuration: one slot per provider, its normalization,
//! which providers are usable, and which provider/model pairs a turn may pick.
use vstd::hash_map::StringHashMap;
use vstd::prelude::*;

use crate::text::{
    is_blank, push_str, str_eq, trim, trim_end_char, trim_end_matches_char, trim_str,
};

verus! {

/// The providers that the runtime knows.
#[derive(Debug, Clone, Copy, PartialEq, Eq, Hash)]
pub enum ProviderId {
    Bigmodel,
    Openai,
    Anthropic,
}

/// The adapter identifier of a provider.
pub open spec fn adapter_id(p: ProviderId) -> Seq<char> {
    match p {
        ProviderId::Bigmodel => "bigmodel"@,
        ProviderId::Openai => "openai"@,
        ProviderId::Anthropic => "anthropic"@,
    }
}

impl ProviderId {
    /// The adapter identifier of this provider.
    pub fn as_adapter_id(&self) -> (r: &'static str)
        ensures
            r@ == adapter_id(*self),
    {
        match self {
            ProviderId::Bigmodel => "bigmodel",
            ProviderId::Openai => "openai",
            ProviderId::Anthropic => "anthropic",
        }
    }
}

/// One extra HTTP header sent to a provider.
#[derive(Debug, Clone)]
pub struct HeaderPair {
    pub key: String,
    pub value: String,
}

impl Default for HeaderPair {
    fn default() -> (r: HeaderPair)
        ensures
            r.key@ == Seq::<char>::empty(),
            r.value@ == Seq::<char>::empty(),
    {
        HeaderPair { key: String::new(), value: String::new() }
    }
}

/// The configuration of one provider.
#[derive(Debug, Clone)]
pub struct ProviderRuntimeConfig {
    pub api_key: String,
    pub base_url: String,
    pub models: Vec<String>,
    pub headers: Vec<HeaderPair>,
}

/// A header pair as two character sequences.
pub open spec fn pair_view(h: HeaderPair) -> (Seq<char>, Seq<char>) {
    (h.key@, h.value@)
}

/// The character sequences of a sequence of strings.
pub open spec fn strs(v: Seq<String>) -> Seq<Seq<char>> {
    v.map_values(|s: String| s@)
}

/// The abstract content of a provider configuration.
pub struct ProviderView {
    pub api_key: Seq<char>,
    pub base_url: Seq<char>,
    pub models: Seq<Seq<char>>,
    pub headers: Seq<(Seq<char>, Seq<char>)>,
}

impl View for ProviderRuntimeConfig {
    type V = ProviderView;

    open spec fn view(&self) -> ProviderView {
        ProviderView {
            api_key: self.api_key@,
            base_url: self.base_url@,
            models: strs(self.models@),
            headers: self.headers@.map_values(|h: HeaderPair| pair_view(h)),
        }
    }
}

/// A provider is usable when it has an API key, a base URL and a model.
pub open spec fn is_available_spec(p: ProviderView) -> bool {
    trim(p.api_key).len() > 0 && trim(p.base_url).len() > 0 && p.models.len() > 0
}

/// The model list kept by normalization: each model trimmed, blanks dropped,
/// and only the first occurrence of each name kept, in order.
pub open spec fn normalize_models(ms: Seq<Seq<char>>) -> Seq<Seq<char>>
    decreases ms.len(),
{
    if ms.len() == 0 {
        Seq::empty()
    } else {
        let prefix = normalize_models(ms.drop_last());
        let t = trim(ms.last());
        if t.len() == 0 || prefix.contains(t) {
            prefix
        } else {
            prefix.push(t)
        }
    }
}

/// Whether some pair of `hs` has the key `k`.
pub open spec fn has_key(hs: Seq<(Seq<char>, Seq<char>)>, k: Seq<char>) -> bool {
    exists|i: int| 0 <= i < hs.len() && hs[i].0 == k
}

/// The header list kept by normalization: keys trimmed, blank keys dropped,
/// and for each key only its last pair kept, in the order of those last pairs.
pub open spec fn normalize_headers(hs: Seq<(Seq<char>, Seq<char>)>) -> Seq<(Seq<char>, Seq<char>)>
    decreases hs.len(),
{
    if hs.len() == 0 {
        Seq::empty()
    } else {
        let rest = normalize_headers(hs.subrange(1, hs.len() as int));
        let k = trim(hs[0].0);
        if k.len() == 0 || has_key(rest, k) {
            rest
        } else {
            seq![(k, hs[0].1)] + rest
        }
    }
}

/// A normalized provider configuration.
pub open spec fn normalize_provider(p: ProviderView) -> ProviderView {
    ProviderView {
        api_key: trim(p.api_key),
        base_url: trim_end_char(trim(p.base_url), '/'),
        models: normalize_models(p.models),
        headers: normalize_headers(p.headers),
    }
}

/// The headers sent to a provider: trimmed non-blank keys, a later pair
/// replacing an earlier one with the same key.
pub open spec fn header_map_spec(hs: Seq<HeaderPair>) -> Map<Seq<char>, String>
    decreases hs.len(),
{
    if hs.len() == 0 {
        Map::empty()
    } else {
        let m = header_map_spec(hs.drop_last());
        let k = trim(hs.last().key@);
        if k.len() == 0 {
            m
        } else {
            m.insert(k, hs.last().value)
        }
    }
}

impl Default for ProviderRuntimeConfig {
    fn default() -> (r: ProviderRuntimeConfig)
        ensures
            r@.api_key == Seq::<char>::empty(),
            r@.base_url == Seq::<char>::empty(),
            r@.models == Seq::<Seq<char>>::empty(),
            r@.headers == Seq::<(Seq<char>, Seq<char>)>::empty(),
    {
        let r = ProviderRuntimeConfig {
            api_key: String::new(),
            base_url: String::new(),
            models: Vec::new(),
            headers: Vec::new(),
        };
        assert(r@.models =~= Seq::<Seq<char>>::empty());
        assert(r@.headers =~= Seq::<(Seq<char>, Seq<char>)>::empty());
        r
    }
}

/// Whether the strings of `v` include `s`.
pub fn contains_str(v: &Vec<String>, s: &str) -> (b: bool)
    ensures
        b == strs(v@).contains(s@),
{
    let mut i: usize = 0;
    while i < v.len()
        invariant
            i <= v@.len(),
            forall|k: int| 0 <= k < i ==> v@[k]@ != s@,
        decreases v@.len() - i,
    {
        if str_eq(v[i].as_str(), s) {
            assert(strs(v@)[i as int] == s@);
            return true;
        }
        i = i + 1;
    }
    assert(!strs(v@).contains(s@)) by {
        if strs(v@).contains(s@) {
            let k = choose|k: int| 0 <= k < strs(v@).len() && strs(v@)[k] == s@;
            assert(v@[k]@ == s@);
        }
    }
    false
}

fn has_key_exec(hs: &Vec<HeaderPair>, k: &str) -> (b: bool)
    ensures
        b == has_key(hs@.map_values(|h: HeaderPair| pair_view(h)), k@),
{
    let ghost view = hs@.map_values(|h: HeaderPair| pair_view(h));
    let mut i: usize = 0;
    while i < hs.len()
        invariant
            i <= hs@.len(),
            view == hs@.map_values(|h: HeaderPair| pair_view(h)),
            forall|j: int| 0 <= j < i ==> view[j].0 != k@,
        decreases hs@.len() - i,
    {
        if str_eq(hs[i].key.as_str(), k) {
            assert(view[i as int].0 == k@);
            return true;
        }
        i = i + 1;
    }
    false
}

proof fn lemma_normalize_headers_unfold(hs: Seq<(Seq<char>, Seq<char>)>, i: int)
    requires
        0 <= i < hs.len(),
    ensures
        normalize_headers(hs.subrange(i, hs.len() as int)) == ({
            let rest = normalize_headers(hs.subrange(i + 1, hs.len() as int));
            let k = trim(hs[i].0);
            if k.len() == 0 || has_key(rest, k) {
                rest
            } else {
                seq![(k, hs[i].1)] + rest
            }
        }),
{
    let s = hs.subrange(i, hs.len() as int);
    assert(s.subrange(1, s.len() as int) =~= hs.subrange(i + 1, hs.len() as int));
    assert(s[0] == hs[i]);
}

impl ProviderRuntimeConfig {
    /// Whether this provider has an API key, a base URL and a model.
    pub fn is_available(&self) -> (b: bool)
        ensures
            b == is_available_spec(self@),
    {
        !is_blank(self.api_key.as_str()) && !is_blank(self.base_url.as_str()) && self.models.len()
            > 0
    }

    /// The headers to send: each non-blank trimmed key mapped to its last value.
    pub fn header_map(&self) -> (m: StringHashMap<String>)
        ensures
            m@ == header_map_spec(self.headers@),
    {
        let mut m: StringHashMap<String> = StringHashMap::new();
        let mut i: usize = 0;
        while i < self.headers.len()
            invariant
                i <= self.headers@.len(),
                m@ == header_map_spec(self.headers@.subrange(0, i as int)),
            decreases self.headers@.len() - i,
        {
            let pair = &self.headers[i];
            let key = trim_str(pair.key.as_str());
            let ghost prefix = self.headers@.subrange(0, i + 1);
            assert(prefix.drop_last() =~= self.headers@.subrange(0, i as int));
            if !key.as_str().is_empty() {
                m.insert(key, pair.value.clone());
            }
            i = i + 1;
        }
        assert(self.headers@.subrange(0, self.headers@.len() as int) =~= self.headers@);
        m
    }

    /// Normalizes this configuration in place: trims the key and base URL,
    /// drops trailing slashes of the URL, keeps each trimmed model once and
    /// each trimmed header key once with its last value.
    pub fn normalize(&mut self)
        ensures
            final(self)@ == normalize_provider(old(self)@),
    {
        let api_key = trim_str(self.api_key.as_str());
        let trimmed_url = trim_str(self.base_url.as_str());
        let base_url = trim_end_matches_char(trimmed_url.as_str(), '/');

        let mut models: Vec<String> = Vec::new();
        let mut i: usize = 0;
        while i < self.models.len()
            invariant
                i <= self.models@.len(),
                strs(models@) == normalize_models(strs(self.models@).subrange(0, i as int)),
            decreases self.models@.len() - i,
        {
            let t = trim_str(self.models[i].as_str());
            let ghost prefix = strs(self.models@).subrange(0, i + 1);
            assert(prefix.drop_last() =~= strs(self.models@).subrange(0, i as int));
            assert(prefix.last() == self.models@[i as int]@);
            if !t.as_str().is_empty() && !contains_str(&models, t.as_str()) {
                let ghost before = models@;
                models.push(t);
                assert(strs(models@) =~= strs(before).push(t@));
            }
            i = i + 1;
        }
        assert(strs(self.models@).subrange(0, self.models@.len() as int) =~= strs(self.models@));

        let ghost hv = self.headers@.map_values(|h: HeaderPair| pair_view(h));
        let mut rev: Vec<HeaderPair> = Vec::new();
        let mut j: usize = self.headers.len();
        assert(hv.subrange(j as int, hv.len() as int) =~= Seq::<(Seq<char>, Seq<char>)>::empty());
        while j > 0
            invariant
                j <= self.headers@.len(),
                hv == self.headers@.map_values(|h: HeaderPair| pair_view(h)),
                rev@.map_values(|h: HeaderPair| pair_view(h)).reverse() == normalize_headers(
                    hv.subrange(j as int, hv.len() as int),
                ),
            decreases j,
        {
            j = j - 1;
            let pair = &self.headers[j];
            let key = trim_str(pair.key.as_str());
            proof {
                lemma_normalize_headers_unfold(hv, j as int);
                assert(hv[j as int] == pair_view(*pair));
            }
            let ghost rv = rev@.map_values(|h: HeaderPair| pair_view(h));
            let ghost rest = normalize_headers(hv.subrange(j + 1, hv.len() as int));
            assert(rv.reverse() == rest);
            let seen = has_key_exec(&rev, key.as_str());
            proof {
                if seen != has_key(rest, key@) {
                    if seen {
                        let q = choose|q: int| 0 <= q < rv.len() && rv[q].0 == key@;
                        assert(rest[rv.len() - 1 - q] == rv[q]);
                    } else {
                        let q = choose|q: int| 0 <= q < rest.len() && rest[q].0 == key@;
                        assert(rv[rv.len() - 1 - q] == rest[q]);
                    }
                }
            }
            if !key.as_str().is_empty() && !seen {
                let value = pair.value.clone();
                let ghost kv = key@;
                rev.push(HeaderPair { key, value });
                proof {
                    let nv = rev@.map_values(|h: HeaderPair| pair_view(h));
                    assert(nv =~= rv.push((kv, pair.value@)));
                    assert(nv.reverse() =~= seq![(kv, pair.value@)] + rv.reverse());
                }
            }
        }
        let mut headers: Vec<HeaderPair> = Vec::new();
        let mut k: usize = rev.len();
        let ghost rv = rev@.map_values(|h: HeaderPair| pair_view(h));
        while k > 0
            invariant
                k <= rev@.len(),
                rv == rev@.map_values(|h: HeaderPair| pair_view(h)),
                headers@.map_values(|h: HeaderPair| pair_view(h)) == rv.reverse().subrange(
                    0,
                    (rev@.len() - k) as int,
                ),
            decreases k,
        {
            k = k - 1;
            let h = rev[k].clone_pair();
            let ghost before = headers@.map_values(|h: HeaderPair| pair_view(h));
            headers.push(h);
            assert(rv.reverse()[(rev@.len() - k - 1) as int] == rv[k as int]);
            assert(headers@.map_values(|h: HeaderPair| pair_view(h)) =~= before.push(rv[k as int]));
            assert(headers@.map_values(|h: HeaderPair| pair_view(h)) =~= rv.reverse().subrange(
                0,
                (rev@.len() - k) as int,
            ));
        }
        assert(rv.reverse().subrange(0, rv.len() as int) =~= rv.reverse());
        assert(hv.subrange(0, hv.len() as int) =~= hv);
        assert(headers@.map_values(|h: HeaderPair| pair_view(h)) =~= normalize_headers(hv));

        self.api_key = api_key;
        self.base_url = base_url;
        self.models = models;
        self.headers = headers;
    }
}

impl HeaderPair {
    /// A copy of this pair.
    pub fn clone_pair(&self) -> (r: HeaderPair)
        ensures
            pair_view(r) == pair_view(*self),
    {
        HeaderPair { key: self.key.clone(), value: self.value.clone() }
    }
}

/// The configuration of every provider.
#[derive(Debug, Clone)]
pub struct ProviderConfigs {
    pub bigmodel: ProviderRuntimeConfig,
    pub openai: ProviderRuntimeConfig,
    pub anthropic: ProviderRuntimeConfig,
}

impl Default for ProviderConfigs {
    fn default() -> (r: ProviderConfigs)
        ensures
            r.bigmodel@ == empty_provider(),
            r.openai@ == empty_provider(),
            r.anthropic@ == empty_provider(),
    {
        ProviderConfigs {
            bigmodel: ProviderRuntimeConfig::default(),
            openai: ProviderRuntimeConfig::default(),
            anthropic: ProviderRuntimeConfig::default(),
        }
    }
}

/// A provider configuration with nothing set.
pub open spec fn empty_provider() -> ProviderView {
    ProviderView {
        api_key: Seq::empty(),
        base_url: Seq::empty(),
        models: Seq::empty(),
        headers: Seq::empty(),
    }
}

/// The runtime configuration: an optional default provider and every
/// provider's settings.
#[derive(Debug, Clone)]
pub struct LlmRuntimeConfig {
    pub default_provider: Option<ProviderId>,
    pub providers: ProviderConfigs,
}

impl Default for LlmRuntimeConfig {
    fn default() -> (r: LlmRuntimeConfig)
        ensures
            r.default_provider is None,
            forall|p: ProviderId| provider_view(r, p) == empty_provider(),
    {
        LlmRuntimeConfig { default_provider: None, providers: ProviderConfigs::default() }
    }
}

/// One model that a turn may select.
#[derive(Debug, Clone)]
pub struct AvailableModel {
    pub provider: ProviderId,
    pub model: String,
}

/// A selectable model as its provider and name.
pub open spec fn available_view(m: AvailableModel) -> (ProviderId, Seq<char>) {
    (m.provider, m.model@)
}

/// The settings of provider `p` in `cfg`.
pub open spec fn provider_view(cfg: LlmRuntimeConfig, p: ProviderId) -> ProviderView {
    match p {
        ProviderId::Bigmodel => cfg.providers.bigmodel@,
        ProviderId::Openai => cfg.providers.openai@,
        ProviderId::Anthropic => cfg.providers.anthropic@,
    }
}

/// Whether provider `p` is usable in `cfg`.
pub open spec fn provider_available(cfg: LlmRuntimeConfig, p: ProviderId) -> bool {
    is_available_spec(provider_view(cfg, p))
}

/// `seq![p]` when `p` is usable in `cfg`, else empty.
pub open spec fn if_available(cfg: LlmRuntimeConfig, p: ProviderId) -> Seq<ProviderId> {
    if provider_available(cfg, p) {
        seq![p]
    } else {
        Seq::empty()
    }
}

/// The usable providers of `cfg`, in the order bigmodel, openai, anthropic.
pub open spec fn configured_spec(cfg: LlmRuntimeConfig) -> Seq<ProviderId> {
    if_available(cfg, ProviderId::Bigmodel) + if_available(cfg, ProviderId::Openai)
        + if_available(cfg, ProviderId::Anthropic)
}

/// The first element of `s`, if any.
pub open spec fn first_of(s: Seq<ProviderId>) -> Option<ProviderId> {
    if s.len() > 0 {
        Some(s[0])
    } else {
        None
    }
}

/// The models that provider `p` offers in `cfg`, or none when it is not usable.
pub open spec fn models_for(cfg: LlmRuntimeConfig, p: ProviderId) -> Seq<(ProviderId, Seq<char>)> {
    if provider_available(cfg, p) {
        provider_view(cfg, p).models.map_values(|m: Seq<char>| (p, m))
    } else {
        Seq::empty()
    }
}

/// Every selectable (provider, model) pair of `cfg`, provider by provider.
pub open spec fn available_models_spec(cfg: LlmRuntimeConfig) -> Seq<(ProviderId, Seq<char>)> {
    models_for(cfg, ProviderId::Bigmodel) + models_for(cfg, ProviderId::Openai) + models_for(
        cfg,
        ProviderId::Anthropic,
    )
}

/// The default provider after normalization: the configured default when it
/// is usable, otherwise the first usable provider.
pub open spec fn normalized_default(cfg: LlmRuntimeConfig) -> Option<ProviderId> {
    match cfg.default_provider {
        Some(p) => if provider_available(cfg, p) {
            Some(p)
        } else {
            first_of(configured_spec(cfg))
        },
        None => first_of(configured_spec(cfg)),
    }
}

impl LlmRuntimeConfig {
    /// The settings of `provider`.
    pub fn provider(&self, provider: &ProviderId) -> (r: &ProviderRuntimeConfig)
        ensures
            r@ == provider_view(*self, *provider),
    {
        match provider {
            ProviderId::Bigmodel => &self.providers.bigmodel,
            ProviderId::Openai => &self.providers.openai,
            ProviderId::Anthropic => &self.providers.anthropic,
        }
    }

    /// The usable providers, in the order bigmodel, openai, anthropic.
    pub fn configured_providers(&self) -> (r: Vec<ProviderId>)
        ensures
            r@ == configured_spec(*self),
    {
        let mut r: Vec<ProviderId> = Vec::new();
        if self.providers.bigmodel.is_available() {
            r.push(ProviderId::Bigmodel);
        }
        let ghost r1 = r@;
        assert(r1 =~= if_available(*self, ProviderId::Bigmodel));
        if self.providers.openai.is_available() {
            r.push(ProviderId::Openai);
        }
        let ghost r2 = r@;
        assert(r2 =~= r1 + if_available(*self, ProviderId::Openai));
        if self.providers.anthropic.is_available() {
            r.push(ProviderId::Anthropic);
        }
        assert(r@ =~= r2 + if_available(*self, ProviderId::Anthropic));
        r
    }
}

/// The configuration with every provider normalized and a default provider
/// that is usable whenever some provider is.
pub fn normalize_runtime_config(cfg: LlmRuntimeConfig) -> (out: LlmRuntimeConfig)
    ensures
        out.providers.bigmodel@ == normalize_provider(cfg.providers.bigmodel@),
        out.providers.openai@ == normalize_provider(cfg.providers.openai@),
        out.providers.anthropic@ == normalize_provider(cfg.providers.anthropic@),
        out.default_provider == normalized_default(
            LlmRuntimeConfig { default_provider: cfg.default_provider, providers: out.providers },
        ),
{
    let mut cfg = cfg;
    cfg.providers.bigmodel.normalize();
    cfg.providers.openai.normalize();
    cfg.providers.anthropic.normalize();
    let available = cfg.configured_providers();
    let default_invalid = match &cfg.default_provider {
        Some(p) => !cfg.provider(p).is_available(),
        None => true,
    };
    if default_invalid {
        cfg.default_provider = if available.len() > 0 {
            Some(available[0])
        } else {
            None
        };
    }
    cfg
}

/// Every selectable (provider, model) pair, provider by provider in the order
/// bigmodel, openai, anthropic, models in their configured order.
pub fn list_available_models(cfg: &LlmRuntimeConfig) -> (out: Vec<AvailableModel>)
    ensures
        out@.map_values(|m: AvailableModel| available_view(m)) == available_models_spec(*cfg),
{
    let mut out: Vec<AvailableModel> = Vec::new();
    push_models_of(cfg, ProviderId::Bigmodel, &mut out);
    let ghost o1 = out@.map_values(|m: AvailableModel| available_view(m));
    push_models_of(cfg, ProviderId::Openai, &mut out);
    let ghost o2 = out@.map_values(|m: AvailableModel| available_view(m));
    push_models_of(cfg, ProviderId::Anthropic, &mut out);
    assert(o1 =~= Seq::<(ProviderId, Seq<char>)>::empty() + models_for(*cfg, ProviderId::Bigmodel));
    out
}

fn push_models_of(cfg: &LlmRuntimeConfig, provider: ProviderId, out: &mut Vec<AvailableModel>)
    ensures
        final(out)@.map_values(|m: AvailableModel| available_view(m)) == old(out)@.map_values(
            |m: AvailableModel| available_view(m),
        ) + models_for(*cfg, provider),
{
    let ghost start = old(out)@.map_values(|m: AvailableModel| available_view(m));
    let provider_cfg = cfg.provider(&provider);
    if !provider_cfg.is_available() {
        assert(start + models_for(*cfg, provider) =~= start);
        return;
    }
    let ghost ms = provider_view(*cfg, provider).models;
    let mut i: usize = 0;
    while i < provider_cfg.models.len()
        invariant
            i <= provider_cfg.models@.len(),
            ms == strs(provider_cfg.models@),
            out@.map_values(|m: AvailableModel| available_view(m)) == start + ms.subrange(
                0,
                i as int,
            ).map_values(|m: Seq<char>| (provider, m)),
        decreases provider_cfg.models@.len() - i,
    {
        let model = provider_cfg.models[i].clone();
        let ghost before = out@.map_values(|m: AvailableModel| available_view(m));
        assert(model@ == ms[i as int]);
        out.push(AvailableModel { provider, model });
        assert(out@.map_values(|m: AvailableModel| available_view(m)) =~= before.push(
            (provider, ms[i as int]),
        ));
        assert(ms.subrange(0, i + 1).map_values(|m: Seq<char>| (provider, m)) =~= ms.subrange(
            0,
            i as int,
        ).map_values(|m: Seq<char>| (provider, m)).push((provider, ms[i as int])));
        i = i + 1;
        assert(out@.map_values(|m: AvailableModel| available_view(m)) =~= start + ms.subrange(
            0,
            i as int,
        ).map_values(|m: Seq<char>| (provider, m)));
    }
    assert(ms.subrange(0, ms.len() as int) =~= ms);
}

/// The message of a selection whose provider is not usable.
pub open spec fn provider_not_configured_message(p: ProviderId) -> Seq<char> {
    "provider '"@ + adapter_id(p) + "' is not configured"@
}

/// The message of a selection whose model the provider does not offer.
pub open spec fn model_not_enabled_message(p: ProviderId, model: Seq<char>) -> Seq<char> {
    "model '"@ + model + "' is not enabled for provider '"@ + adapter_id(p) + "'"@
}

/// Accepts a turn's provider and model when the provider is usable and offers
/// the model; otherwise says which of the two is missing.
pub fn validate_turn_selection(cfg: &LlmRuntimeConfig, provider: &ProviderId, model: &str) -> (r:
    Result<(), String>)
    ensures
        !provider_available(*cfg, *provider) ==> (r matches Err(m) && m@
            == provider_not_configured_message(*provider)),
        provider_available(*cfg, *provider) && !provider_view(*cfg, *provider).models.contains(
            model@,
        ) ==> (r matches Err(m) && m@ == model_not_enabled_message(*provider, model@)),
        provider_available(*cfg, *provider) && provider_view(*cfg, *provider).models.contains(
            model@,
        ) ==> r is Ok,
{
    let provider_cfg = cfg.provider(provider);
    if !provider_cfg.is_available() {
        let mut m = String::new();
        push_str(&mut m, "provider '");
        push_str(&mut m, provider.as_adapter_id());
        push_str(&mut m, "' is not configured");
        assert(m@ =~= provider_not_configured_message(*provider));
        return Err(m);
    }
    if !contains_str(&provider_cfg.models, model) {
        let mut m = String::new();
        push_str(&mut m, "model '");
        push_str(&mut m, model);
        push_str(&mut m, "' is not enabled for provider '");
        push_str(&mut m, provider.as_adapter_id());
        push_str(&mut m, "'");
        assert(m@ =~= model_not_enabled_message(*provider, model@));
        return Err(m);
    }
    Ok(())
}

/// A turn selection is accepted exactly when the (provider, model) pair is one
/// of the models that `list_available_models` offers.
pub proof fn lemma_selection_accepted_iff_listed(cfg: LlmRuntimeConfig, p: ProviderId, model: Seq<char>)
    ensures
        (provider_available(cfg, p) && provider_view(cfg, p).models.contains(model))
            <==> available_models_spec(cfg).contains((p, model)),
{
    let b = models_for(cfg, ProviderId::Bigmodel);
    let o = models_for(cfg, ProviderId::Openai);
    let a = models_for(cfg, ProviderId::Anthropic);
    let all = b + o + a;
    assert(all == available_models_spec(cfg));
    if provider_available(cfg, p) && provider_view(cfg, p).models.contains(model) {
        let i = choose|i: int| 0 <= i < provider_view(cfg, p).models.len() && provider_view(cfg, p).models[i] == model;
        match p {
            ProviderId::Bigmodel => {
                assert(all[i] == (p, model));
            },
            ProviderId::Openai => {
                assert(all[b.len() + i] == (p, model));
            },
            ProviderId::Anthropic => {
                assert(all[b.len() + o.len() + i] == (p, model));
            },
        }
    }
    if all.contains((p, model)) {
        let j = choose|j: int| 0 <= j < all.len() && all[j] == (p, model);
        if j < b.len() {
            assert(b[j] == (p, model));
        } else if j < b.len() + o.len() {
            assert(o[j - b.len()] == (p, model));
        } else {
            assert(a[j - b.len() - o.len()] == (p, model));
        }
        let q = if j < b.len() {
            ProviderId::Bigmodel
        } else if j < b.len() + o.len() {
            ProviderId::Openai
        } else {
            ProviderId::Anthropic
        };
        let k = if j < b.len() {
            j
        } else if j < b.len() + o.len() {
            j - b.len()
        } else {
            j - b.len() - o.len()
        };
        assert(q == p);
        assert(provider_view(cfg, p).models[k] == model);
    }
}

/// The default provider chosen by normalization is usable, it is absent only
/// when no provider is usable, and a usable configured default is kept.
pub proof fn lemma_normalized_default_usable(cfg: LlmRuntimeConfig)
    ensures
        normalized_default(cfg) matches Some(p) ==> provider_available(cfg, p),
        normalized_default(cfg) is None <==> configured_spec(cfg).len() == 0,
        (cfg.default_provider matches Some(p) && provider_available(cfg, p)) ==> normalized_default(
            cfg,
        ) == cfg.default_provider,
{
    let c = configured_spec(cfg);
    if c.len() > 0 {
        let b = if_available(cfg, ProviderId::Bigmodel);
        let o = if_available(cfg, ProviderId::Openai);
        if b.len() > 0 {
            assert(c[0] == ProviderId::Bigmodel);
        } else if o.len() > 0 {
            assert(c[0] == ProviderId::Openai);
        } else {
            assert(c[0] == ProviderId::Anthropic);
        }
    } else {
        assert(!provider_available(cfg, ProviderId::Bigmodel));
        assert(!provider_available(cfg, ProviderId::Openai));
        assert(!provider_available(cfg, ProviderId::Anthropic));
    }
}

/// Normalized models are non-blank and distinct, each is the trimmed form of
/// an input model, and every input model that is not blank is kept.
pub proof fn lemma_normalized_models(ms: Seq<Seq<char>>)
    ensures
        normalize_models(ms).no_duplicates(),
        forall|j: int| 0 <= j < normalize_models(ms).len() ==> #[trigger] normalize_models(ms)[j].len() > 0,
        forall|j: int|
            0 <= j < normalize_models(ms).len() ==> exists|i: int|
                0 <= i < ms.len() && #[trigger] normalize_models(ms)[j] == trim(ms[i]),
        forall|i: int|
            0 <= i < ms.len() && trim(ms[i]).len() > 0 ==> normalize_models(ms).contains(
                #[trigger] trim(ms[i]),
            ),
    decreases ms.len(),
{
    if ms.len() > 0 {
        let init = ms.drop_last();
        lemma_normalized_models(init);
        let prefix = normalize_models(init);
        let r = normalize_models(ms);
        let t = trim(ms.last());
        assert forall|j: int| 0 <= j < r.len() implies exists|i: int|
            0 <= i < ms.len() && #[trigger] r[j] == trim(ms[i]) by {
            if j < prefix.len() {
                let i = choose|i: int| 0 <= i < init.len() && prefix[j] == trim(init[i]);
                assert(r[j] == trim(ms[i]));
            } else {
                assert(r[j] == trim(ms[ms.len() - 1]));
            }
        }
        assert forall|i: int| 0 <= i < ms.len() && trim(ms[i]).len() > 0 implies r.contains(
            #[trigger] trim(ms[i]),
        ) by {
            if i < init.len() {
                assert(init[i] == ms[i]);
                let k = choose|k: int| 0 <= k < prefix.len() && prefix[k] == trim(init[i]);
                assert(r[k] == trim(ms[i]));
            } else if !prefix.contains(t) {
                assert(r[prefix.len() as int] == t);
            }
        }
    }
}

/// Whether `k` is the trimmed key of some pair of `hs`.
pub open spec fn trimmed_key_in(hs: Seq<(Seq<char>, Seq<char>)>, k: Seq<char>) -> bool {
    exists|i: int| 0 <= i < hs.len() && trim(hs[i].0) == k
}

/// Normalized headers have distinct, non-blank keys; every non-blank trimmed
/// key of the input is kept, and it carries the value of its last pair.
pub proof fn lemma_normalized_headers_keep_last(hs: Seq<(Seq<char>, Seq<char>)>)
    ensures
        forall|j1: int, j2: int|
            0 <= j1 < j2 < normalize_headers(hs).len() ==> #[trigger] normalize_headers(hs)[j1].0
                != #[trigger] normalize_headers(hs)[j2].0,
        forall|j: int|
            0 <= j < normalize_headers(hs).len() ==> #[trigger] normalize_headers(hs)[j].0.len() > 0,
        forall|k: Seq<char>|
            k.len() > 0 ==> (#[trigger] has_key(normalize_headers(hs), k) <==> trimmed_key_in(hs, k)),
        forall|j: int|
            0 <= j < normalize_headers(hs).len() ==> exists|i: int|
                0 <= i < hs.len() && trim(hs[i].0) == #[trigger] normalize_headers(hs)[j].0
                    && hs[i].1 == normalize_headers(hs)[j].1 && forall|i2: int|
                    i < i2 < hs.len() ==> trim(hs[i2].0) != normalize_headers(hs)[j].0,
    decreases hs.len(),
{
    if hs.len() > 0 {
        let tail = hs.subrange(1, hs.len() as int);
        lemma_normalized_headers_keep_last(tail);
        let rest = normalize_headers(tail);
        let r = normalize_headers(hs);
        let k0 = trim(hs[0].0);
        assert forall|k: Seq<char>| k.len() > 0 implies (#[trigger] has_key(r, k) <==> trimmed_key_in(hs, k)) by {
            if trimmed_key_in(hs, k) {
                let i = choose|i: int| 0 <= i < hs.len() && trim(hs[i].0) == k;
                if i > 0 {
                    assert(tail[i - 1] == hs[i]);
                    assert(trimmed_key_in(tail, k));
                    assert(has_key(rest, k));
                    let q = choose|q: int| 0 <= q < rest.len() && rest[q].0 == k;
                    if r != rest {
                        assert(r[q + 1] == rest[q]);
                    }
                } else if !(k0.len() == 0 || has_key(rest, k0)) {
                    assert(r[0].0 == k);
                }
            }
            if has_key(r, k) {
                let q = choose|q: int| 0 <= q < r.len() && r[q].0 == k;
                if r == rest {
                    assert(has_key(rest, k));
                    assert(trimmed_key_in(tail, k));
                    let i = choose|i: int| 0 <= i < tail.len() && trim(tail[i].0) == k;
                    assert(hs[i + 1] == tail[i]);
                } else if q == 0 {
                    assert(trim(hs[0].0) == k);
                } else {
                    assert(rest[q - 1].0 == k);
                    assert(has_key(rest, k));
                    assert(trimmed_key_in(tail, k));
                    let i = choose|i: int| 0 <= i < tail.len() && trim(tail[i].0) == k;
                    assert(hs[i + 1] == tail[i]);
                }
            }
        }
        assert forall|j: int| 0 <= j < r.len() implies exists|i: int|
            0 <= i < hs.len() && trim(hs[i].0) == #[trigger] r[j].0 && hs[i].1 == r[j].1
                && forall|i2: int| i < i2 < hs.len() ==> trim(hs[i2].0) != r[j].0 by {
            if r == rest || j > 0 {
                let jj = if r == rest { j } else { j - 1 };
                assert(r[j] == rest[jj]);
                let i = choose|i: int|
                    0 <= i < tail.len() && trim(tail[i].0) == rest[jj].0 && tail[i].1 == rest[jj].1
                        && forall|i2: int| i < i2 < tail.len() ==> trim(tail[i2].0) != rest[jj].0;
                assert(hs[i + 1] == tail[i]);
                assert forall|i2: int| i + 1 < i2 < hs.len() implies trim(hs[i2].0) != r[j].0 by {
                    assert(hs[i2] == tail[i2 - 1]);
                }
            } else {
                assert forall|i2: int| 0 < i2 < hs.len() implies trim(hs[i2].0) != r[j].0 by {
                    assert(hs[i2] == tail[i2 - 1]);
                    if trim(hs[i2].0) == k0 {
                        assert(trimmed_key_in(tail, k0));
                    }
                }
            }
        }
        assert forall|j1: int, j2: int| 0 <= j1 < j2 < r.len() implies #[trigger] r[j1].0
            != #[trigger] r[j2].0 by {
            if r != rest {
                if j1 == 0 {
                    assert(r[j2] == rest[j2 - 1]);
                    if r[j2].0 == k0 {
                        assert(has_key(rest, k0));
                    }
                } else {
                    assert(r[j1] == rest[j1 - 1]);
                    assert(r[j2] == rest[j2 - 1]);
                }
            }
        }
        assert forall|j: int| 0 <= j < r.len() implies #[trigger] r[j].0.len() > 0 by {
            if r != rest && j > 0 {
                assert(r[j] == rest[j - 1]);
            }
        }
    }
}

/// Whether `i` is the last position of `hs` whose trimmed key is `k`.
pub open spec fn is_last_of(hs: Seq<(Seq<char>, Seq<char>)>, i: int, k: Seq<char>) -> bool {
    &&& 0 <= i < hs.len()
    &&& trim(hs[i].0) == k
    &&& forall|i2: int| i < i2 < hs.len() ==> trim(#[trigger] hs[i2].0) != k
}

/// Normalized headers come in the order of the last pair of each key: of two
/// normalized pairs, the earlier one's key last occurs earlier in the input.
pub proof fn lemma_normalized_headers_in_last_order(hs: Seq<(Seq<char>, Seq<char>)>)
    ensures
        forall|j1: int, j2: int, i1: int, i2: int|
            #![trigger is_last_of(hs, i1, normalize_headers(hs)[j1].0), is_last_of(hs, i2, normalize_headers(hs)[j2].0)]
            0 <= j1 < j2 < normalize_headers(hs).len() && is_last_of(hs, i1, normalize_headers(hs)[j1].0)
                && is_last_of(hs, i2, normalize_headers(hs)[j2].0) ==> i1 < i2,
    decreases hs.len(),
{
    if hs.len() > 0 {
        let tail = hs.subrange(1, hs.len() as int);
        let rest = normalize_headers(tail);
        let r = normalize_headers(hs);
        let k0 = trim(hs[0].0);
        lemma_normalized_headers_in_last_order(tail);
        lemma_normalized_headers_keep_last(tail);
        lemma_normalized_headers_keep_last(hs);
        // A key of `rest` last occurs in `hs` one place after where it last
        // occurs in `tail`.
        assert forall|j: int, i: int|
            #![trigger is_last_of(hs, i, rest[j].0)]
            0 <= j < rest.len() && is_last_of(hs, i, rest[j].0) implies i >= 1 && is_last_of(
                tail,
                i - 1,
                rest[j].0,
            ) by {
            let t = choose|t: int|
                0 <= t < tail.len() && trim(tail[t].0) == #[trigger] rest[j].0 && tail[t].1 == rest[j].1
                    && forall|i2: int| t < i2 < tail.len() ==> trim(tail[i2].0) != rest[j].0;
            assert(hs[t + 1] == tail[t]);
            if i < t + 1 {
                assert(trim(hs[t + 1].0) != rest[j].0);
            }
            assert forall|m: int| i - 1 < m < tail.len() implies trim(#[trigger] tail[m].0) != rest[j].0 by {
                assert(hs[m + 1] == tail[m]);
            }
        }
        assert forall|j1: int, j2: int, i1: int, i2: int|
            #![trigger is_last_of(hs, i1, r[j1].0), is_last_of(hs, i2, r[j2].0)]
            0 <= j1 < j2 < r.len() && is_last_of(hs, i1, r[j1].0) && is_last_of(hs, i2, r[j2].0)
                implies i1 < i2 by {
            if r == rest {
                assert(is_last_of(hs, i1, rest[j1].0));
                assert(is_last_of(hs, i2, rest[j2].0));
                assert(is_last_of(tail, i1 - 1, rest[j1].0));
                assert(is_last_of(tail, i2 - 1, rest[j2].0));
            } else if j1 == 0 {
                assert(r[j2] == rest[j2 - 1]);
                assert(is_last_of(hs, i2, rest[j2 - 1].0));
                assert(i2 >= 1);
                assert(r[0].0 == k0);
                if i1 > 0 {
                    assert(tail[i1 - 1] == hs[i1]);
                    assert(trimmed_key_in(tail, k0));
                    assert(has_key(rest, k0));
                }
            } else {
                assert(r[j1] == rest[j1 - 1]);
                assert(r[j2] == rest[j2 - 1]);
                assert(is_last_of(hs, i1, rest[j1 - 1].0));
                assert(is_last_of(hs, i2, rest[j2 - 1].0));
                assert(is_last_of(tail, i1 - 1, rest[j1 - 1].0));
                assert(is_last_of(tail, i2 - 1, rest[j2 - 1].0));
            }
        }
    }
}

/// The headers described by pairs of character sequences: trimmed non-blank
/// keys, a later pair replacing an earlier one with the same key.
pub open spec fn header_map_of(hs: Seq<(Seq<char>, Seq<char>)>) -> Map<Seq<char>, Seq<char>>
    decreases hs.len(),
{
    if hs.len() == 0 {
        Map::empty()
    } else {
        let m = header_map_of(hs.drop_last());
        let k = trim(hs.last().0);
        if k.len() == 0 {
            m
        } else {
            m.insert(k, hs.last().1)
        }
    }
}

proof fn lemma_header_map_views(h: Seq<HeaderPair>)
    ensures
        header_map_spec(h).dom() == header_map_of(h.map_values(|p: HeaderPair| pair_view(p))).dom(),
        forall|k: Seq<char>|
            #[trigger] header_map_spec(h).dom().contains(k) ==> header_map_spec(h)[k]@ == header_map_of(
                h.map_values(|p: HeaderPair| pair_view(p)),
            )[k],
    decreases h.len(),
{
    if h.len() > 0 {
        lemma_header_map_views(h.drop_last());
        assert(h.drop_last().map_values(|p: HeaderPair| pair_view(p)) =~= h.map_values(
            |p: HeaderPair| pair_view(p),
        ).drop_last());
    }
}

proof fn lemma_header_map_of_last(hs: Seq<(Seq<char>, Seq<char>)>)
    ensures
        forall|k: Seq<char>|
            #[trigger] header_map_of(hs).dom().contains(k) <==> (k.len() > 0 && trimmed_key_in(hs, k)),
        forall|k: Seq<char>|
            #[trigger] header_map_of(hs).dom().contains(k) ==> exists|i: int|
                0 <= i < hs.len() && trim(hs[i].0) == k && hs[i].1 == header_map_of(hs)[k] && forall|
                    i2: int,
                | i < i2 < hs.len() ==> trim(#[trigger] hs[i2].0) != k,
    decreases hs.len(),
{
    if hs.len() > 0 {
        let init = hs.drop_last();
        lemma_header_map_of_last(init);
        let last = hs.len() - 1;
        let k0 = trim(hs[last].0);
        assert(header_map_of(hs) == (if k0.len() == 0 {
            header_map_of(init)
        } else {
            header_map_of(init).insert(k0, hs[last].1)
        }));
        assert forall|k: Seq<char>|
            #[trigger] header_map_of(hs).dom().contains(k) <==> (k.len() > 0 && trimmed_key_in(hs, k)) by {
            if k0.len() > 0 && k == k0 {
                assert(trimmed_key_in(hs, k));
            }
            if trimmed_key_in(hs, k) {
                let i = choose|i: int| 0 <= i < hs.len() && trim(hs[i].0) == k;
                if i < last {
                    assert(init[i] == hs[i]);
                    assert(trimmed_key_in(init, k));
                }
            }
            if trimmed_key_in(init, k) {
                let i = choose|i: int| 0 <= i < init.len() && trim(init[i].0) == k;
                assert(hs[i] == init[i]);
            }
        }
        assert forall|k: Seq<char>| #[trigger] header_map_of(hs).dom().contains(k) implies exists|i: int|
            0 <= i < hs.len() && trim(hs[i].0) == k && hs[i].1 == header_map_of(hs)[k] && forall|
                i2: int,
            | i < i2 < hs.len() ==> trim(#[trigger] hs[i2].0) != k by {
            if k0.len() > 0 && k == k0 {
                assert(trim(hs[last].0) == k);
            } else {
                assert(header_map_of(init).dom().contains(k));
                let i = choose|i: int|
                    0 <= i < init.len() && trim(init[i].0) == k && init[i].1 == header_map_of(init)[k]
                        && forall|i2: int| i < i2 < init.len() ==> trim(#[trigger] init[i2].0) != k;
                assert(hs[i] == init[i]);
                assert forall|i2: int| i < i2 < hs.len() implies trim(#[trigger] hs[i2].0) != k by {
                    if i2 < last {
                        assert(hs[i2] == init[i2]);
                    }
                }
            }
        }
    }
}

/// Normalizing header pairs leaves the headers they describe unchanged: the
/// same keys, each with the value of its last pair.
pub proof fn lemma_normalized_headers_keep_map(hs: Seq<(Seq<char>, Seq<char>)>)
    ensures
        header_map_of(normalize_headers(hs)) == header_map_of(hs),
{
    let r = normalize_headers(hs);
    lemma_normalized_headers_keep_last(hs);
    lemma_header_map_of_last(hs);
    lemma_header_map_of_last(r);
    assert forall|j: int| 0 <= j < r.len() implies trim(#[trigger] r[j].0) == r[j].0 by {
        let i = choose|i: int|
            0 <= i < hs.len() && trim(hs[i].0) == r[j].0 && hs[i].1 == r[j].1 && forall|i2: int|
                i < i2 < hs.len() ==> trim(hs[i2].0) != r[j].0;
        crate::text::lemma_trim_idempotent(hs[i].0);
    }
    assert forall|k: Seq<char>| k.len() > 0 implies (trimmed_key_in(r, k) <==> has_key(r, k)) by {
        if trimmed_key_in(r, k) {
            let j = choose|j: int| 0 <= j < r.len() && trim(r[j].0) == k;
            assert(r[j].0 == k);
        }
        if has_key(r, k) {
            let j = choose|j: int| 0 <= j < r.len() && r[j].0 == k;
            assert(trim(r[j].0) == k);
        }
    }
    let mr = header_map_of(r);
    let mh = header_map_of(hs);
    assert forall|k: Seq<char>| #[trigger] mr.dom().contains(k) <==> mh.dom().contains(k) by {
        if k.len() > 0 {
            assert(has_key(r, k) <==> trimmed_key_in(hs, k));
        }
    }
    assert forall|k: Seq<char>| #[trigger] mr.dom().contains(k) implies mr[k] == mh[k] by {
        let j = choose|j: int|
            0 <= j < r.len() && trim(r[j].0) == k && r[j].1 == mr[k] && forall|j2: int|
                j < j2 < r.len() ==> trim(#[trigger] r[j2].0) != k;
        assert(r[j].0 == k);
        let i = choose|i: int|
            0 <= i < hs.len() && trim(hs[i].0) == r[j].0 && hs[i].1 == r[j].1 && forall|i2: int|
                i < i2 < hs.len() ==> trim(hs[i2].0) != r[j].0;
        let i1 = choose|i1: int|
            0 <= i1 < hs.len() && trim(hs[i1].0) == k && hs[i1].1 == mh[k] && forall|i2: int|
                i1 < i2 < hs.len() ==> trim(#[trigger] hs[i2].0) != k;
        if i < i1 {
            assert(trim(hs[i1].0) != r[j].0);
        }
        if i1 < i {
            assert(trim(hs[i].0) != k);
        }
    }
    assert(mr =~= mh);
}

/// Normalizing a provider configuration leaves the headers sent to the
/// provider unchanged: the same keys, each with the same value.
pub proof fn lemma_normalize_keeps_header_map(before: ProviderRuntimeConfig, after: ProviderRuntimeConfig)
    requires
        after@ == normalize_provider(before@),
    ensures
        header_map_spec(after.headers@).dom() == header_map_spec(before.headers@).dom(),
        forall|k: Seq<char>|
            #[trigger] header_map_spec(after.headers@).dom().contains(k) ==> header_map_spec(
                after.headers@,
            )[k]@ == header_map_spec(before.headers@)[k]@,
{
    lemma_header_map_views(before.headers@);
    lemma_header_map_views(after.headers@);
    lemma_normalized_headers_keep_map(before@.headers);
    assert(before@.headers == before.headers@.map_values(|p: HeaderPair| pair_view(p)));
    assert(after@.headers == after.headers@.map_values(|p: HeaderPair| pair_view(p)));
}

} // verus!
